//! Addresses, and the ordered list of addresses that a contract keeps.
//!
//! The list is the one of the contract environment, and what its functions do
//! is taken on trust, as each of them says. The environment meters its work and
//! stops a contract that runs out of budget; as with memory, there is taken to
//! be enough.

use soroban_sdk::Env;
use vstd::prelude::*;

verus! {

/// An account or contract address: the kind of address, then the high and the
/// low half of its 32-byte payload, each read as a big-endian number.
pub type Address = (u32, u128, u128);

/// The contract environment, carried to where a list is made.
#[verifier::external_type_specification]
#[verifier::external_body]
pub struct ExEnv(soroban_sdk::Env);

/// The list type of the contract environment.
#[verifier::external_type_specification]
#[verifier::external_body]
#[verifier::reject_recursive_types(T)]
pub struct ExVec<T>(soroban_sdk::Vec<T>);

/// The addresses that an environment list holds, first to last.
pub uninterp spec fn list_items(list: soroban_sdk::Vec<(u32, u128, u128)>) -> Seq<
    (u32, u128, u128),
>;

/// A list of addresses held by the contract environment.
///
/// The field is private and every list starts out of [`AddressList::new`], so
/// that nothing but an address is ever in it.
pub struct AddressList {
    items: soroban_sdk::Vec<Address>,
}

impl View for AddressList {
    type V = Seq<Address>;

    closed spec fn view(&self) -> Seq<Address> {
        list_items(self.items)
    }
}

impl AddressList {
    /// Calls `soroban_sdk::Vec::new`: the list is empty.
    #[verifier::external_body]
    fn new(env: &Env) -> (list: AddressList)
        ensures
            list_items(list.items) == Seq::<Address>::empty(),
    {
        AddressList { items: soroban_sdk::Vec::new(env) }
    }

    /// Calls `soroban_sdk::Vec::len`: the number of addresses.
    #[verifier::external_body]
    pub(crate) fn len(&self) -> (n: u32)
        ensures
            n == self@.len(),
    {
        self.items.len()
    }

    /// Calls `soroban_sdk::Vec::get`: the address at the position, or `None`
    /// past the end. It panics on an item that is no address, and there is none.
    #[verifier::external_body]
    pub(crate) fn get(&self, i: u32) -> (item: Option<Address>)
        ensures
            item == (if i < self@.len() {
                Some(self@[i as int])
            } else {
                None
            }),
    {
        self.items.get(i)
    }

    /// Calls `soroban_sdk::Vec::contains`: whether an equal address is in the
    /// list.
    #[verifier::external_body]
    pub(crate) fn contains(&self, item: &Address) -> (found: bool)
        ensures
            found == self@.contains(*item),
    {
        self.items.contains(item)
    }

    /// Calls `soroban_sdk::Vec::first_index_of`: the first position at which
    /// the address is, or `None` where it is nowhere.
    #[verifier::external_body]
    pub(crate) fn first_index_of(&self, item: &Address) -> (found: Option<u32>)
        ensures
            match found {
                Some(i) => {
                    &&& i < self@.len()
                    &&& self@[i as int] == *item
                    &&& forall|j: int| 0 <= j < i ==> self@[j] != *item
                },
                None => !self@.contains(*item),
            },
    {
        self.items.first_index_of(item)
    }

    /// Calls `soroban_sdk::Vec::push_back`: the address comes last, the others
    /// stay as they are. A list of the greatest length takes no more.
    #[verifier::external_body]
    pub(crate) fn push_back(&mut self, item: Address)
        requires
            old(self)@.len() < u32::MAX,
        ensures
            final(self)@ == old(self)@.push(item),
    {
        self.items.push_back(item)
    }

    /// Calls `soroban_sdk::Vec::remove`: the address at the position goes and
    /// those behind it move up by one; past the end nothing happens.
    #[verifier::external_body]
    pub(crate) fn remove(&mut self, i: u32) -> (removed: Option<()>)
        ensures
            i < old(self)@.len() ==> removed is Some && final(self)@ == old(self)@.remove(i as int),
            i >= old(self)@.len() ==> removed is None && final(self)@ == old(self)@,
    {
        self.items.remove(i)
    }

    /// The list of the given addresses, in their order.
    pub fn from_vec(env: &Env, addresses: &Vec<Address>) -> (list: AddressList)
        requires
            addresses@.len() <= u32::MAX,
        ensures
            list@ == addresses@,
    {
        let mut list = AddressList::new(env);
        let mut i: usize = 0;
        while i < addresses.len()
            invariant
                i <= addresses@.len() <= u32::MAX,
                list@ == addresses@.take(i as int),
            decreases addresses@.len() - i,
        {
            list.push_back(addresses[i]);
            i = i + 1;
            assert(addresses@.take(i as int) =~= addresses@.take(i - 1).push(addresses@[i - 1]));
        }
        list
    }

    /// The addresses of the list, in their order.
    pub fn to_vec(&self) -> (addresses: Vec<Address>)
        ensures
            addresses@ == self@,
    {
        let n: u32 = self.len();
        let mut addresses: Vec<Address> = Vec::new();
        let mut i: u32 = 0;
        while i < n
            invariant
                i <= n == self@.len(),
                addresses@ == self@.take(i as int),
            decreases n - i,
        {
            if let Some(item) = self.get(i) {
                addresses.push(item);
            }
            i = i + 1;
            assert(self@.take(i as int) =~= self@.take(i - 1).push(self@[i - 1]));
        }
        addresses
    }
}

} // verus!
