//! Addresses as bytes: the serialized form in which the host writes an address.
//!
//! It is a run of big-endian words: the tag of an address among the host's
//! values, the kind of address, for an account the type of its key, and then
//! the 32-byte payload.

use crate::address_list::Address;
use vstd::arithmetic::div_mod::lemma_div_denominator;
use vstd::arithmetic::power::{lemma_pow0, lemma_pow_positive, pow};
use vstd::prelude::*;

verus! {

/// The tag of an address among the values of the host.
pub const ADDRESS_TAG: u32 = 18;

/// The kind of an account address.
pub const ACCOUNT_KIND: u32 = 0;

/// The kind of a contract address.
pub const CONTRACT_KIND: u32 = 1;

/// The type of the key of an account: an Ed25519 key.
pub const ED25519_TYPE: u32 = 0;

/// The number that bytes stand for, the most significant one first.
pub open spec fn be_value(bytes: Seq<u8>) -> nat
    decreases bytes.len(),
{
    if bytes.len() == 0 {
        0
    } else {
        be_value(bytes.drop_last()) * 256 + bytes.last() as nat
    }
}

/// The last `n` bytes of a number, the most significant one first.
pub open spec fn be_bytes(x: nat, n: nat) -> Seq<u8>
    decreases n,
{
    if n == 0 {
        Seq::empty()
    } else {
        be_bytes(x / 256, (n - 1) as nat).push((x % 256) as u8)
    }
}

/// How many numbers there are of `n` bytes.
pub open spec fn be_limit(n: nat) -> nat
    decreases n,
{
    if n == 0 {
        1
    } else {
        be_limit((n - 1) as nat) * 256
    }
}

/// Whether the host has such an address: an account or a contract.
pub open spec fn is_host_address(a: Address) -> bool {
    a.0 == ACCOUNT_KIND || a.0 == CONTRACT_KIND
}

/// The serialized form of an address.
pub open spec fn address_bytes(a: Address) -> Seq<u8> {
    let key_type = if a.0 == ACCOUNT_KIND {
        be_bytes(ED25519_TYPE as nat, 4)
    } else {
        Seq::empty()
    };
    be_bytes(ADDRESS_TAG as nat, 4) + be_bytes(a.0 as nat, 4) + key_type + be_bytes(a.1 as nat, 16)
        + be_bytes(a.2 as nat, 16)
}

/// The account or contract that bytes are the serialized form of, if they are
/// that of one.
pub open spec fn address_of(bytes: Seq<u8>) -> Option<Address> {
    if exists|a: Address| is_host_address(a) && #[trigger] address_bytes(a) == bytes {
        Some(choose|a: Address| is_host_address(a) && #[trigger] address_bytes(a) == bytes)
    } else {
        None
    }
}

proof fn lemma_limits()
    ensures
        be_limit(4) == u32::MAX + 1,
        be_limit(16) == u128::MAX + 1,
{
    reveal_with_fuel(be_limit, 17);
}

proof fn lemma_limit_grows(m: nat, n: nat)
    requires
        m <= n,
    ensures
        1 <= be_limit(m) <= be_limit(n),
    decreases n,
{
    if n > 0 {
        if m < n {
            lemma_limit_grows(m, (n - 1) as nat);
        } else {
            lemma_limit_grows((n - 1) as nat, (n - 1) as nat);
        }
    }
}

proof fn lemma_value_bound(bytes: Seq<u8>)
    ensures
        be_value(bytes) < be_limit(bytes.len()),
    decreases bytes.len(),
{
    if bytes.len() > 0 {
        lemma_value_bound(bytes.drop_last());
    }
}

proof fn lemma_bytes_len(x: nat, n: nat)
    ensures
        be_bytes(x, n).len() == n,
    decreases n,
{
    if n > 0 {
        lemma_bytes_len(x / 256, (n - 1) as nat);
    }
}

proof fn lemma_value_of_bytes(x: nat, n: nat)
    requires
        x < be_limit(n),
    ensures
        be_value(be_bytes(x, n)) == x,
    decreases n,
{
    if n > 0 {
        lemma_value_of_bytes(x / 256, (n - 1) as nat);
        assert(be_bytes(x, n).drop_last() =~= be_bytes(x / 256, (n - 1) as nat));
    }
}

proof fn lemma_bytes_of_value(bytes: Seq<u8>)
    ensures
        be_bytes(be_value(bytes), bytes.len()) == bytes,
    decreases bytes.len(),
{
    if bytes.len() > 0 {
        lemma_bytes_of_value(bytes.drop_last());
        assert(bytes.drop_last().push(bytes.last()) =~= bytes);
    }
}

/// Where the parts of a serialized address are.
proof fn lemma_layout(a: Address)
    ensures
        ({
            let s = address_bytes(a);
            let k: int = if a.0 == ACCOUNT_KIND {
                12
            } else {
                8
            };
            &&& s.len() == k + 32
            &&& be_value(s.subrange(0, 4)) == ADDRESS_TAG
            &&& be_value(s.subrange(4, 8)) == a.0
            &&& a.0 == ACCOUNT_KIND ==> be_value(s.subrange(8, 12)) == ED25519_TYPE
            &&& be_value(s.subrange(k, k + 16)) == a.1
            &&& be_value(s.subrange(k + 16, k + 32)) == a.2
        }),
{
    let s = address_bytes(a);
    let k: int = if a.0 == ACCOUNT_KIND {
        12
    } else {
        8
    };
    lemma_limits();
    lemma_bytes_len(ADDRESS_TAG as nat, 4);
    lemma_bytes_len(a.0 as nat, 4);
    lemma_bytes_len(ED25519_TYPE as nat, 4);
    lemma_bytes_len(a.1 as nat, 16);
    lemma_bytes_len(a.2 as nat, 16);
    lemma_value_of_bytes(ADDRESS_TAG as nat, 4);
    lemma_value_of_bytes(a.0 as nat, 4);
    lemma_value_of_bytes(ED25519_TYPE as nat, 4);
    lemma_value_of_bytes(a.1 as nat, 16);
    lemma_value_of_bytes(a.2 as nat, 16);
    assert(s.subrange(0, 4) =~= be_bytes(ADDRESS_TAG as nat, 4));
    assert(s.subrange(4, 8) =~= be_bytes(a.0 as nat, 4));
    if a.0 == ACCOUNT_KIND {
        assert(s.subrange(8, 12) =~= be_bytes(ED25519_TYPE as nat, 4));
    }
    assert(s.subrange(k, k + 16) =~= be_bytes(a.1 as nat, 16));
    assert(s.subrange(k + 16, k + 32) =~= be_bytes(a.2 as nat, 16));
}

/// Different addresses have different serialized forms.
pub proof fn law_address_bytes_tell_apart(a: Address, b: Address)
    requires
        address_bytes(a) == address_bytes(b),
    ensures
        a == b,
{
    lemma_layout(a);
    lemma_layout(b);
}

/// Each byte is a digit of the number in base 256, the most significant first.
proof fn lemma_digit(x: nat, n: nat, i: int)
    requires
        0 <= i < n,
    ensures
        be_bytes(x, n).len() == n,
        be_bytes(x, n)[i] == (x as int / pow(256, (n - 1 - i) as nat)) % 256,
    decreases n,
{
    lemma_bytes_len(x, n);
    lemma_bytes_len(x / 256, (n - 1) as nat);
    if i == n - 1 {
        lemma_pow0(256);
    } else {
        let e = (n - 2 - i) as nat;
        lemma_digit(x / 256, (n - 1) as nat, i);
        lemma_pow_positive(256, e);
        lemma_div_denominator(x as int, 256, pow(256, e));
        reveal(pow);
        assert(pow(256, e + 1) == 256 * pow(256, e));
    }
}

/// Where each byte of a serialized address comes from: after the tag 18 and the
/// kind, for an account after four zeros more, the digits in base 256 of the
/// high half of the payload, then of the low half, the most significant first.
pub proof fn law_address_bytes_by_place(a: Address, i: int)
    requires
        0 <= i < 16,
    ensures
        ({
            let s = address_bytes(a);
            let k: int = if a.0 == 0 {
                12
            } else {
                8
            };
            &&& s.len() == k + 32
            &&& s[0] == 0 && s[1] == 0 && s[2] == 0 && s[3] == 18
            &&& i < 4 ==> s[4 + i] == (a.0 as int / pow(256, (3 - i) as nat)) % 256
            &&& a.0 == 0 ==> s[8] == 0 && s[9] == 0 && s[10] == 0 && s[11] == 0
            &&& s[k + i] == (a.1 as int / pow(256, (15 - i) as nat)) % 256
            &&& s[k + 16 + i] == (a.2 as int / pow(256, (15 - i) as nat)) % 256
        }),
{
    lemma_bytes_len(18, 4);
    lemma_bytes_len(a.0 as nat, 4);
    lemma_bytes_len(0, 4);
    lemma_digit(a.1 as nat, 16, i);
    lemma_digit(a.2 as nat, 16, i);
    if i < 4 {
        lemma_digit(a.0 as nat, 4, i);
    }
    reveal_with_fuel(be_bytes, 5);
}

/// The kinds of address that are read back are the accounts, kind zero, and the
/// contracts, kind one, each from its own bytes and from no others.
pub proof fn law_address_of_bytes(a: Address, bytes: Seq<u8>)
    ensures
        address_of(bytes) == Some(a) <==> a.0 <= 1 && bytes == address_bytes(a),
{
    if a.0 <= 1 && bytes == address_bytes(a) {
        law_bytes_give_back_address(a);
    }
}

/// Serializing an account or a contract loses nothing: the bytes give back the
/// address.
pub proof fn law_bytes_give_back_address(a: Address)
    requires
        is_host_address(a),
    ensures
        address_of(address_bytes(a)) == Some(a),
{
    law_address_bytes_tell_apart(a, address_of(address_bytes(a))->0);
}

/// An address has one serialized form only: bytes that are read as it are those
/// that it is written as.
pub proof fn law_address_gives_back_bytes(bytes: Seq<u8>)
    requires
        address_of(bytes) is Some,
    ensures
        is_host_address(address_of(bytes)->0),
        address_bytes(address_of(bytes)->0) == bytes,
{
}

/// Appends the last `n` bytes of a number.
fn push_be(out: &mut Vec<u8>, x: u128, n: usize)
    ensures
        final(out)@ == old(out)@ + be_bytes(x as nat, n as nat),
    decreases n,
{
    if n > 0 {
        push_be(out, x / 256, n - 1);
        out.push((x % 256) as u8);
    }
    assert(out@ =~= old(out)@ + be_bytes(x as nat, n as nat));
}

/// The number that the `n` bytes from a position on stand for.
fn read_be(bytes: &Vec<u8>, at: usize, n: usize) -> (x: u128)
    requires
        n <= 16,
        at + n <= bytes@.len(),
    ensures
        x == be_value(bytes@.subrange(at as int, at + n)),
{
    let mut x: u128 = 0;
    let mut i: usize = 0;
    while i < n
        invariant
            i <= n <= 16,
            at + n <= bytes.len(),
            x == be_value(bytes@.subrange(at as int, at + i)),
        decreases n - i,
    {
        let ghost next = bytes@.subrange(at as int, at + i + 1);
        proof {
            assert(next.drop_last() =~= bytes@.subrange(at as int, at + i));
            lemma_value_bound(next);
            lemma_limit_grows(next.len(), 16);
            lemma_limits();
        }
        x = x * 256 + bytes[at + i] as u128;
        i = i + 1;
    }
    x
}

/// The serialized form of an address.
pub fn address_to_bytes(a: Address) -> (bytes: Vec<u8>)
    ensures
        bytes@ == address_bytes(a),
{
    let mut bytes: Vec<u8> = Vec::new();
    push_be(&mut bytes, ADDRESS_TAG as u128, 4);
    push_be(&mut bytes, a.0 as u128, 4);
    if a.0 == ACCOUNT_KIND {
        push_be(&mut bytes, ED25519_TYPE as u128, 4);
    }
    push_be(&mut bytes, a.1, 16);
    push_be(&mut bytes, a.2, 16);
    assert(bytes@ =~= address_bytes(a));
    bytes
}

/// The account or contract that the bytes are the serialized form of, if they
/// are that of one.
pub fn address_from_bytes(bytes: &Vec<u8>) -> (r: Option<Address>)
    ensures
        r == address_of(bytes@),
{
    proof {
        assert forall|a: Address| #[trigger] address_bytes(a) == bytes@ implies {
            &&& bytes@.len() == if a.0 == ACCOUNT_KIND {
                44int
            } else {
                40int
            }
            &&& be_value(bytes@.subrange(0, 4)) == ADDRESS_TAG
            &&& be_value(bytes@.subrange(4, 8)) == a.0
            &&& a.0 == ACCOUNT_KIND ==> be_value(bytes@.subrange(8, 12)) == ED25519_TYPE
        } by {
            lemma_layout(a);
        }
        lemma_limits();
    }
    let len: usize = bytes.len();
    if len != 40 && len != 44 {
        return None;
    }
    if read_be(bytes, 0, 4) != ADDRESS_TAG as u128 {
        return None;
    }
    let start: usize = len - 32;
    let word: u128 = read_be(bytes, 4, 4);
    if len == 44 {
        if word != ACCOUNT_KIND as u128 || read_be(bytes, 8, 4) != ED25519_TYPE as u128 {
            return None;
        }
    } else if word != CONTRACT_KIND as u128 {
        return None;
    }
    let kind: u32 = if len == 44 {
        ACCOUNT_KIND
    } else {
        CONTRACT_KIND
    };
    let a: Address = (kind, read_be(bytes, start, 16), read_be(bytes, start + 16, 16));
    proof {
        lemma_bytes_of_value(bytes@.subrange(0, 4));
        lemma_bytes_of_value(bytes@.subrange(4, 8));
        lemma_bytes_of_value(bytes@.subrange(start as int, start + 16));
        lemma_bytes_of_value(bytes@.subrange(start + 16, start + 32));
        if len == 44 {
            lemma_bytes_of_value(bytes@.subrange(8, 12));
        }
        assert(address_bytes(a) =~= bytes@);
        law_bytes_give_back_address(a);
    }
    Some(a)
}

} // verus!
