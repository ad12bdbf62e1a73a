//! The verified core of an N-of-M multisig contract.
//!
//! A dynamic set of signers and a threshold govern internal proposals, which go
//! through an approve, then execute flow with an optional time lock for each
//! proposal and one emergency lock for all of them.
//!
//! - [`multisig`]: the requests that the contract answers.
//! - [`ledger`]: what the contract keeps between requests, and what a request
//!   asks of its host.
//! - [`model`]: what every request answers and leaves behind, as mathematics.
//! - [`request_laws`]: what each request is for, said of the stored fields alone.
//! - [`laws`]: what holds of all requests together.
//! - [`address_list`]: addresses and the signer list of the host.
//! - [`address_codec`]: addresses as the host serializes them.
//! - [`validation`]: small guards (amounts, texts, time windows).
//! - [`constants`], [`errors`]: protocol-wide limits and the error table.

pub mod address_codec;
pub mod address_list;
pub mod constants;
pub mod errors;
pub mod laws;
pub mod ledger;
pub mod model;
pub mod multisig;
pub mod request_laws;
pub mod validation;
