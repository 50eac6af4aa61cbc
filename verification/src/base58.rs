//! Base58 text form of addresses, hashes, signatures and keypairs.

use vstd::prelude::*;

verus! {

/// The base58 text (Bitcoin alphabet) of a byte string, as the `bs58` crate
/// computes it.
pub uninterp spec fn base58(bytes: Seq<u8>) -> Seq<char>;

/// Encodes `bytes` with `bs58::encode(..).into_string()`, the call behind the
/// `Display` impls of the ledger's addresses, hashes and signatures.
///
/// Trusted: the result is the encoder's output for these bytes; the encoding
/// is a function of the bytes alone, and writes at least one character
/// unless there are no bytes.
#[verifier::external_body]
pub(crate) fn encode_base58(bytes: &[u8]) -> (text: String)
    ensures
        text@ == base58(bytes@),
        bytes@.len() > 0 ==> text@.len() > 0,
{
    solana_sdk::bs58::encode(bytes).into_string()
}

} // verus!
