//! Signing keypairs and the addresses derived from them.

use crate::base58::{base58, encode_base58};
use crate::errors::WalletError;
use solana_sdk::signer::keypair::Keypair;
use solana_sdk::signer::{SeedDerivable, Signer};
use vstd::prelude::*;

verus! {

/// The Ed25519 public key that belongs to a 32-byte secret key.
pub uninterp spec fn ed25519_public_key(secret: Seq<u8>) -> Seq<u8>;

/// The least number of seed bytes from which a signing key can be derived.
pub const MIN_SEED_LEN: usize = 32;

/// The 64 bytes of the keypair derived from a seed: the first 32 bytes of
/// the seed as the secret key, then the public key that belongs to it.
pub open spec fn derived_keypair(seed: Seq<u8>) -> Seq<u8> {
    seed.subrange(0, 32) + ed25519_public_key(seed.subrange(0, 32))
}

/// What the derivation says of a seed that it refuses, as its error is
/// printed for debugging.
pub open spec fn seed_refusal() -> Seq<char> {
    "\"Seed is too short\""@
}

/// What the ledger's keypair type says of 64 bytes that it refuses.
pub uninterp spec fn keypair_refusal(keypair: Seq<u8>) -> Seq<char>;

/// Derives a keypair with `Keypair::from_seed` and returns its 64 bytes.
///
/// Trusted: the derivation refuses exactly the seeds shorter than 32 bytes,
/// always with the same words; otherwise the secret key is the first 32
/// bytes of the seed and the public half is the Ed25519 public key of that
/// secret. On refusal the error's debug text is returned.
#[verifier::external_body]
fn keypair_from_seed(seed: &[u8]) -> (r: Result<[u8; 64], String>)
    ensures
        r is Ok <==> seed@.len() >= 32,
        r matches Ok(bytes) ==> {
            &&& bytes@.subrange(0, 32) == seed@.subrange(0, 32)
            &&& bytes@.subrange(32, 64) == ed25519_public_key(seed@.subrange(0, 32))
        },
        r matches Err(cause) ==> cause@ == seed_refusal(),
{
    match Keypair::from_seed(seed) {
        Ok(keypair) => Ok(keypair.to_bytes()),
        Err(e) => Err(format!("{:?}", e)),
    }
}

/// Rebuilds the keypair with `Keypair::from_bytes` and asks it for its
/// address with `Signer::try_pubkey`.
///
/// Trusted: the bytes are accepted exactly when their public half is the
/// Ed25519 public key of their secret half, and the address is then that
/// public half. On refusal the error's debug text is returned, which
/// depends on the bytes alone.
#[verifier::external_body]
fn keypair_pubkey(keypair: &[u8; 64]) -> (r: Result<[u8; 32], String>)
    ensures
        r is Ok <==> keypair@.subrange(32, 64) == ed25519_public_key(keypair@.subrange(0, 32)),
        r matches Ok(address) ==> address@ == keypair@.subrange(32, 64),
        r matches Err(cause) ==> cause@ == keypair_refusal(keypair@),
{
    match Keypair::from_bytes(keypair) {
        Ok(rebuilt) => match rebuilt.try_pubkey() {
            Ok(pubkey) => Ok(pubkey.to_bytes()),
            Err(e) => Err(format!("{:?}", e)),
        },
        Err(e) => Err(format!("{:?}", e)),
    }
}

/// A public identifier on the ledger: 32 bytes.
#[derive(Debug, Clone, Copy, PartialEq, Eq)]
pub struct Address {
    pub bytes: [u8; 32],
}

impl Address {
    /// The address in base58, as users see it.
    pub fn to_base58(&self) -> (text: String)
        ensures
            text@ == base58(self.bytes@),
    {
        encode_base58(self.bytes.as_slice())
    }
}

/// A signing keypair: 32 bytes of secret key followed by the 32 bytes of
/// its public key.
#[derive(Debug, Clone, Copy, PartialEq, Eq)]
pub struct KeyPair {
    pub bytes: [u8; 64],
}

impl KeyPair {
    /// The secret half.
    pub open spec fn secret(self) -> Seq<u8> {
        self.bytes@.subrange(0, 32)
    }

    /// The public half.
    pub open spec fn public(self) -> Seq<u8> {
        self.bytes@.subrange(32, 64)
    }

    /// The public half is the public key of the secret half.
    pub open spec fn well_formed(self) -> bool {
        self.public() == ed25519_public_key(self.secret())
    }

    /// Derives the keypair of a seed. Only the first 32 bytes of the seed
    /// enter the key; a shorter seed is refused.
    pub fn from_seed(seed: &[u8]) -> (r: Result<KeyPair, WalletError>)
        ensures
            seed@.len() < MIN_SEED_LEN ==> (r matches Err(
                WalletError::SeedDerivation { cause },
            ) && cause@ == seed_refusal()),
            seed@.len() >= MIN_SEED_LEN ==> (r matches Ok(keypair) && keypair.bytes@
                == derived_keypair(seed@) && keypair.public() == ed25519_public_key(
                seed@.subrange(0, 32),
            ) && keypair.well_formed()),
    {
        match keypair_from_seed(seed) {
            Ok(bytes) => {
                assert(bytes@ =~= bytes@.subrange(0, 32) + bytes@.subrange(32, 64));
                Ok(KeyPair { bytes })
            },
            Err(cause) => Err(WalletError::SeedDerivation { cause }),
        }
    }

    /// The address of the keypair: its public half. Bytes whose halves do
    /// not belong together are refused.
    pub fn address(&self) -> (r: Result<Address, WalletError>)
        ensures
            self.well_formed() ==> (r matches Ok(address) && address.bytes@ == self.public()),
            !self.well_formed() ==> (r matches Err(
                WalletError::PublicKeyDerivation { cause },
            ) && cause@ == keypair_refusal(self.bytes@)),
    {
        match keypair_pubkey(&self.bytes) {
            Ok(bytes) => Ok(Address { bytes }),
            Err(cause) => Err(WalletError::PublicKeyDerivation { cause }),
        }
    }

    /// The public half as an address, taken as it stands.
    pub fn public_half(&self) -> (address: Address)
        ensures
            address.bytes@ == self.public(),
    {
        let mut bytes: [u8; 32] = [0; 32];
        let mut index: usize = 0;
        while index < 32
            invariant
                index <= 32,
                forall|j: int| 0 <= j < index ==> bytes@[j] == self.bytes@[32 + j],
            decreases 32 - index,
        {
            bytes[index] = self.bytes[32 + index];
            index = index + 1;
        }
        assert(bytes@ =~= self.public());
        Address { bytes }
    }

    /// The keypair in base58, secret half first.
    pub fn to_base58(&self) -> (text: String)
        ensures
            text@ == base58(self.bytes@),
    {
        encode_base58(self.bytes.as_slice())
    }
}

} // verus!
