//! Account addresses and block hashes as the 32 bytes they are on the wire.

use solana_pubkey::Pubkey;
use std::str::FromStr;
use vstd::prelude::*;

verus! {

/// The address of an account: a public key of 32 bytes.
#[derive(Clone, Copy, Debug, PartialEq, Eq, Hash)]
pub struct Address(pub [u8; 32]);

/// The hash of a recent block, which dates a transaction.
#[derive(Clone, Copy, Debug, PartialEq, Eq, Hash)]
pub struct Blockhash(pub [u8; 32]);

impl View for Address {
    type V = Seq<u8>;

    open spec fn view(&self) -> Seq<u8> {
        self.0@
    }
}

impl View for Blockhash {
    type V = Seq<u8>;

    open spec fn view(&self) -> Seq<u8> {
        self.0@
    }
}

/// The address that a base58 text stands for, where it stands for one.
pub uninterp spec fn base58_address(text: Seq<char>) -> Option<Address>;

/// Decodes a base58 address with `<solana_pubkey::Pubkey as FromStr>::from_str`.
/// The text is rejected unless it decodes to exactly 32 bytes; the result is a
/// function of the text alone, which `base58_address` names.
#[verifier::external_body]
fn pubkey_from_str(text: &str) -> (r: Option<Address>)
    ensures
        r == base58_address(text@),
{
    Pubkey::from_str(text).ok().map(|key| Address(key.to_bytes()))
}

impl Address {
    /// Reads an address from its base58 text.
    pub fn from_base58(text: &str) -> (r: Option<Address>)
        ensures
            r == base58_address(text@),
    {
        pubkey_from_str(text)
    }

    /// The 32 bytes of the address.
    pub fn to_bytes(&self) -> (bytes: [u8; 32])
        ensures
            bytes == self.0,
    {
        self.0
    }
}

} // verus!
