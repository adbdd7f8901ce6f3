//! Account and contract addresses: twenty bytes.

use vstd::prelude::*;
use std::str::FromStr;
use web3::types::H160;

verus! {

/// The address that a text in hexadecimal notation stands for, as
/// `H160::from_str` reads it, or nothing where the text is no address.
pub uninterp spec fn hex_address(text: Seq<char>) -> Option<Seq<u8>>;

/// A twenty-byte identifier of an account or a contract. Its view is the
/// sequence of its bytes.
#[derive(Clone, Copy, Debug, PartialEq, Eq)]
pub struct Address {
    bytes: [u8; 20],
}

impl View for Address {
    type V = Seq<u8>;

    closed spec fn view(&self) -> Seq<u8> {
        self.bytes@
    }
}

/// `H160::from_str`: reads an address in hexadecimal notation, with or
/// without a leading `0x`. The outcome depends on the text alone.
#[verifier::external_body]
pub(crate) fn h160_from_str(text: &str) -> (r: Option<Address>)
    ensures
        match r {
            Some(a) => hex_address(text@) == Some(a@),
            None => hex_address(text@) is None,
        },
{
    match H160::from_str(text) {
        Ok(h) => Some(Address { bytes: h.0 }),
        Err(_) => None,
    }
}

impl Address {
    /// The address made of these twenty bytes.
    pub fn from_bytes(bytes: [u8; 20]) -> (r: Address)
        ensures
            r@ == bytes@,
    {
        Address { bytes }
    }

    /// The twenty bytes of the address.
    pub fn to_bytes(&self) -> (r: [u8; 20])
        ensures
            r@ == self@,
    {
        self.bytes
    }
}

} // verus!
