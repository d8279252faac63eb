//! Identifiers of programs, accounts and keys, as decoded bytes.

use vstd::prelude::*;

verus! {

/// Number of bytes of a program identifier.
pub const CONTRACT_ID_LENGTH: usize = 32;

/// Number of bytes of a signer's public key.
pub const PUBLIC_KEY_LENGTH: usize = 32;

/// Number of bytes of a signature.
pub const SIGNATURE_LENGTH: usize = 64;

/// Number of bytes of a ledger address.
pub const ADDRESS_LENGTH: usize = 26;

/// A program identifier has exactly 32 bytes.
pub open spec fn is_contract_id(bytes: Seq<u8>) -> bool {
    bytes.len() == 32
}

/// A ledger address has 26 bytes, starts with the version byte 1 and
/// carries the network byte of the main network (86) or the test network
/// (84).
pub open spec fn is_address(bytes: Seq<u8>) -> bool {
    &&& bytes.len() == 26
    &&& bytes[0] == 1
    &&& (bytes[1] == 86 || bytes[1] == 84)
}

/// Whether `contract` is a program identifier.
pub fn validate_contract(contract: &[u8]) -> (ok: bool)
    ensures
        ok == is_contract_id(contract@),
{
    contract.len() == CONTRACT_ID_LENGTH
}

/// Whether `address` is a ledger address.
pub fn validate_address(address: &[u8]) -> (ok: bool)
    ensures
        ok == is_address(address@),
{
    address.len() == ADDRESS_LENGTH && address[0] == 1 && (address[1] == 86 || address[1] == 84)
}

} // verus!
