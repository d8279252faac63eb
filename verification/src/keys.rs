//! Storage key names and composite keys.
//!
//! Every program keeps its state in a flat store keyed by text. A composite
//! key is its segments joined by a two-character separator; the confirmation
//! status of an action is always found under `STATUS`, the acting program and
//! the action's identifier.

use crate::encoding::{decimal, to_decimal};
use crate::text::{copy_range, join, join_bytes, views};
use vstd::prelude::*;

verus! {

/// The well-known first segment of a key.
#[derive(Clone, Copy, Debug, PartialEq, Eq)]
pub enum KeyName {
    /// `INIT`
    Init,
    /// `THIS`
    This,
    /// `MULTISIG`
    Multisig,
    /// `STATUS`
    Status,
    /// `PAUSED`
    Paused,
    /// `PAUSER`
    Pauser,
    /// `CHAIN_ID`
    ChainId,
    /// `SIGNER_PUBLIC_KEY`
    SignerPublicKey,
    /// `DATA_HASH`
    DataHash,
    /// `ALLOWANCE`
    Allowance,
    /// `CALL_CHAIN_ID`
    CallChainId,
    /// `EVENT`
    Event,
    /// `EVENT_SIZE`
    EventSize,
    /// `NONCE`
    Nonce,
    /// `QUORUM`
    Quorum,
    /// `PUBLIC_KEYS`
    PublicKeys,
    /// `CONFIRM`
    Confirm,
}

impl KeyName {
    /// The ASCII text of the name.
    pub open spec fn text(self) -> Seq<u8> {
        match self {
            KeyName::Init => seq![73u8, 78, 73, 84],
            KeyName::This => seq![84u8, 72, 73, 83],
            KeyName::Multisig => seq![77u8, 85, 76, 84, 73, 83, 73, 71],
            KeyName::Status => seq![83u8, 84, 65, 84, 85, 83],
            KeyName::Paused => seq![80u8, 65, 85, 83, 69, 68],
            KeyName::Pauser => seq![80u8, 65, 85, 83, 69, 82],
            KeyName::ChainId => seq![67u8, 72, 65, 73, 78, 95, 73, 68],
            KeyName::SignerPublicKey => seq![
                83u8, 73, 71, 78, 69, 82, 95, 80, 85, 66, 76, 73, 67, 95, 75, 69, 89,
            ],
            KeyName::DataHash => seq![68u8, 65, 84, 65, 95, 72, 65, 83, 72],
            KeyName::Allowance => seq![65u8, 76, 76, 79, 87, 65, 78, 67, 69],
            KeyName::CallChainId => seq![67u8, 65, 76, 76, 95, 67, 72, 65, 73, 78, 95, 73, 68],
            KeyName::Event => seq![69u8, 86, 69, 78, 84],
            KeyName::EventSize => seq![69u8, 86, 69, 78, 84, 95, 83, 73, 90, 69],
            KeyName::Nonce => seq![78u8, 79, 78, 67, 69],
            KeyName::Quorum => seq![81u8, 85, 79, 82, 85, 77],
            KeyName::PublicKeys => seq![80u8, 85, 66, 76, 73, 67, 95, 75, 69, 89, 83],
            KeyName::Confirm => seq![67u8, 79, 78, 70, 73, 82, 77],
        }
    }

    /// The ASCII text of the name.
    pub fn bytes(&self) -> (v: Vec<u8>)
        ensures
            v@ == self.text(),
    {
        let v: Vec<u8> = match self {
            KeyName::Init => vec![73u8, 78, 73, 84],
            KeyName::This => vec![84u8, 72, 73, 83],
            KeyName::Multisig => vec![77u8, 85, 76, 84, 73, 83, 73, 71],
            KeyName::Status => vec![83u8, 84, 65, 84, 85, 83],
            KeyName::Paused => vec![80u8, 65, 85, 83, 69, 68],
            KeyName::Pauser => vec![80u8, 65, 85, 83, 69, 82],
            KeyName::ChainId => vec![67u8, 72, 65, 73, 78, 95, 73, 68],
            KeyName::SignerPublicKey => vec![
                83u8, 73, 71, 78, 69, 82, 95, 80, 85, 66, 76, 73, 67, 95, 75, 69, 89,
            ],
            KeyName::DataHash => vec![68u8, 65, 84, 65, 95, 72, 65, 83, 72],
            KeyName::Allowance => vec![65u8, 76, 76, 79, 87, 65, 78, 67, 69],
            KeyName::CallChainId => vec![67u8, 65, 76, 76, 95, 67, 72, 65, 73, 78, 95, 73, 68],
            KeyName::Event => vec![69u8, 86, 69, 78, 84],
            KeyName::EventSize => vec![69u8, 86, 69, 78, 84, 95, 83, 73, 90, 69],
            KeyName::Nonce => vec![78u8, 79, 78, 67, 69],
            KeyName::Quorum => vec![81u8, 85, 79, 82, 85, 77],
            KeyName::PublicKeys => vec![80u8, 85, 66, 76, 73, 67, 95, 75, 69, 89, 83],
            KeyName::Confirm => vec![67u8, 79, 78, 70, 73, 82, 77],
        };
        assert(v@ =~= self.text());
        v
    }
}

/// The separator between the segments of a key or record: `__`.
pub open spec fn separator() -> Seq<u8> {
    seq![95u8, 95]
}

/// The separator between the arguments of a relayed call: `####`.
pub open spec fn argument_separator() -> Seq<u8> {
    seq![35u8, 35, 35, 35]
}

/// The separator between the segments of a key or record: `__`.
pub fn separator_bytes() -> (v: Vec<u8>)
    ensures
        v@ == separator(),
{
    let v: Vec<u8> = vec![95u8, 95];
    assert(v@ =~= separator());
    v
}

/// The separator between the arguments of a relayed call: `####`.
pub fn argument_separator_bytes() -> (v: Vec<u8>)
    ensures
        v@ == argument_separator(),
{
    let v: Vec<u8> = vec![35u8, 35, 35, 35];
    assert(v@ =~= argument_separator());
    v
}

/// The key made of a name and one further segment.
pub open spec fn key2(name: KeyName, a: Seq<u8>) -> Seq<u8> {
    join(seq![name.text(), a], separator())
}

/// The key made of a name and two further segments.
pub open spec fn key3(name: KeyName, a: Seq<u8>, b: Seq<u8>) -> Seq<u8> {
    join(seq![name.text(), a, b], separator())
}

/// Builds the key made of a name and one further segment.
pub fn compose2(name: KeyName, a: &[u8]) -> (key: Vec<u8>)
    ensures
        key@ == key2(name, a@),
{
    let mut parts: Vec<Vec<u8>> = Vec::new();
    parts.push(name.bytes());
    parts.push(copy_range(a, 0, a.len()));
    let sep = separator_bytes();
    assert(a@.subrange(0, a@.len() as int) =~= a@);
    assert(views(parts@) =~= seq![name.text(), a@]);
    join_bytes(&parts, sep.as_slice())
}

/// Builds the key made of a name and two further segments.
pub fn compose3(name: KeyName, a: &[u8], b: &[u8]) -> (key: Vec<u8>)
    ensures
        key@ == key3(name, a@, b@),
{
    let mut parts: Vec<Vec<u8>> = Vec::new();
    parts.push(name.bytes());
    parts.push(copy_range(a, 0, a.len()));
    parts.push(copy_range(b, 0, b.len()));
    let sep = separator_bytes();
    assert(a@.subrange(0, a@.len() as int) =~= a@);
    assert(b@.subrange(0, b@.len() as int) =~= b@);
    assert(views(parts@) =~= seq![name.text(), a@, b@]);
    join_bytes(&parts, sep.as_slice())
}

/// The key under which an authority keeps the confirmation status of the
/// action `action_id` of the program `program`: `STATUS__<program>__<action>`.
pub fn status_key(program: &[u8], action_id: &[u8]) -> (key: Vec<u8>)
    ensures
        key@ == key3(KeyName::Status, program@, action_id@),
{
    compose3(KeyName::Status, program, action_id)
}

/// The key of the confirmer list of an action: `CONFIRM__<program>__<action>`.
pub fn confirmations_key(program: &[u8], action_id: &[u8]) -> (key: Vec<u8>)
    ensures
        key@ == key3(KeyName::Confirm, program@, action_id@),
{
    compose3(KeyName::Confirm, program, action_id)
}

/// The key of a relayed payload's hash in the replay registry:
/// `DATA_HASH__<hash>`.
pub fn data_hash_key(hash_text: &[u8]) -> (key: Vec<u8>)
    ensures
        key@ == key2(KeyName::DataHash, hash_text@),
{
    compose2(KeyName::DataHash, hash_text)
}

/// The key of a caller's allowance: `ALLOWANCE__<caller>`.
pub fn allowance_key(caller: &[u8]) -> (key: Vec<u8>)
    ensures
        key@ == key2(KeyName::Allowance, caller@),
{
    compose2(KeyName::Allowance, caller)
}

/// The key of the event with the given index: `EVENT__<index>`.
pub fn event_key(index: i64) -> (key: Vec<u8>)
    ensures
        key@ == key2(KeyName::Event, decimal(index)),
{
    let digits = to_decimal(index);
    compose2(KeyName::Event, digits.as_slice())
}

} // verus!
