//! The signature-verified relay executor.
//!
//! A relayed call passes through validation, hashing, the replay check,
//! dispatch and recording, in that order, and any failure reverts it whole.
//! The host computes the hash of the canonical payload and tells whether the
//! signature verifies against the registered key; what to do with those
//! answers is decided here.

use crate::authority::Confirmation;
use crate::error::Error;
use crate::governance::{
    guard_construct_step, pause_step, unpause_step, update_multisig_step, update_pauser_step,
    Guard, GuardState,
};
use crate::identity::{is_contract_id, validate_contract, PUBLIC_KEY_LENGTH, SIGNATURE_LENGTH};
use crate::payload::{arguments_of, split_arguments, RelayCall, RelayCallView};
use crate::text::{bytes_eq, copy_range, views};
use vstd::prelude::*;

verus! {

/// The executor's state as mathematical values.
pub struct ExecutorState {
    /// Authority, pauser and pause flag.
    pub guard: GuardState,
    /// The chain this executor runs on.
    pub chain_id: i64,
    /// The public key of the off-chain signer.
    pub signer_public_key: Seq<u8>,
}

/// What the registry holds: each admitted hash with the block height at
/// which it was admitted.
pub type RegistryState = Seq<(Seq<u8>, i64)>;

/// The registry holds `hash`.
pub open spec fn recorded(registry: RegistryState, hash: Seq<u8>) -> bool {
    exists|i: int| 0 <= i < registry.len() && (#[trigger] registry[i]).0 == hash
}

/// What the host is to invoke after a call was admitted.
pub struct DispatchView {
    /// The destination program.
    pub contract: Seq<u8>,
    /// The function to invoke.
    pub function_name: Seq<u8>,
    /// The arguments, in order.
    pub arguments: Seq<Seq<u8>>,
}

/// Construction: the shared governance first, then a positive chain
/// identifier and a 32-byte signer key.
pub open spec fn executor_construct_step(
    initialized: bool,
    this: Seq<u8>,
    multisig: Seq<u8>,
    pauser: Seq<u8>,
    chain_id: i64,
    signer_public_key: Seq<u8>,
) -> Result<ExecutorState, Error> {
    match guard_construct_step(initialized, this, multisig, pauser) {
        Err(e) => Err(e),
        Ok(guard) => if chain_id <= 0 {
            Err(Error::InvalidChainId)
        } else if signer_public_key.len() != 32 {
            Err(Error::InvalidSignerKey)
        } else {
            Ok(ExecutorState { guard, chain_id, signer_public_key })
        },
    }
}

/// Relaying a call. It is refused while paused, for a destination that is
/// no program identifier, for another chain, for a signature of the wrong
/// length or one that does not verify, and for a payload whose hash the
/// registry holds. Otherwise the hash is recorded with the block height and
/// the call goes out with its arguments split.
pub open spec fn execute_step(
    s: ExecutorState,
    registry: RegistryState,
    call: RelayCallView,
    signature: Seq<u8>,
    hash: Seq<u8>,
    verified: bool,
    height: i64,
) -> Result<(RegistryState, DispatchView), Error> {
    if s.guard.paused {
        Err(Error::Paused)
    } else if !is_contract_id(call.contract) {
        Err(Error::InvalidContract)
    } else if call.execution_chain_id != s.chain_id {
        Err(Error::ChainMismatch)
    } else if signature.len() != 64 {
        Err(Error::InvalidSignatureLength)
    } else if !verified {
        Err(Error::InvalidSignature)
    } else if recorded(registry, hash) {
        Err(Error::DuplicateData)
    } else {
        Ok(
            (
                registry.push((hash, height)),
                DispatchView {
                    contract: call.contract,
                    function_name: call.function_name,
                    arguments: arguments_of(call.function_args),
                },
            ),
        )
    }
}

/// The domain tag of the message by which the old key allows a migration:
/// `<<<PUBLIC-KEY-MIGRATION-ALLOWED>>>`.
pub open spec fn migration_allowed_tag() -> Seq<u8> {
    seq![
        60u8, 60, 60, 80, 85, 66, 76, 73, 67, 45, 75, 69, 89, 45, 77, 73, 71, 82, 65, 84, 73,
        79, 78, 45, 65, 76, 76, 79, 87, 69, 68, 62, 62, 62,
    ]
}

/// The domain tag of the message by which the new key confirms a migration:
/// `<<<PUBLIC-KEY-MIGRATION-CONFIRMED>>>`.
pub open spec fn migration_confirmed_tag() -> Seq<u8> {
    seq![
        60u8, 60, 60, 80, 85, 66, 76, 73, 67, 45, 75, 69, 89, 45, 77, 73, 71, 82, 65, 84, 73,
        79, 78, 45, 67, 79, 78, 70, 73, 82, 77, 69, 68, 62, 62, 62,
    ]
}

/// The message the old key signs to allow the migration to the new key.
pub open spec fn migration_allowed_message(old_key: Seq<u8>, new_key: Seq<u8>) -> Seq<u8> {
    migration_allowed_tag() + old_key + new_key
}

/// The message the new key signs to confirm the migration from the old key.
pub open spec fn migration_confirmed_message(old_key: Seq<u8>, new_key: Seq<u8>) -> Seq<u8> {
    migration_confirmed_tag() + old_key + new_key
}

/// Rotating the signer key. No confirmation of the authority is asked for;
/// instead the old key must have signed the migration-allowed message and
/// the new key the migration-confirmed message. `old_verified` and
/// `new_verified` say whether those signatures verify.
pub open spec fn update_signer_step(
    s: ExecutorState,
    new_signer_public_key: Seq<u8>,
    old_signature: Seq<u8>,
    new_signature: Seq<u8>,
    old_verified: bool,
    new_verified: bool,
) -> Result<ExecutorState, Error> {
    if new_signer_public_key.len() != 32 {
        Err(Error::InvalidSignerKey)
    } else if old_signature.len() != 64 {
        Err(Error::InvalidOldSignatureLength)
    } else if new_signature.len() != 64 {
        Err(Error::InvalidNewSignatureLength)
    } else if !old_verified {
        Err(Error::InvalidOldSignature)
    } else if !new_verified {
        Err(Error::InvalidNewSignature)
    } else {
        Ok(ExecutorState { signer_public_key: new_signer_public_key, ..s })
    }
}

/// One admitted payload.
pub struct Admission {
    /// The hash of the payload's canonical bytes.
    pub hash: Vec<u8>,
    /// The block height at which it was admitted.
    pub height: i64,
}

/// The registry of admitted payloads. Entries are never removed.
pub struct ReplayRegistry {
    /// The admissions, oldest first.
    pub entries: Vec<Admission>,
}

impl View for ReplayRegistry {
    type V = RegistryState;

    open spec fn view(&self) -> RegistryState {
        Seq::new(self.entries@.len(), |i: int| (self.entries@[i].hash@, self.entries@[i].height))
    }
}

impl ReplayRegistry {
    /// A registry without entries.
    pub fn new() -> (r: ReplayRegistry)
        ensures
            r@ == Seq::<(Seq<u8>, i64)>::empty(),
    {
        let r = ReplayRegistry { entries: Vec::new() };
        assert(r@ =~= Seq::<(Seq<u8>, i64)>::empty());
        r
    }

    /// Whether the registry holds `hash`.
    pub fn contains(&self, hash: &[u8]) -> (r: bool)
        ensures
            r == recorded(self@, hash@),
    {
        let mut i: usize = 0;
        while i < self.entries.len()
            invariant
                i <= self.entries.len(),
                forall|j: int| 0 <= j < i ==> (#[trigger] self@[j]).0 != hash@,
            decreases self.entries.len() - i,
        {
            if bytes_eq(self.entries[i].hash.as_slice(), hash) {
                assert(self@[i as int].0 == hash@);
                return true;
            }
            i += 1;
        }
        false
    }

    /// Adds an entry.
    pub fn record(&mut self, hash: Vec<u8>, height: i64)
        ensures
            final(self)@ == old(self)@.push((hash@, height)),
    {
        let ghost before = self@;
        self.entries.push(Admission { hash, height });
        assert(self@ =~= before.push((hash@, height)));
    }
}

/// What the host is to invoke after a call was admitted.
pub struct Dispatch {
    /// The destination program.
    pub contract: Vec<u8>,
    /// The function to invoke.
    pub function_name: Vec<u8>,
    /// The arguments, in order; each is handed to the host on its own.
    pub arguments: Vec<Vec<u8>>,
}

impl View for Dispatch {
    type V = DispatchView;

    open spec fn view(&self) -> DispatchView {
        DispatchView {
            contract: self.contract@,
            function_name: self.function_name@,
            arguments: views(self.arguments@),
        }
    }
}

/// The relay executor.
pub struct Executor {
    /// Authority, pauser and pause flag.
    pub guard: Guard,
    /// The chain this executor runs on.
    pub chain_id: i64,
    /// The public key of the off-chain signer.
    pub signer_public_key: Vec<u8>,
}

impl View for Executor {
    type V = ExecutorState;

    open spec fn view(&self) -> ExecutorState {
        ExecutorState {
            guard: self.guard@,
            chain_id: self.chain_id,
            signer_public_key: self.signer_public_key@,
        }
    }
}

/// The message the old key signs to allow the migration to the new key.
pub fn allowed_message(old_key: &[u8], new_key: &[u8]) -> (message: Vec<u8>)
    ensures
        message@ == migration_allowed_message(old_key@, new_key@),
{
    let mut message: Vec<u8> = vec![
        60u8, 60, 60, 80, 85, 66, 76, 73, 67, 45, 75, 69, 89, 45, 77, 73, 71, 82, 65, 84, 73,
        79, 78, 45, 65, 76, 76, 79, 87, 69, 68, 62, 62, 62,
    ];
    assert(message@ =~= migration_allowed_tag());
    message.extend_from_slice(old_key);
    message.extend_from_slice(new_key);
    message
}

/// The message the new key signs to confirm the migration from the old key.
pub fn confirmed_message(old_key: &[u8], new_key: &[u8]) -> (message: Vec<u8>)
    ensures
        message@ == migration_confirmed_message(old_key@, new_key@),
{
    let mut message: Vec<u8> = vec![
        60u8, 60, 60, 80, 85, 66, 76, 73, 67, 45, 75, 69, 89, 45, 77, 73, 71, 82, 65, 84, 73,
        79, 78, 45, 67, 79, 78, 70, 73, 82, 77, 69, 68, 62, 62, 62,
    ];
    assert(message@ =~= migration_confirmed_tag());
    message.extend_from_slice(old_key);
    message.extend_from_slice(new_key);
    message
}

impl Executor {
    /// Constructs the executor. `initialized` says whether the program was
    /// constructed before; `this` is its own identifier.
    pub fn construct(
        initialized: bool,
        this: Vec<u8>,
        multisig: Vec<u8>,
        pauser: Vec<u8>,
        chain_id: i64,
        signer_public_key: Vec<u8>,
    ) -> (r: Result<Executor, Error>)
        ensures
            match r {
                Ok(x) => executor_construct_step(
                    initialized,
                    this@,
                    multisig@,
                    pauser@,
                    chain_id,
                    signer_public_key@,
                ) == Ok::<ExecutorState, Error>(x@),
                Err(e) => executor_construct_step(
                    initialized,
                    this@,
                    multisig@,
                    pauser@,
                    chain_id,
                    signer_public_key@,
                ) == Err::<ExecutorState, Error>(e),
            },
    {
        let guard = match Guard::construct(initialized, this, multisig, pauser) {
            Ok(g) => g,
            Err(e) => {
                return Err(e);
            },
        };
        if chain_id <= 0 {
            return Err(Error::InvalidChainId);
        }
        if signer_public_key.len() != PUBLIC_KEY_LENGTH {
            return Err(Error::InvalidSignerKey);
        }
        Ok(Executor { guard, chain_id, signer_public_key })
    }

    /// Relays a call. `hash` is the host's hash of the call's canonical
    /// payload, `verified` the host's verdict on `signature` against that
    /// hash and the registered signer key, and `height` the current block
    /// height. On success the hash is recorded and the call to dispatch is
    /// returned; on failure nothing changes.
    pub fn execute(
        &self,
        registry: &mut ReplayRegistry,
        call: &RelayCall,
        signature: &[u8],
        hash: &[u8],
        verified: bool,
        height: i64,
    ) -> (r: Result<Dispatch, Error>)
        ensures
            match execute_step(self@, old(registry)@, call@, signature@, hash@, verified, height) {
                Ok((after, dispatch)) => {
                    &&& final(registry)@ == after
                    &&& r is Ok
                    &&& r->Ok_0@ == dispatch
                },
                Err(e) => {
                    &&& final(registry)@ == old(registry)@
                    &&& r is Err
                    &&& r->Err_0 == e
                },
            },
    {
        if self.guard.paused {
            return Err(Error::Paused);
        }
        if !validate_contract(call.contract.as_slice()) {
            return Err(Error::InvalidContract);
        }
        if call.execution_chain_id != self.chain_id {
            return Err(Error::ChainMismatch);
        }
        if signature.len() != SIGNATURE_LENGTH {
            return Err(Error::InvalidSignatureLength);
        }
        if !verified {
            return Err(Error::InvalidSignature);
        }
        if registry.contains(hash) {
            return Err(Error::DuplicateData);
        }
        let arguments = split_arguments(call.function_args.as_slice());
        let contract = copy_range(call.contract.as_slice(), 0, call.contract.len());
        let function_name = copy_range(call.function_name.as_slice(), 0, call.function_name.len());
        let admitted = copy_range(hash, 0, hash.len());
        assert(contract@ =~= call.contract@);
        assert(function_name@ =~= call.function_name@);
        assert(admitted@ =~= hash@);
        registry.record(admitted, height);
        Ok(Dispatch { contract, function_name, arguments })
    }

    /// Rotates the signer key. `old_verified` is the host's verdict on
    /// `old_signature` against the migration-allowed message and the present
    /// key, `new_verified` its verdict on `new_signature` against the
    /// migration-confirmed message and the new key.
    pub fn update_signer(
        &mut self,
        new_signer_public_key: Vec<u8>,
        old_signature: &[u8],
        new_signature: &[u8],
        old_verified: bool,
        new_verified: bool,
    ) -> (r: Result<(), Error>)
        ensures
            match update_signer_step(
                old(self)@,
                new_signer_public_key@,
                old_signature@,
                new_signature@,
                old_verified,
                new_verified,
            ) {
                Ok(s) => r is Ok && final(self)@ == s,
                Err(e) => r == Err::<(), Error>(e) && final(self)@ == old(self)@,
            },
    {
        if new_signer_public_key.len() != PUBLIC_KEY_LENGTH {
            return Err(Error::InvalidSignerKey);
        }
        if old_signature.len() != SIGNATURE_LENGTH {
            return Err(Error::InvalidOldSignatureLength);
        }
        if new_signature.len() != SIGNATURE_LENGTH {
            return Err(Error::InvalidNewSignatureLength);
        }
        if !old_verified {
            return Err(Error::InvalidOldSignature);
        }
        if !new_verified {
            return Err(Error::InvalidNewSignature);
        }
        self.signer_public_key = new_signer_public_key;
        Ok(())
    }

    /// Halts the executor; see [`Guard::pause`].
    pub fn pause(&mut self, sender: &[u8], caller: &[u8]) -> (r: Result<(), Error>)
        ensures
            match pause_step(old(self)@.guard, sender@, caller@) {
                Ok(g) => r is Ok && final(self)@ == (ExecutorState { guard: g, ..old(self)@ }),
                Err(e) => r == Err::<(), Error>(e) && final(self)@ == old(self)@,
            },
    {
        self.guard.pause(sender, caller)
    }

    /// Resumes the executor; see [`Guard::unpause`].
    pub fn unpause(&mut self, sender: &[u8], caller: &[u8]) -> (r: Result<(), Error>)
        ensures
            match unpause_step(old(self)@.guard, sender@, caller@) {
                Ok(g) => r is Ok && final(self)@ == (ExecutorState { guard: g, ..old(self)@ }),
                Err(e) => r == Err::<(), Error>(e) && final(self)@ == old(self)@,
            },
    {
        self.guard.unpause(sender, caller)
    }

    /// Replaces the pauser; see [`Guard::update_pauser`].
    pub fn update_pauser(
        &mut self,
        confirmation: &Confirmation,
        tx_id: &[u8],
        new_pauser: Vec<u8>,
    ) -> (r: Result<(), Error>)
        ensures
            match update_pauser_step(
                old(self)@.guard,
                old(self).guard.admits(confirmation, tx_id@),
                new_pauser@,
            ) {
                Ok(g) => r is Ok && final(self)@ == (ExecutorState { guard: g, ..old(self)@ }),
                Err(e) => r == Err::<(), Error>(e) && final(self)@ == old(self)@,
            },
    {
        self.guard.update_pauser(confirmation, tx_id, new_pauser)
    }

    /// Replaces the authority; see [`Guard::update_multisig`].
    pub fn update_multisig(
        &mut self,
        confirmation: &Confirmation,
        tx_id: &[u8],
        new_multisig: Vec<u8>,
    ) -> (r: Result<(), Error>)
        ensures
            match update_multisig_step(
                old(self)@.guard,
                old(self).guard.admits(confirmation, tx_id@),
                new_multisig@,
            ) {
                Ok(g) => r is Ok && final(self)@ == (ExecutorState { guard: g, ..old(self)@ }),
                Err(e) => r == Err::<(), Error>(e) && final(self)@ == old(self)@,
            },
    {
        self.guard.update_multisig(confirmation, tx_id, new_multisig)
    }
}

} // verus!
