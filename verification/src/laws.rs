//! What holds of the three engines on every input.

use crate::book::{entry, lemma_slot_from, put, slot};
use crate::emitter::{allowance_step, call_step, EmitterState, EventView, OutboundCallView};
use crate::error::Error;
use crate::executor::{
    execute_step, migration_allowed_message, migration_confirmed_message, recorded,
    update_signer_step, DispatchView, ExecutorState, RegistryState,
};
use crate::governance::{
    pause_step, unpause_step, update_multisig_step, update_pauser_step, GuardState,
};
use crate::identity::is_contract_id;
use crate::keys::separator;
use crate::members::{
    distinct, lemma_position_contains, lemma_push_distinct, lemma_remove_distinct, list_of_text,
    position, text_of_list,
};
use crate::multisig::{
    add_owner_step, initialize_step, lemma_owners_error, remove_owner_step, set_quorum_step,
    MultisigState,
};
use crate::payload::{canonical_payload, RelayCallView};
use crate::record::{confirm_step, revoke_step, RecordState};
use crate::text::{free_of, join, lemma_join_front, lemma_split_join};
use vstd::prelude::*;

verus! {

/// Construction succeeds exactly when every owner is a program identifier,
/// no owner occurs twice, and the quorum lies between one and the number of
/// owners. The engine it yields is well-formed.
pub proof fn law_initialize(this: Seq<u8>, owners: Seq<Seq<u8>>, quorum: i64)
    ensures
        initialize_step(false, this, owners, quorum) is Ok <==> {
            &&& distinct(owners)
            &&& forall|i: int| 0 <= i < owners.len() ==> is_contract_id(#[trigger] owners[i])
            &&& 1 <= quorum <= owners.len()
        },
        initialize_step(false, this, owners, quorum) matches Ok(s) ==> s.wf() && s.owners == owners
            && s.quorum == quorum,
{
    lemma_owners_error(owners);
}

/// A record's status says whether its confirmers have reached the quorum.
pub open spec fn status_tracks_quorum(s: MultisigState, rec: RecordState) -> bool {
    rec.status <==> rec.confirmers.len() >= s.quorum
}

/// The status of a pair is true exactly when its confirmers have reached the
/// quorum: a record for which this holds keeps it through every accepted
/// confirmation and revocation. So the status turns true with the
/// confirmation that reaches the quorum, and not before.
pub proof fn law_status_follows_quorum(
    s: MultisigState,
    rec: RecordState,
    sender_public_key: Seq<u8>,
    caller: Seq<u8>,
)
    requires
        status_tracks_quorum(s, rec),
        distinct(rec.confirmers),
    ensures
        confirm_step(s, rec, sender_public_key, caller) matches Ok(after) ==> {
            &&& status_tracks_quorum(s, after)
            &&& after.confirmers.len() == rec.confirmers.len() + 1
            &&& !rec.status
        },
        revoke_step(s, rec, sender_public_key, caller) matches Ok(after) ==> {
            &&& status_tracks_quorum(s, after)
            &&& after.confirmers.len() == rec.confirmers.len() - 1
            &&& !after.status
        },
{
    lemma_position_contains(rec.confirmers, sender_public_key);
}

/// A fully confirmed pair is final: nothing more is confirmed for it and
/// nothing is revoked from it.
pub proof fn law_confirmed_is_final(
    s: MultisigState,
    rec: RecordState,
    sender_public_key: Seq<u8>,
    caller: Seq<u8>,
)
    requires
        rec.status,
    ensures
        confirm_step(s, rec, sender_public_key, caller) is Err,
        revoke_step(s, rec, sender_public_key, caller) is Err,
{
}

/// The canonical bytes of a call depend on nothing but the destination, the
/// function name, the arguments, the two chain identifiers, the nonce and
/// the source transaction.
pub proof fn law_payload_is_canonical(a: RelayCallView, b: RelayCallView)
    requires
        a.contract == b.contract,
        a.function_name == b.function_name,
        a.function_args == b.function_args,
        a.caller_chain_id == b.caller_chain_id,
        a.execution_chain_id == b.execution_chain_id,
        a.nonce == b.nonce,
        a.tx_hash == b.tx_hash,
    ensures
        canonical_payload(a) == canonical_payload(b),
{
}

/// A payload is relayed at most once: after a call was admitted under a
/// hash, every later submission under that hash fails, whatever else it
/// holds, and it fails as a replay where nothing else is wrong with it.
pub proof fn law_no_replay(
    s: ExecutorState,
    registry: RegistryState,
    call: RelayCallView,
    signature: Seq<u8>,
    hash: Seq<u8>,
    verified: bool,
    height: i64,
    later: ExecutorState,
    again: RelayCallView,
    again_signature: Seq<u8>,
    again_verified: bool,
    again_height: i64,
)
    requires
        execute_step(s, registry, call, signature, hash, verified, height) is Ok,
    ensures
        ({
            let after = execute_step(s, registry, call, signature, hash, verified, height)->Ok_0.0;
            let second = execute_step(
                later,
                after,
                again,
                again_signature,
                hash,
                again_verified,
                again_height,
            );
            &&& recorded(after, hash)
            &&& second is Err
            &&& (!later.guard.paused && is_contract_id(again.contract) && again.execution_chain_id
                == later.chain_id && again_signature.len() == 64 && again_verified) ==> second
                == Err::<(RegistryState, DispatchView), Error>(
                Error::DuplicateData,
            )
        }),
{
    let after = registry.push((hash, height));
    assert(after[registry.len() as int].0 == hash);
}

/// The registry only grows: what it holds it holds after every admission.
pub proof fn law_registry_keeps_entries(
    registry: RegistryState,
    hash: Seq<u8>,
    added: Seq<u8>,
    height: i64,
)
    requires
        recorded(registry, hash),
    ensures
        recorded(registry.push((added, height)), hash),
{
    let i = choose|i: int| 0 <= i < registry.len() && (#[trigger] registry[i]).0 == hash;
    assert(registry.push((added, height))[i].0 == hash);
}

/// The signer key rotates exactly when the new key has 32 bytes, both
/// signatures have 64 bytes, and both verify: the old key's over the
/// migration-allowed message and the new key's over the migration-confirmed
/// message. Neither party can rotate the key alone.
pub proof fn law_update_signer(
    s: ExecutorState,
    new_signer_public_key: Seq<u8>,
    old_signature: Seq<u8>,
    new_signature: Seq<u8>,
    old_verified: bool,
    new_verified: bool,
)
    ensures
        update_signer_step(
            s,
            new_signer_public_key,
            old_signature,
            new_signature,
            old_verified,
            new_verified,
        ) is Ok <==> {
            &&& new_signer_public_key.len() == 32
            &&& old_signature.len() == 64
            &&& new_signature.len() == 64
            &&& old_verified
            &&& new_verified
        },
{
}

/// The two migration messages are separated by their domain tags: whatever
/// the keys, a migration-allowed message is never a migration-confirmed
/// message. A signature over one is therefore no signature over the other.
pub proof fn law_migration_domains_differ(
    old_key: Seq<u8>,
    new_key: Seq<u8>,
    other_old_key: Seq<u8>,
    other_new_key: Seq<u8>,
)
    ensures
        migration_allowed_message(old_key, new_key) != migration_confirmed_message(
            other_old_key,
            other_new_key,
        ),
{
    let a = migration_allowed_message(old_key, new_key);
    let c = migration_confirmed_message(other_old_key, other_new_key);
    assert(a[24] == 65u8);
    assert(c[24] == 67u8);
}

/// Removing an owner: the last owner cannot be removed; otherwise the
/// removal succeeds, the owner is gone, and the quorum is what it was
/// unless the smaller set cannot reach it, in which case it is the set's
/// new size.
pub proof fn law_remove_owner(s: MultisigState, old_owner: Seq<u8>)
    requires
        s.wf(),
        s.owners.contains(old_owner),
    ensures
        s.owners.len() == 1 ==> remove_owner_step(s, true, old_owner) == Err::<
            MultisigState,
            Error,
        >(Error::LastOwner),
        s.owners.len() > 1 ==> (remove_owner_step(s, true, old_owner) matches Ok(after) && {
            &&& after.wf()
            &&& after.owners.len() == s.owners.len() - 1
            &&& !after.owners.contains(old_owner)
            &&& s.quorum <= after.owners.len() ==> after.quorum == s.quorum
            &&& s.quorum > after.owners.len() ==> after.quorum == after.owners.len()
        }),
{
    lemma_position_contains(s.owners, old_owner);
    let at = position(s.owners, old_owner);
    let i = choose|i: int| 0 <= i < s.owners.len() && s.owners[i] == old_owner;
    assert(is_contract_id(s.owners[i]));
    if s.owners.len() > 1 {
        lemma_remove_distinct(s.owners, at);
        let after = s.owners.remove(at);
        assert forall|k: int| 0 <= k < after.len() implies is_contract_id(#[trigger] after[k]) by {
            let a = if k < at { k } else { k + 1 };
            assert(after[k] == s.owners[a]);
        }
    }
}

/// Pausing and unpausing alternate: a paused program cannot be paused
/// again, and unpausing brings back the state before the pause.
pub proof fn law_pause_alternates(s: GuardState, sender: Seq<u8>, caller: Seq<u8>)
    requires
        pause_step(s, sender, caller) is Ok,
    ensures
        ({
            let halted = pause_step(s, sender, caller)->Ok_0;
            &&& halted.paused
            &&& pause_step(halted, sender, caller) == Err::<GuardState, Error>(Error::Paused)
            &&& unpause_step(halted, sender, caller) == Ok::<GuardState, Error>(s)
            &&& unpause_step(s, sender, caller) == Err::<GuardState, Error>(Error::NotPaused)
        }),
{
}

/// While a program is paused it relays nothing and emits nothing.
pub proof fn law_paused_refuses(
    executor: ExecutorState,
    registry: RegistryState,
    relayed: RelayCallView,
    signature: Seq<u8>,
    hash: Seq<u8>,
    verified: bool,
    emitter: EmitterState,
    allowed: bool,
    outbound: OutboundCallView,
    tx_id: Seq<u8>,
    height: i64,
)
    ensures
        executor.guard.paused ==> execute_step(
            executor,
            registry,
            relayed,
            signature,
            hash,
            verified,
            height,
        ) == Err::<(RegistryState, DispatchView), Error>(Error::Paused),
        emitter.guard.paused ==> call_step(emitter, allowed, outbound, tx_id, height) is Err,
        emitter.guard.paused && outbound.caller.len() > 0 && allowed ==> call_step(
            emitter,
            allowed,
            outbound,
            tx_id,
            height,
        ) == Err::<(EmitterState, EventView), Error>(Error::Paused),
{
}

/// The owner set's invariant holds after every accepted change of the
/// owners or the quorum.
pub proof fn law_owner_set_stays_valid(
    s: MultisigState,
    authorized: bool,
    owner: Seq<u8>,
    quorum: i64,
)
    requires
        s.wf(),
    ensures
        add_owner_step(s, authorized, owner) matches Ok(after) ==> after.wf(),
        remove_owner_step(s, authorized, owner) matches Ok(after) ==> after.wf(),
        set_quorum_step(s, authorized, quorum) matches Ok(after) ==> after.wf(),
{
    if add_owner_step(s, authorized, owner) is Ok {
        lemma_push_distinct(s.owners, owner);
    }
    if remove_owner_step(s, authorized, owner) is Ok {
        law_remove_owner(s, owner);
    }
}

/// No privileged action proceeds without the authority's confirmation.
pub proof fn law_unconfirmed_is_refused(
    engine: MultisigState,
    guard: GuardState,
    value: Seq<u8>,
    quorum: i64,
    allowed: bool,
)
    ensures
        add_owner_step(engine, false, value) == Err::<MultisigState, Error>(Error::NotConfirmed),
        remove_owner_step(engine, false, value) == Err::<MultisigState, Error>(
            Error::NotConfirmed,
        ),
        set_quorum_step(engine, false, quorum) == Err::<MultisigState, Error>(Error::NotConfirmed),
        update_pauser_step(guard, false, value) == Err::<GuardState, Error>(Error::NotConfirmed),
        update_multisig_step(guard, false, value) == Err::<GuardState, Error>(Error::NotConfirmed),
        allowance_step(false, value, allowed) == Err::<bool, Error>(Error::NotConfirmed),
{
}

/// The event log is numbered without gaps: an emitted event takes the
/// counter's value as its index and the nonce's value as its nonce, both
/// grow by one, and nothing else changes.
pub proof fn law_events_are_numbered(
    s: EmitterState,
    allowed: bool,
    call: OutboundCallView,
    tx_id: Seq<u8>,
    height: i64,
)
    ensures
        call_step(s, allowed, call, tx_id, height) matches Ok((after, event)) ==> {
            &&& event.index == s.event_size
            &&& after.event_size == s.event_size + 1
            &&& after.nonce == s.nonce + 1
            &&& after.guard == s.guard
            &&& after.call_chain_id == s.call_chain_id
        },
{
}

/// A list is read back from its stored text as it was written, where no
/// member holds an underscore and a single member is not empty.
pub proof fn law_stored_list_round_trip(list: Seq<Seq<u8>>)
    requires
        forall|i: int| 0 <= i < list.len() ==> free_of(#[trigger] list[i], 95u8),
        list.len() == 1 ==> list[0].len() > 0,
    ensures
        list_of_text(text_of_list(list)) == list,
{
    if list.len() == 0 {
        assert(list =~= Seq::<Seq<u8>>::empty());
    } else {
        if list.len() >= 2 {
            let rest = list.skip(1);
            assert(list =~= seq![list[0]] + rest);
            lemma_join_front(list[0], rest, separator());
        }
        assert(join(list, separator()).len() > 0);
        lemma_split_join(list, separator());
    }
}

/// A confirmation or revocation touches one pair only: after a record was
/// put into the book, the book says of the record's pair what was put, and
/// of every other pair what it said before.
pub proof fn law_put_changes_one_pair(
    records: Seq<RecordState>,
    rec: RecordState,
    program: Seq<u8>,
    action: Seq<u8>,
)
    ensures
        entry(put(records, rec), rec.program, rec.action) == rec,
        !(program == rec.program && action == rec.action) ==> entry(
            put(records, rec),
            program,
            action,
        ) == entry(records, program, action),
{
    let after = put(records, rec);
    let i = slot(records, rec.program, rec.action);
    lemma_slot_from(records, rec.program, rec.action, 0);
    lemma_slot_from(after, rec.program, rec.action, 0);
    lemma_slot_from(records, program, action, 0);
    lemma_slot_from(after, program, action, 0);
    if i < 0 {
        assert(after[records.len() as int] == rec);
        assert forall|j: int| 0 <= j < records.len() implies after[j] == records[j] by {}
    } else {
        assert(after[i] == rec);
        assert forall|j: int| 0 <= j < records.len() && j != i implies after[j] == records[j] by {}
    }
}

} // verus!
