//! Confirmation records: who has confirmed an action, and whether the
//! quorum was reached.

use crate::authority::Confirmation;
use crate::error::Error;
use crate::identity::{is_contract_id, validate_contract};
use crate::members::{
    all_distinct, distinct, find_member, is_member, lemma_position_contains, lemma_push_distinct,
    lemma_remove_distinct, position,
};
use crate::multisig::{Multisig, MultisigState};
use crate::text::{copy_range, views};
use vstd::prelude::*;

verus! {

/// A confirmation record as mathematical values.
pub struct RecordState {
    /// The program whose action is confirmed.
    pub program: Seq<u8>,
    /// The identifier of the action.
    pub action: Seq<u8>,
    /// The owners that have confirmed, in the order in which they did.
    pub confirmers: Seq<Seq<u8>>,
    /// Whether the confirmers have reached the quorum.
    pub status: bool,
}

/// Confirming: only a transaction's own sender may confirm, for a valid
/// pair, as an owner, once, and only while the pair is not fully confirmed.
/// The status becomes true when the confirmers reach the quorum.
pub open spec fn confirm_step(
    s: MultisigState,
    rec: RecordState,
    sender_public_key: Seq<u8>,
    caller: Seq<u8>,
) -> Result<RecordState, Error> {
    if caller.len() != 0 {
        Err(Error::RelayedCall)
    } else if !is_contract_id(rec.program) {
        Err(Error::InvalidTarget)
    } else if !is_contract_id(rec.action) {
        Err(Error::InvalidTransactionId)
    } else if !s.owners.contains(sender_public_key) {
        Err(Error::NotOwner)
    } else if rec.confirmers.contains(sender_public_key) {
        Err(Error::AlreadyConfirmedByCaller)
    } else if rec.status {
        Err(Error::AlreadyConfirmed)
    } else {
        Ok(
            RecordState {
                confirmers: rec.confirmers.push(sender_public_key),
                status: rec.confirmers.len() + 1 >= s.quorum,
                ..rec
            },
        )
    }
}

/// Revoking: the mirror of confirming. A fully confirmed pair is final, so
/// nothing can be revoked from it.
pub open spec fn revoke_step(
    s: MultisigState,
    rec: RecordState,
    sender_public_key: Seq<u8>,
    caller: Seq<u8>,
) -> Result<RecordState, Error> {
    if caller.len() != 0 {
        Err(Error::RelayedCall)
    } else if !is_contract_id(rec.program) {
        Err(Error::InvalidTarget)
    } else if !is_contract_id(rec.action) {
        Err(Error::InvalidTransactionId)
    } else if !s.owners.contains(sender_public_key) {
        Err(Error::NotOwner)
    } else if !rec.confirmers.contains(sender_public_key) {
        Err(Error::NotConfirmedByCaller)
    } else if rec.status {
        Err(Error::AlreadyConfirmed)
    } else {
        Ok(
            RecordState {
                confirmers: rec.confirmers.remove(position(rec.confirmers, sender_public_key)),
                ..rec
            },
        )
    }
}

/// The record of one pair of a target program and an action.
pub struct ConfirmationRecord {
    /// The program whose action is confirmed.
    pub program: Vec<u8>,
    /// The identifier of the action.
    pub action: Vec<u8>,
    /// The owners that have confirmed, in the order in which they did.
    pub confirmers: Vec<Vec<u8>>,
    /// Whether the confirmers have reached the quorum.
    pub status: bool,
}

impl View for ConfirmationRecord {
    type V = RecordState;

    open spec fn view(&self) -> RecordState {
        RecordState {
            program: self.program@,
            action: self.action@,
            confirmers: views(self.confirmers@),
            status: self.status,
        }
    }
}

impl ConfirmationRecord {
    /// No owner is recorded twice.
    pub open spec fn wf(&self) -> bool {
        distinct(self@.confirmers)
    }

    /// The record of a pair that nobody has confirmed yet.
    pub fn new(program: Vec<u8>, action: Vec<u8>) -> (rec: ConfirmationRecord)
        ensures
            rec.wf(),
            rec@ == (RecordState {
                program: program@,
                action: action@,
                confirmers: Seq::<Seq<u8>>::empty(),
                status: false,
            }),
    {
        let rec = ConfirmationRecord { program, action, confirmers: Vec::new(), status: false };
        assert(views(rec.confirmers@) =~= Seq::<Seq<u8>>::empty());
        rec
    }

    /// Rebuilds a record from stored values, if no confirmer occurs twice.
    pub fn restore(program: Vec<u8>, action: Vec<u8>, confirmers: Vec<Vec<u8>>, status: bool) -> (r:
        Option<ConfirmationRecord>)
        ensures
            r is Some <==> distinct(views(confirmers@)),
            r matches Some(rec) ==> rec.wf() && rec@ == (RecordState {
                program: program@,
                action: action@,
                confirmers: views(confirmers@),
                status,
            }),
    {
        if !all_distinct(&confirmers) {
            return None;
        }
        Some(ConfirmationRecord { program, action, confirmers, status })
    }

    /// What this record, kept by `authority`, tells a program that asks
    /// whether its action is confirmed.
    pub fn reading(&self, authority: &[u8]) -> (c: Confirmation)
        ensures
            c.authority@ == authority@,
            c.program@ == self@.program,
            c.action@ == self@.action,
            c.confirmed == self@.status,
    {
        let authority = copy_range(authority, 0, authority.len());
        let program = copy_range(self.program.as_slice(), 0, self.program.len());
        let action = copy_range(self.action.as_slice(), 0, self.action.len());
        assert(program@ =~= self.program@);
        assert(action@ =~= self.action@);
        Confirmation { authority, program, action, confirmed: self.status }
    }
}

impl Multisig {
    /// Records the confirmation of the record's pair by the sender of the
    /// transaction. `caller` is the immediate calling program, empty when
    /// the transaction invokes the engine itself.
    pub fn confirm_transaction(
        &self,
        record: &mut ConfirmationRecord,
        sender_public_key: &[u8],
        caller: &[u8],
    ) -> (r: Result<(), Error>)
        ensures
            match confirm_step(self@, old(record)@, sender_public_key@, caller@) {
                Ok(s) => r is Ok && final(record)@ == s,
                Err(e) => r == Err::<(), Error>(e) && final(record)@ == old(record)@,
            },
            old(record).wf() ==> final(record).wf(),
    {
        if caller.len() != 0 {
            return Err(Error::RelayedCall);
        }
        if !validate_contract(record.program.as_slice()) {
            return Err(Error::InvalidTarget);
        }
        if !validate_contract(record.action.as_slice()) {
            return Err(Error::InvalidTransactionId);
        }
        if !is_member(&self.owners, sender_public_key) {
            return Err(Error::NotOwner);
        }
        if is_member(&record.confirmers, sender_public_key) {
            return Err(Error::AlreadyConfirmedByCaller);
        }
        if record.status {
            return Err(Error::AlreadyConfirmed);
        }
        let ghost before = views(record.confirmers@);
        let sender = copy_range(sender_public_key, 0, sender_public_key.len());
        assert(sender@ =~= sender_public_key@);
        record.confirmers.push(sender);
        let count: usize = record.confirmers.len();
        record.status = self.quorum <= 0 || count as u64 >= self.quorum as u64;
        proof {
            assert(views(record.confirmers@) =~= before.push(sender_public_key@));
            if distinct(before) {
                lemma_push_distinct(before, sender_public_key@);
            }
        }
        Ok(())
    }

    /// Takes the sender's confirmation of the record's pair back.
    pub fn revoke_confirmation(
        &self,
        record: &mut ConfirmationRecord,
        sender_public_key: &[u8],
        caller: &[u8],
    ) -> (r: Result<(), Error>)
        ensures
            match revoke_step(self@, old(record)@, sender_public_key@, caller@) {
                Ok(s) => r is Ok && final(record)@ == s,
                Err(e) => r == Err::<(), Error>(e) && final(record)@ == old(record)@,
            },
            old(record).wf() ==> final(record).wf(),
    {
        if caller.len() != 0 {
            return Err(Error::RelayedCall);
        }
        if !validate_contract(record.program.as_slice()) {
            return Err(Error::InvalidTarget);
        }
        if !validate_contract(record.action.as_slice()) {
            return Err(Error::InvalidTransactionId);
        }
        if !is_member(&self.owners, sender_public_key) {
            return Err(Error::NotOwner);
        }
        proof {
            lemma_position_contains(views(record.confirmers@), sender_public_key@);
        }
        let at: usize = match find_member(&record.confirmers, sender_public_key, 0) {
            Some(i) => i,
            None => {
                return Err(Error::NotConfirmedByCaller);
            },
        };
        if record.status {
            return Err(Error::AlreadyConfirmed);
        }
        let ghost before = views(record.confirmers@);
        record.confirmers.remove(at);
        proof {
            assert(views(record.confirmers@) =~= before.remove(at as int));
            if distinct(before) {
                lemma_remove_distinct(before, at as int);
            }
        }
        Ok(())
    }
}

} // verus!
