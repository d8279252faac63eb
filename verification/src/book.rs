//! The engine's book of confirmation records, one per pair of a target
//! program and an action.
//!
//! Records come into being with the first confirmation of a pair and are
//! never deleted. A pair without a record has no confirmer and is not
//! confirmed.

use crate::authority::Confirmation;
use crate::error::Error;
use crate::multisig::Multisig;
use crate::record::{confirm_step, revoke_step, ConfirmationRecord, RecordState};
use crate::text::{bytes_eq, copy_range};
use vstd::prelude::*;

verus! {

/// The record of a pair that nobody has confirmed.
pub open spec fn blank(program: Seq<u8>, action: Seq<u8>) -> RecordState {
    RecordState { program, action, confirmers: Seq::<Seq<u8>>::empty(), status: false }
}

/// Index of the first record of the pair at or after `from`, or -1.
pub open spec fn slot_from(
    records: Seq<RecordState>,
    program: Seq<u8>,
    action: Seq<u8>,
    from: int,
) -> int
    decreases records.len() - from,
{
    if from < 0 || from >= records.len() {
        -1
    } else if records[from].program == program && records[from].action == action {
        from
    } else {
        slot_from(records, program, action, from + 1)
    }
}

/// Index of the pair's record, or -1 when it has none.
pub open spec fn slot(records: Seq<RecordState>, program: Seq<u8>, action: Seq<u8>) -> int {
    slot_from(records, program, action, 0)
}

/// What the book says of a pair: its record, or the blank record.
pub open spec fn entry(records: Seq<RecordState>, program: Seq<u8>, action: Seq<u8>) -> RecordState {
    let i = slot(records, program, action);
    if i < 0 {
        blank(program, action)
    } else {
        records[i]
    }
}

/// The book with `rec` as the record of its pair: in the place of the
/// pair's record where there is one, else at the end.
pub open spec fn put(records: Seq<RecordState>, rec: RecordState) -> Seq<RecordState> {
    let i = slot(records, rec.program, rec.action);
    if i < 0 {
        records.push(rec)
    } else {
        records.update(i, rec)
    }
}

/// `slot_from` finds the least index of the pair at or after `from`.
pub proof fn lemma_slot_from(
    records: Seq<RecordState>,
    program: Seq<u8>,
    action: Seq<u8>,
    from: int,
)
    requires
        0 <= from,
    ensures
        slot_from(records, program, action, from) == -1 <==> forall|j: int|
            from <= j < records.len() ==> !(records[j].program == program && records[j].action
                == action),
        slot_from(records, program, action, from) != -1 ==> {
            let i = slot_from(records, program, action, from);
            &&& from <= i < records.len()
            &&& records[i].program == program
            &&& records[i].action == action
            &&& forall|j: int|
                from <= j < i ==> !(records[j].program == program && records[j].action == action)
        },
    decreases records.len() - from,
{
    if from < records.len() && !(records[from].program == program && records[from].action
        == action) {
        lemma_slot_from(records, program, action, from + 1);
    }
}

/// The engine's book of confirmation records.
pub struct ConfirmationBook {
    /// The records, in the order in which their pairs were first confirmed.
    pub records: Vec<ConfirmationRecord>,
}

impl View for ConfirmationBook {
    type V = Seq<RecordState>;

    open spec fn view(&self) -> Seq<RecordState> {
        Seq::new(self.records@.len(), |i: int| self.records@[i]@)
    }
}

impl ConfirmationBook {
    /// A book without records.
    pub fn new() -> (book: ConfirmationBook)
        ensures
            book@ == Seq::<RecordState>::empty(),
    {
        let book = ConfirmationBook { records: Vec::new() };
        assert(book@ =~= Seq::<RecordState>::empty());
        book
    }

    /// Index of the pair's record.
    pub fn find(&self, program: &[u8], action: &[u8]) -> (r: Option<usize>)
        ensures
            match r {
                Some(i) => {
                    &&& i as int == slot(self@, program@, action@)
                    &&& i < self.records@.len()
                    &&& self@[i as int].program == program@
                    &&& self@[i as int].action == action@
                },
                None => slot(self@, program@, action@) == -1,
            },
    {
        let mut i: usize = 0;
        while i < self.records.len()
            invariant
                i <= self.records.len(),
                slot(self@, program@, action@) == slot_from(self@, program@, action@, i as int),
            decreases self.records.len() - i,
        {
            let rec = &self.records[i];
            assert(self@[i as int] == rec@);
            if bytes_eq(rec.program.as_slice(), program) && bytes_eq(rec.action.as_slice(), action) {
                return Some(i);
            }
            i += 1;
        }
        None
    }

    /// What the book, kept by `authority`, tells a program that asks
    /// whether its action is confirmed.
    pub fn reading(&self, authority: &[u8], program: &[u8], action: &[u8]) -> (c: Confirmation)
        ensures
            c.authority@ == authority@,
            c.program@ == program@,
            c.action@ == action@,
            c.confirmed == entry(self@, program@, action@).status,
    {
        let confirmed = match self.find(program, action) {
            Some(i) => self.records[i].status,
            None => false,
        };
        let authority = copy_range(authority, 0, authority.len());
        let program = copy_range(program, 0, program.len());
        let action = copy_range(action, 0, action.len());
        Confirmation { authority, program, action, confirmed }
    }

    /// Takes the pair's record out of the book, or makes a blank one.
    fn take(&mut self, program: &[u8], action: &[u8]) -> (r: (ConfirmationRecord, Option<usize>))
        ensures
            r.0@ == entry(old(self)@, program@, action@),
            r.0@.program == program@,
            r.0@.action == action@,
            match r.1 {
                Some(i) => {
                    &&& i as int == slot(old(self)@, program@, action@)
                    &&& i < old(self)@.len()
                    &&& final(self)@ == old(self)@.remove(i as int)
                },
                None => slot(old(self)@, program@, action@) == -1 && final(self)@ == old(self)@,
            },
    {
        let ghost before = self@;
        proof {
            lemma_slot_from(before, program@, action@, 0);
        }
        match self.find(program, action) {
            Some(i) => {
                let rec = self.records.remove(i);
                assert(rec@ == before[i as int]);
                assert(self@ =~= before.remove(i as int));
                (rec, Some(i))
            },
            None => {
                let rec = ConfirmationRecord::new(
                    copy_range(program, 0, program.len()),
                    copy_range(action, 0, action.len()),
                );
                assert(rec@.program =~= program@);
                assert(rec@.action =~= action@);
                (rec, None)
            },
        }
    }

    /// Puts a record that `take` handed out back: in its old place, or at
    /// the end where the pair had none and the record was changed.
    fn give_back(
        &mut self,
        rec: ConfirmationRecord,
        place: Option<usize>,
        changed: bool,
        Ghost(before): Ghost<Seq<RecordState>>,
    )
        requires
            match place {
                Some(i) => {
                    &&& i as int == slot(before, rec@.program, rec@.action)
                    &&& i < before.len()
                    &&& old(self)@ == before.remove(i as int)
                    &&& !changed ==> rec@ == before[i as int]
                },
                None => slot(before, rec@.program, rec@.action) == -1 && old(self)@ == before,
            },
        ensures
            final(self)@ == if changed {
                put(before, rec@)
            } else {
                before
            },
    {
        let ghost mid = self@;
        let ghost mid_records = self.records@;
        match place {
            Some(i) => {
                assert(mid.len() == mid_records.len());
                self.records.insert(i, rec);
                assert forall|j: int| 0 <= j < self@.len() implies self@[j] == before.update(
                    i as int,
                    rec@,
                )[j] by {
                    if j < i {
                        assert(mid[j] == mid_records[j]@);
                    } else if j > i {
                        assert(mid[j - 1] == mid_records[j - 1]@);
                    }
                }
                assert(self@ =~= before.update(i as int, rec@));
                if !changed {
                    assert(self@ =~= before);
                }
            },
            None => {
                if changed {
                    self.records.push(rec);
                    assert forall|j: int| 0 <= j < self@.len() implies self@[j] == before.push(
                        rec@,
                    )[j] by {
                        if j < mid.len() {
                            assert(mid[j] == mid_records[j]@);
                        }
                    }
                    assert(self@ =~= before.push(rec@));
                }
            },
        }
    }

    /// Records the confirmation of `action` of `program` by the sender of
    /// the transaction, as an owner of `engine`.
    pub fn confirm_transaction(
        &mut self,
        engine: &Multisig,
        program: &[u8],
        action: &[u8],
        sender_public_key: &[u8],
        caller: &[u8],
    ) -> (r: Result<(), Error>)
        ensures
            match confirm_step(
                engine@,
                entry(old(self)@, program@, action@),
                sender_public_key@,
                caller@,
            ) {
                Ok(after) => r is Ok && final(self)@ == put(old(self)@, after),
                Err(e) => r == Err::<(), Error>(e) && final(self)@ == old(self)@,
            },
    {
        let ghost before = self@;
        let (mut rec, place) = self.take(program, action);
        let r = engine.confirm_transaction(&mut rec, sender_public_key, caller);
        self.give_back(rec, place, r.is_ok(), Ghost(before));
        r
    }

    /// Takes the sender's confirmation of `action` of `program` back.
    pub fn revoke_confirmation(
        &mut self,
        engine: &Multisig,
        program: &[u8],
        action: &[u8],
        sender_public_key: &[u8],
        caller: &[u8],
    ) -> (r: Result<(), Error>)
        ensures
            match revoke_step(
                engine@,
                entry(old(self)@, program@, action@),
                sender_public_key@,
                caller@,
            ) {
                Ok(after) => r is Ok && final(self)@ == put(old(self)@, after),
                Err(e) => r == Err::<(), Error>(e) && final(self)@ == old(self)@,
            },
    {
        let ghost before = self@;
        let (mut rec, place) = self.take(program, action);
        let r = engine.revoke_confirmation(&mut rec, sender_public_key, caller);
        self.give_back(rec, place, r.is_ok(), Ghost(before));
        r
    }
}

} // verus!
