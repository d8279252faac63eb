//! The quorum confirmation engine: the owner set and the quorum threshold.
//!
//! Owners are programs, each known by its 32-byte identifier. The engine is
//! its own authority: changes of the owner set and of the quorum need the
//! confirmation of a quorum of the present owners.

use crate::authority::Confirmation;
use crate::error::Error;
use crate::identity::{is_contract_id, validate_contract};
use crate::members::{
    distinct, find_member, is_member, lemma_position_contains, lemma_position_from,
    lemma_push_distinct, lemma_remove_distinct, position, position_from,
};
use crate::text::{copy_range, views};
use vstd::prelude::*;

verus! {

/// The engine's state as mathematical values.
pub struct MultisigState {
    /// The engine's own identifier.
    pub this: Seq<u8>,
    /// The engine's authority: the engine itself.
    pub multisig: Seq<u8>,
    /// The owners, in the order in which they were added.
    pub owners: Seq<Seq<u8>>,
    /// How many owners must confirm an action.
    pub quorum: int,
}

impl MultisigState {
    /// The engine is its own authority; at least one owner, each a program
    /// identifier, none twice, and a quorum between one and the number of
    /// owners.
    pub open spec fn wf(self) -> bool {
        &&& self.multisig == self.this
        &&& self.owners.len() >= 1
        &&& forall|i: int| 0 <= i < self.owners.len() ==> is_contract_id(#[trigger] self.owners[i])
        &&& distinct(self.owners)
        &&& 1 <= self.quorum <= self.owners.len()
    }
}

/// The owner at index `i` is given again later in the list, or is no
/// program identifier.
pub open spec fn owner_fault(owners: Seq<Seq<u8>>, i: int) -> bool {
    position_from(owners, owners[i], i + 1) != -1 || !is_contract_id(owners[i])
}

/// Index of the first faulty owner at or after `from`, or -1.
pub open spec fn first_fault_from(owners: Seq<Seq<u8>>, from: int) -> int
    decreases owners.len() - from,
{
    if from < 0 || from >= owners.len() {
        -1
    } else if owner_fault(owners, from) {
        from
    } else {
        first_fault_from(owners, from + 1)
    }
}

/// Why an owner list is refused, if it is: the first faulty owner decides,
/// and a repetition is reported before an invalid identifier.
pub open spec fn owners_error(owners: Seq<Seq<u8>>) -> Option<Error> {
    let i = first_fault_from(owners, 0);
    if i < 0 {
        None
    } else if position_from(owners, owners[i], i + 1) != -1 {
        Some(Error::DuplicateOwner)
    } else {
        Some(Error::InvalidOwner)
    }
}

/// Construction: refused when constructed before, when the owner list is
/// faulty, or when the quorum is not between one and the number of owners.
/// The engine becomes its own authority.
pub open spec fn initialize_step(
    initialized: bool,
    this: Seq<u8>,
    owners: Seq<Seq<u8>>,
    quorum: i64,
) -> Result<MultisigState, Error> {
    if initialized {
        Err(Error::AlreadyInitialized)
    } else if owners_error(owners) is Some {
        Err(owners_error(owners)->0)
    } else if quorum <= 0 {
        Err(Error::QuorumNotPositive)
    } else if quorum > owners.len() {
        Err(Error::QuorumExceedsOwners)
    } else {
        Ok(MultisigState { this, multisig: this, owners, quorum: quorum as int })
    }
}

/// Adding an owner: needs the authority's confirmation, a program
/// identifier, and a new member.
pub open spec fn add_owner_step(s: MultisigState, authorized: bool, new_owner: Seq<u8>) -> Result<
    MultisigState,
    Error,
> {
    if !authorized {
        Err(Error::NotConfirmed)
    } else if !is_contract_id(new_owner) {
        Err(Error::InvalidOwner)
    } else if s.owners.contains(new_owner) {
        Err(Error::OwnerExists)
    } else {
        Ok(MultisigState { owners: s.owners.push(new_owner), ..s })
    }
}

/// Removing an owner: needs the authority's confirmation and a member that
/// is not the last one. A quorum that the smaller set cannot reach is
/// lowered to the set's size; it is never raised.
pub open spec fn remove_owner_step(
    s: MultisigState,
    authorized: bool,
    old_owner: Seq<u8>,
) -> Result<MultisigState, Error> {
    if !authorized {
        Err(Error::NotConfirmed)
    } else if !is_contract_id(old_owner) {
        Err(Error::InvalidOwner)
    } else if !s.owners.contains(old_owner) {
        Err(Error::OwnerMissing)
    } else if s.owners.len() <= 1 {
        Err(Error::LastOwner)
    } else {
        Ok(
            MultisigState {
                owners: s.owners.remove(position(s.owners, old_owner)),
                quorum: if s.owners.len() - 1 < s.quorum {
                    s.owners.len() - 1
                } else {
                    s.quorum
                },
                ..s
            },
        )
    }
}

/// Changing the quorum: needs the authority's confirmation and a value
/// between one and the number of owners.
pub open spec fn set_quorum_step(s: MultisigState, authorized: bool, quorum: i64) -> Result<
    MultisigState,
    Error,
> {
    if !authorized {
        Err(Error::NotConfirmed)
    } else if quorum <= 0 {
        Err(Error::QuorumNotPositive)
    } else if quorum > s.owners.len() {
        Err(Error::QuorumExceedsOwners)
    } else {
        Ok(MultisigState { quorum: quorum as int, ..s })
    }
}

/// `first_fault_from` finds the least faulty index at or after `from`.
pub proof fn lemma_first_fault(owners: Seq<Seq<u8>>, from: int)
    requires
        0 <= from,
    ensures
        first_fault_from(owners, from) == -1 <==> forall|j: int|
            from <= j < owners.len() ==> !owner_fault(owners, j),
        first_fault_from(owners, from) != -1 ==> {
            &&& from <= first_fault_from(owners, from) < owners.len()
            &&& owner_fault(owners, first_fault_from(owners, from))
        },
    decreases owners.len() - from,
{
    if from < owners.len() && !owner_fault(owners, from) {
        lemma_first_fault(owners, from + 1);
    }
}

/// An owner list is accepted exactly when every owner is a program
/// identifier and none occurs twice.
pub proof fn lemma_owners_error(owners: Seq<Seq<u8>>)
    ensures
        owners_error(owners) is None <==> (distinct(owners) && forall|i: int|
            0 <= i < owners.len() ==> is_contract_id(#[trigger] owners[i])),
{
    lemma_first_fault(owners, 0);
    if owners_error(owners) is None {
        assert forall|i: int, j: int| 0 <= i < j < owners.len() implies owners[i] != owners[j] by {
            assert(!owner_fault(owners, i));
            lemma_position_from(owners, owners[i], i + 1);
        }
        assert forall|i: int| 0 <= i < owners.len() implies is_contract_id(
            #[trigger] owners[i],
        ) by {
            assert(!owner_fault(owners, i));
        }
    } else {
        let i = first_fault_from(owners, 0);
        lemma_position_from(owners, owners[i], i + 1);
        if position_from(owners, owners[i], i + 1) != -1 {
            let j = position_from(owners, owners[i], i + 1);
            assert(owners[i] == owners[j]);
        }
    }
}

/// Checks an owner list as construction does.
pub fn check_owners(owners: &Vec<Vec<u8>>) -> (r: Result<(), Error>)
    ensures
        match r {
            Ok(_) => owners_error(views(owners@)) is None,
            Err(e) => owners_error(views(owners@)) == Some(e),
        },
{
    let mut i: usize = 0;
    while i < owners.len()
        invariant
            i <= owners.len(),
            first_fault_from(views(owners@), 0) == first_fault_from(views(owners@), i as int),
        decreases owners.len() - i,
    {
        if find_member(owners, owners[i].as_slice(), i + 1).is_some() {
            return Err(Error::DuplicateOwner);
        }
        if !validate_contract(owners[i].as_slice()) {
            return Err(Error::InvalidOwner);
        }
        i += 1;
    }
    Ok(())
}

/// The engine: its own identifier, the owner set and the quorum.
pub struct Multisig {
    /// The engine's own identifier.
    pub this: Vec<u8>,
    /// The engine's authority: the engine itself.
    pub multisig: Vec<u8>,
    /// The owners, in the order in which they were added.
    pub owners: Vec<Vec<u8>>,
    /// How many owners must confirm an action.
    pub quorum: i64,
}

impl View for Multisig {
    type V = MultisigState;

    open spec fn view(&self) -> MultisigState {
        MultisigState {
            this: self.this@,
            multisig: self.multisig@,
            owners: views(self.owners@),
            quorum: self.quorum as int,
        }
    }
}

impl Multisig {
    /// The state is well-formed.
    pub open spec fn wf(&self) -> bool {
        self@.wf()
    }

    /// The engine, as its own authority, has confirmed the action carried
    /// by the transaction `tx_id`, as `confirmation` reads it.
    pub open spec fn admits(&self, confirmation: &Confirmation, tx_id: Seq<u8>) -> bool {
        confirmation.authorizes(self@.multisig, self@.this, tx_id)
    }

    /// Whether `confirmation` authorizes the action carried by the
    /// transaction `tx_id` on the engine.
    pub fn authorized(&self, confirmation: &Confirmation, tx_id: &[u8]) -> (r: bool)
        ensures
            r == self.admits(confirmation, tx_id@),
    {
        confirmation.is_confirmed(self.multisig.as_slice(), self.this.as_slice(), tx_id)
    }

    /// Constructs the engine with the given owners and quorum. `this` is the
    /// engine's own identifier, which also becomes its authority;
    /// `initialized` says whether the program was constructed before.
    pub fn initialize(initialized: bool, this: Vec<u8>, owners: Vec<Vec<u8>>, quorum: i64) -> (r:
        Result<Multisig, Error>)
        ensures
            match r {
                Ok(m) => initialize_step(initialized, this@, views(owners@), quorum) == Ok::<
                    MultisigState,
                    Error,
                >(m@) && m.wf(),
                Err(e) => initialize_step(initialized, this@, views(owners@), quorum) == Err::<
                    MultisigState,
                    Error,
                >(e),
            },
    {
        if initialized {
            return Err(Error::AlreadyInitialized);
        }
        match check_owners(&owners) {
            Err(e) => {
                return Err(e);
            },
            Ok(_) => {},
        }
        if quorum <= 0 {
            return Err(Error::QuorumNotPositive);
        }
        if quorum as u64 > owners.len() as u64 {
            return Err(Error::QuorumExceedsOwners);
        }
        proof {
            lemma_owners_error(views(owners@));
        }
        let multisig = copy_range(this.as_slice(), 0, this.len());
        assert(multisig@ =~= this@);
        Ok(Multisig { this, multisig, owners, quorum })
    }

    /// Adds `new_owner` to the owner set. `confirmation` is the authority's
    /// reading for the transaction `tx_id` that carries this action.
    pub fn add_owner(
        &mut self,
        confirmation: &Confirmation,
        tx_id: &[u8],
        new_owner: Vec<u8>,
    ) -> (r: Result<(), Error>)
        ensures
            match add_owner_step(
                old(self)@,
                old(self).admits(confirmation, tx_id@),
                new_owner@,
            ) {
                Ok(s) => r is Ok && final(self)@ == s && (old(self).wf() ==> final(self).wf()),
                Err(e) => r == Err::<(), Error>(e) && final(self)@ == old(self)@,
            },
    {
        if !self.authorized(confirmation, tx_id) {
            return Err(Error::NotConfirmed);
        }
        if !validate_contract(new_owner.as_slice()) {
            return Err(Error::InvalidOwner);
        }
        if is_member(&self.owners, new_owner.as_slice()) {
            return Err(Error::OwnerExists);
        }
        let ghost before = views(self.owners@);
        self.owners.push(new_owner);
        proof {
            assert(views(self.owners@) =~= before.push(new_owner@));
            if old(self).wf() {
                lemma_push_distinct(before, new_owner@);
            }
        }
        Ok(())
    }

    /// Removes `old_owner` from the owner set, lowering the quorum to the
    /// new size where the smaller set could not reach it.
    pub fn remove_owner(
        &mut self,
        confirmation: &Confirmation,
        tx_id: &[u8],
        old_owner: &[u8],
    ) -> (r: Result<(), Error>)
        ensures
            match remove_owner_step(
                old(self)@,
                old(self).admits(confirmation, tx_id@),
                old_owner@,
            ) {
                Ok(s) => r is Ok && final(self)@ == s && (old(self).wf() ==> final(self).wf()),
                Err(e) => r == Err::<(), Error>(e) && final(self)@ == old(self)@,
            },
    {
        if !self.authorized(confirmation, tx_id) {
            return Err(Error::NotConfirmed);
        }
        if !validate_contract(old_owner) {
            return Err(Error::InvalidOwner);
        }
        proof {
            lemma_position_contains(views(self.owners@), old_owner@);
        }
        let at: usize = match find_member(&self.owners, old_owner, 0) {
            Some(i) => i,
            None => {
                return Err(Error::OwnerMissing);
            },
        };
        if self.owners.len() <= 1 {
            return Err(Error::LastOwner);
        }
        let ghost before = views(self.owners@);
        self.owners.remove(at);
        let left: usize = self.owners.len();
        if self.quorum > 0 && (left as u64) < (self.quorum as u64) {
            self.quorum = left as i64;
        }
        proof {
            assert(views(self.owners@) =~= before.remove(at as int));
            if old(self).wf() {
                lemma_remove_distinct(before, at as int);
                assert forall|i: int| 0 <= i < views(self.owners@).len() implies is_contract_id(
                    #[trigger] views(self.owners@)[i],
                ) by {
                    let a = if i < at { i } else { i + 1 };
                    assert(views(self.owners@)[i] == before[a]);
                }
            }
        }
        Ok(())
    }

    /// Sets the quorum.
    pub fn set_quorum(&mut self, confirmation: &Confirmation, tx_id: &[u8], quorum: i64) -> (r:
        Result<(), Error>)
        ensures
            match set_quorum_step(
                old(self)@,
                old(self).admits(confirmation, tx_id@),
                quorum,
            ) {
                Ok(s) => r is Ok && final(self)@ == s && (old(self).wf() ==> final(self).wf()),
                Err(e) => r == Err::<(), Error>(e) && final(self)@ == old(self)@,
            },
    {
        if !self.authorized(confirmation, tx_id) {
            return Err(Error::NotConfirmed);
        }
        if quorum <= 0 {
            return Err(Error::QuorumNotPositive);
        }
        if quorum as u64 > self.owners.len() as u64 {
            return Err(Error::QuorumExceedsOwners);
        }
        self.quorum = quorum;
        Ok(())
    }

    /// Rebuilds the engine from stored values, if they are well-formed.
    pub fn restore(this: Vec<u8>, owners: Vec<Vec<u8>>, quorum: i64) -> (r: Option<Multisig>)
        ensures
            match r {
                Some(m) => m.wf() && m@ == (MultisigState {
                    this: this@,
                    multisig: this@,
                    owners: views(owners@),
                    quorum: quorum as int,
                }),
                None => !(MultisigState {
                    this: this@,
                    multisig: this@,
                    owners: views(owners@),
                    quorum: quorum as int,
                }).wf(),
            },
    {
        proof {
            lemma_owners_error(views(owners@));
        }
        if check_owners(&owners).is_err() || quorum <= 0 || quorum as u64 > owners.len() as u64 {
            return None;
        }
        let multisig = copy_range(this.as_slice(), 0, this.len());
        assert(multisig@ =~= this@);
        Some(Multisig { this, multisig, owners, quorum })
    }
}

} // verus!
