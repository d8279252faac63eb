//! What an authority says about an action.
//!
//! A privileged action of a program proceeds only when the program's
//! authority has confirmed the pair of the program and the action's
//! identifier. The program pulls that answer from the authority's store,
//! where it stands under `STATUS`, the program and the action.

use crate::text::bytes_eq;
use vstd::prelude::*;

verus! {

/// A reading of an authority's status entry for one action of one program.
pub struct Confirmation {
    /// The authority in whose store the entry was looked up.
    pub authority: Vec<u8>,
    /// The program that wants to act.
    pub program: Vec<u8>,
    /// The identifier of the action, the transaction that carries it.
    pub action: Vec<u8>,
    /// Whether the entry exists and is true.
    pub confirmed: bool,
}

impl Confirmation {
    /// The reading authorizes `action` of `program` on behalf of
    /// `authority`: it was taken from that authority's store, it is about
    /// that pair, and the entry is true.
    pub open spec fn authorizes(
        &self,
        authority: Seq<u8>,
        program: Seq<u8>,
        action: Seq<u8>,
    ) -> bool {
        &&& self.authority@ == authority
        &&& self.program@ == program
        &&& self.action@ == action
        &&& self.confirmed
    }

    /// The reading for `action` of `program`, given the entry found in the
    /// store of `authority` if there is one. A missing entry confirms
    /// nothing.
    pub fn read(authority: Vec<u8>, program: Vec<u8>, action: Vec<u8>, entry: Option<bool>) -> (c:
        Confirmation)
        ensures
            c.authority@ == authority@,
            c.program@ == program@,
            c.action@ == action@,
            c.confirmed == (entry == Some(true)),
    {
        let confirmed = match entry {
            Some(value) => value,
            None => false,
        };
        Confirmation { authority, program, action, confirmed }
    }

    /// Whether the reading authorizes `action` of `program` on behalf of
    /// `authority`.
    pub fn is_confirmed(&self, authority: &[u8], program: &[u8], action: &[u8]) -> (r: bool)
        ensures
            r == self.authorizes(authority@, program@, action@),
    {
        self.confirmed && bytes_eq(self.authority.as_slice(), authority) && bytes_eq(
            self.program.as_slice(),
            program,
        ) && bytes_eq(self.action.as_slice(), action)
    }
}

} // verus!
