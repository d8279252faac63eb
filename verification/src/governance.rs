//! What the relay executor and the event emitter share: the authority that
//! gates their configuration, and the emergency stop.
//!
//! The pauser is a ledger account of its own, not one of the owners. Only
//! the pauser, as the sender of a direct transaction, can halt and resume a
//! program; the pauser and the authority themselves change only with the
//! authority's confirmation.

use crate::authority::Confirmation;
use crate::error::Error;
use crate::identity::{is_address, is_contract_id, validate_address, validate_contract};
use crate::text::bytes_eq;
use vstd::prelude::*;

verus! {

/// A program's governance settings as mathematical values.
pub struct GuardState {
    /// The program's own identifier.
    pub this: Seq<u8>,
    /// The authority whose confirmations gate the program's configuration.
    pub multisig: Seq<u8>,
    /// The account that may pause and unpause.
    pub pauser: Seq<u8>,
    /// Whether the program is halted.
    pub paused: bool,
}

impl GuardState {
    /// The authority is a program identifier and the pauser an address.
    pub open spec fn wf(self) -> bool {
        is_contract_id(self.multisig) && is_address(self.pauser)
    }
}

/// Setting up: once, with a program identifier as authority and a ledger
/// address as pauser. The program starts running.
pub open spec fn guard_construct_step(
    initialized: bool,
    this: Seq<u8>,
    multisig: Seq<u8>,
    pauser: Seq<u8>,
) -> Result<GuardState, Error> {
    if initialized {
        Err(Error::AlreadyInitialized)
    } else if !is_contract_id(multisig) {
        Err(Error::InvalidMultisig)
    } else if !is_address(pauser) {
        Err(Error::InvalidPauser)
    } else {
        Ok(GuardState { this, multisig, pauser, paused: false })
    }
}

/// Pausing: by the pauser, in a direct transaction, while running.
pub open spec fn pause_step(s: GuardState, sender: Seq<u8>, caller: Seq<u8>) -> Result<
    GuardState,
    Error,
> {
    if caller.len() != 0 {
        Err(Error::RelayedCall)
    } else if sender != s.pauser {
        Err(Error::NotPauser)
    } else if s.paused {
        Err(Error::Paused)
    } else {
        Ok(GuardState { paused: true, ..s })
    }
}

/// Unpausing: by the pauser, in a direct transaction, while paused.
pub open spec fn unpause_step(s: GuardState, sender: Seq<u8>, caller: Seq<u8>) -> Result<
    GuardState,
    Error,
> {
    if caller.len() != 0 {
        Err(Error::RelayedCall)
    } else if sender != s.pauser {
        Err(Error::NotPauser)
    } else if !s.paused {
        Err(Error::NotPaused)
    } else {
        Ok(GuardState { paused: false, ..s })
    }
}

/// Replacing the pauser: with the authority's confirmation, by a ledger
/// address.
pub open spec fn update_pauser_step(s: GuardState, authorized: bool, new_pauser: Seq<u8>) -> Result<
    GuardState,
    Error,
> {
    if !authorized {
        Err(Error::NotConfirmed)
    } else if !is_address(new_pauser) {
        Err(Error::InvalidPauser)
    } else {
        Ok(GuardState { pauser: new_pauser, ..s })
    }
}

/// Replacing the authority: with the present authority's confirmation, by a
/// program identifier.
pub open spec fn update_multisig_step(
    s: GuardState,
    authorized: bool,
    new_multisig: Seq<u8>,
) -> Result<GuardState, Error> {
    if !authorized {
        Err(Error::NotConfirmed)
    } else if !is_contract_id(new_multisig) {
        Err(Error::InvalidMultisig)
    } else {
        Ok(GuardState { multisig: new_multisig, ..s })
    }
}

/// A program's governance settings.
pub struct Guard {
    /// The program's own identifier.
    pub this: Vec<u8>,
    /// The authority whose confirmations gate the program's configuration.
    pub multisig: Vec<u8>,
    /// The account that may pause and unpause.
    pub pauser: Vec<u8>,
    /// Whether the program is halted.
    pub paused: bool,
}

impl View for Guard {
    type V = GuardState;

    open spec fn view(&self) -> GuardState {
        GuardState {
            this: self.this@,
            multisig: self.multisig@,
            pauser: self.pauser@,
            paused: self.paused,
        }
    }
}

impl Guard {
    /// Sets the governance of a program up. `initialized` says whether the
    /// program was constructed before.
    pub fn construct(initialized: bool, this: Vec<u8>, multisig: Vec<u8>, pauser: Vec<u8>) -> (r:
        Result<Guard, Error>)
        ensures
            match r {
                Ok(g) => guard_construct_step(initialized, this@, multisig@, pauser@) == Ok::<
                    GuardState,
                    Error,
                >(g@) && g@.wf(),
                Err(e) => guard_construct_step(initialized, this@, multisig@, pauser@) == Err::<
                    GuardState,
                    Error,
                >(e),
            },
    {
        if initialized {
            return Err(Error::AlreadyInitialized);
        }
        if !validate_contract(multisig.as_slice()) {
            return Err(Error::InvalidMultisig);
        }
        if !validate_address(pauser.as_slice()) {
            return Err(Error::InvalidPauser);
        }
        Ok(Guard { this, multisig, pauser, paused: false })
    }

    /// The program's authority has confirmed the action carried by the
    /// transaction `tx_id`, as `confirmation` reads it.
    pub open spec fn admits(&self, confirmation: &Confirmation, tx_id: Seq<u8>) -> bool {
        confirmation.authorizes(self@.multisig, self@.this, tx_id)
    }

    /// Whether `confirmation` authorizes the action carried by the
    /// transaction `tx_id` on this program.
    pub fn authorized(&self, confirmation: &Confirmation, tx_id: &[u8]) -> (r: bool)
        ensures
            r == self.admits(confirmation, tx_id@),
    {
        confirmation.is_confirmed(self.multisig.as_slice(), self.this.as_slice(), tx_id)
    }

    /// Halts the program. `sender` is the transaction's sender and `caller`
    /// the immediate calling program, empty for a direct transaction.
    pub fn pause(&mut self, sender: &[u8], caller: &[u8]) -> (r: Result<(), Error>)
        ensures
            match pause_step(old(self)@, sender@, caller@) {
                Ok(s) => r is Ok && final(self)@ == s,
                Err(e) => r == Err::<(), Error>(e) && final(self)@ == old(self)@,
            },
    {
        if caller.len() != 0 {
            return Err(Error::RelayedCall);
        }
        if !bytes_eq(sender, self.pauser.as_slice()) {
            return Err(Error::NotPauser);
        }
        if self.paused {
            return Err(Error::Paused);
        }
        self.paused = true;
        Ok(())
    }

    /// Resumes the program.
    pub fn unpause(&mut self, sender: &[u8], caller: &[u8]) -> (r: Result<(), Error>)
        ensures
            match unpause_step(old(self)@, sender@, caller@) {
                Ok(s) => r is Ok && final(self)@ == s,
                Err(e) => r == Err::<(), Error>(e) && final(self)@ == old(self)@,
            },
    {
        if caller.len() != 0 {
            return Err(Error::RelayedCall);
        }
        if !bytes_eq(sender, self.pauser.as_slice()) {
            return Err(Error::NotPauser);
        }
        if !self.paused {
            return Err(Error::NotPaused);
        }
        self.paused = false;
        Ok(())
    }

    /// Replaces the pauser.
    pub fn update_pauser(
        &mut self,
        confirmation: &Confirmation,
        tx_id: &[u8],
        new_pauser: Vec<u8>,
    ) -> (r: Result<(), Error>)
        ensures
            match update_pauser_step(
                old(self)@,
                old(self).admits(confirmation, tx_id@),
                new_pauser@,
            ) {
                Ok(s) => r is Ok && final(self)@ == s,
                Err(e) => r == Err::<(), Error>(e) && final(self)@ == old(self)@,
            },
    {
        if !self.authorized(confirmation, tx_id) {
            return Err(Error::NotConfirmed);
        }
        if !validate_address(new_pauser.as_slice()) {
            return Err(Error::InvalidPauser);
        }
        self.pauser = new_pauser;
        Ok(())
    }

    /// Replaces the authority.
    pub fn update_multisig(
        &mut self,
        confirmation: &Confirmation,
        tx_id: &[u8],
        new_multisig: Vec<u8>,
    ) -> (r: Result<(), Error>)
        ensures
            match update_multisig_step(
                old(self)@,
                old(self).admits(confirmation, tx_id@),
                new_multisig@,
            ) {
                Ok(s) => r is Ok && final(self)@ == s,
                Err(e) => r == Err::<(), Error>(e) && final(self)@ == old(self)@,
            },
    {
        if !self.authorized(confirmation, tx_id) {
            return Err(Error::NotConfirmed);
        }
        if !validate_contract(new_multisig.as_slice()) {
            return Err(Error::InvalidMultisig);
        }
        self.multisig = new_multisig;
        Ok(())
    }
}

} // verus!
