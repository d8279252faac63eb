//! The allowance-gated event emitter.
//!
//! A program that is allowed to asks for a call on another chain. The
//! request becomes an event in an append-only log that an off-chain relayer
//! reads; the event names the requesting program inside the forwarded
//! arguments, so that the destination knows who asked.

use crate::authority::Confirmation;
use crate::encoding::{decimal, to_decimal};
use crate::error::Error;
use crate::governance::{
    guard_construct_step, pause_step, unpause_step, update_multisig_step, update_pauser_step,
    Guard, GuardState,
};
use crate::identity::{is_contract_id, validate_contract};
use crate::keys::{argument_separator, argument_separator_bytes, separator, separator_bytes};
use crate::text::{bytes_eq, copy_range, join, join_bytes, views};
use vstd::prelude::*;

verus! {

/// The emitter's state as mathematical values.
pub struct EmitterState {
    /// Authority, pauser and pause flag.
    pub guard: GuardState,
    /// The chain this emitter runs on.
    pub call_chain_id: i64,
    /// The nonce of the next event.
    pub nonce: i64,
    /// The number of events in the log, which is the index of the next one.
    pub event_size: i64,
}

/// A request for a call on another chain, as mathematical values.
pub struct OutboundCallView {
    /// The requesting program, as text; empty when a transaction asks.
    pub caller: Seq<u8>,
    /// The chain the call is to run on.
    pub execution_chain_id: i64,
    /// The destination program, as text.
    pub execution_contract: Seq<u8>,
    /// The function to invoke.
    pub function_name: Seq<u8>,
    /// The arguments, joined by the argument separator.
    pub function_args: Seq<u8>,
}

/// The arguments as they are forwarded: the requesting program first.
pub open spec fn arguments_with_caller(caller: Seq<u8>, function_args: Seq<u8>) -> Seq<u8> {
    caller + argument_separator() + function_args
}

/// The event record: source chain, destination chain, destination program,
/// function name, arguments with the caller, nonce, originating transaction
/// and block height, joined by the separator.
pub open spec fn event_record(
    call_chain_id: i64,
    call: OutboundCallView,
    nonce: i64,
    tx_id: Seq<u8>,
    height: i64,
) -> Seq<u8> {
    join(
        seq![
            decimal(call_chain_id),
            decimal(call.execution_chain_id),
            call.execution_contract,
            call.function_name,
            arguments_with_caller(call.caller, call.function_args),
            decimal(nonce),
            tx_id,
            decimal(height),
        ],
        separator(),
    )
}

/// An event as mathematical values.
pub struct EventView {
    /// The event's index in the log.
    pub index: i64,
    /// The event record.
    pub record: Seq<u8>,
}

/// Construction: the shared governance first, then a positive chain
/// identifier. The nonce and the event counter start at zero.
pub open spec fn emitter_construct_step(
    initialized: bool,
    this: Seq<u8>,
    multisig: Seq<u8>,
    pauser: Seq<u8>,
    call_chain_id: i64,
) -> Result<EmitterState, Error> {
    match guard_construct_step(initialized, this, multisig, pauser) {
        Err(e) => Err(e),
        Ok(guard) => if call_chain_id <= 0 {
            Err(Error::InvalidChainId)
        } else {
            Ok(EmitterState { guard, call_chain_id, nonce: 0, event_size: 0 })
        },
    }
}

/// Emitting an event. The request must come from a program with an
/// allowance, while the emitter runs, for a positive chain identifier, with
/// nothing empty. The event takes the next index and the next nonce, and
/// both counters grow by one.
pub open spec fn call_step(
    s: EmitterState,
    allowed: bool,
    call: OutboundCallView,
    tx_id: Seq<u8>,
    height: i64,
) -> Result<(EmitterState, EventView), Error> {
    if call.caller.len() == 0 {
        Err(Error::CallerNotProgram)
    } else if !allowed {
        Err(Error::NotAllowed)
    } else if s.guard.paused {
        Err(Error::Paused)
    } else if call.execution_chain_id <= 0 {
        Err(Error::InvalidChainId)
    } else if call.execution_contract.len() == 0 {
        Err(Error::EmptyContract)
    } else if call.function_name.len() == 0 {
        Err(Error::EmptyFunctionName)
    } else if call.function_args.len() == 0 {
        Err(Error::EmptyArguments)
    } else if s.nonce == i64::MAX || s.event_size == i64::MAX {
        Err(Error::CounterOverflow)
    } else {
        Ok(
            (
                EmitterState {
                    nonce: (s.nonce + 1) as i64,
                    event_size: (s.event_size + 1) as i64,
                    ..s
                },
                EventView {
                    index: s.event_size,
                    record: event_record(s.call_chain_id, call, s.nonce, tx_id, height),
                },
            ),
        )
    }
}

/// Granting or withdrawing an allowance: with the authority's confirmation,
/// for a program identifier. The result is the entry to store.
pub open spec fn allowance_step(authorized: bool, caller_id: Seq<u8>, allowed: bool) -> Result<
    bool,
    Error,
> {
    if !authorized {
        Err(Error::NotConfirmed)
    } else if !is_contract_id(caller_id) {
        Err(Error::InvalidCaller)
    } else {
        Ok(allowed)
    }
}

/// A reading of the allowance entry of one program.
pub struct Allowance {
    /// The program, as text.
    pub caller: Vec<u8>,
    /// Whether the entry exists and is true.
    pub allowed: bool,
}

impl Allowance {
    /// The reading allows `caller` to emit events.
    pub open spec fn allows(&self, caller: Seq<u8>) -> bool {
        self.caller@ == caller && self.allowed
    }

    /// The reading for `caller`, given the stored entry if there is one. A
    /// missing entry allows nothing.
    pub fn read(caller: Vec<u8>, entry: Option<bool>) -> (a: Allowance)
        ensures
            a.caller@ == caller@,
            a.allowed == (entry == Some(true)),
    {
        let allowed = match entry {
            Some(value) => value,
            None => false,
        };
        Allowance { caller, allowed }
    }
}

/// A request for a call on another chain.
pub struct OutboundCall {
    /// The requesting program, as text; empty when a transaction asks.
    pub caller: Vec<u8>,
    /// The chain the call is to run on.
    pub execution_chain_id: i64,
    /// The destination program, as text.
    pub execution_contract: Vec<u8>,
    /// The function to invoke.
    pub function_name: Vec<u8>,
    /// The arguments, joined by the argument separator.
    pub function_args: Vec<u8>,
}

impl View for OutboundCall {
    type V = OutboundCallView;

    open spec fn view(&self) -> OutboundCallView {
        OutboundCallView {
            caller: self.caller@,
            execution_chain_id: self.execution_chain_id,
            execution_contract: self.execution_contract@,
            function_name: self.function_name@,
            function_args: self.function_args@,
        }
    }
}

/// An event of the log.
pub struct Event {
    /// The event's index in the log.
    pub index: i64,
    /// The event record.
    pub record: Vec<u8>,
}

impl View for Event {
    type V = EventView;

    open spec fn view(&self) -> EventView {
        EventView { index: self.index, record: self.record@ }
    }
}

/// The event emitter.
pub struct Emitter {
    /// Authority, pauser and pause flag.
    pub guard: Guard,
    /// The chain this emitter runs on.
    pub call_chain_id: i64,
    /// The nonce of the next event.
    pub nonce: i64,
    /// The number of events in the log.
    pub event_size: i64,
}

impl View for Emitter {
    type V = EmitterState;

    open spec fn view(&self) -> EmitterState {
        EmitterState {
            guard: self.guard@,
            call_chain_id: self.call_chain_id,
            nonce: self.nonce,
            event_size: self.event_size,
        }
    }
}

/// Builds the record of an event.
pub fn build_event_record(
    call_chain_id: i64,
    call: &OutboundCall,
    nonce: i64,
    tx_id: &[u8],
    height: i64,
) -> (record: Vec<u8>)
    ensures
        record@ == event_record(call_chain_id, call@, nonce, tx_id@, height),
{
    let mut forwarded = copy_range(call.caller.as_slice(), 0, call.caller.len());
    assert(forwarded@ =~= call.caller@);
    let args_sep = argument_separator_bytes();
    forwarded.extend_from_slice(args_sep.as_slice());
    forwarded.extend_from_slice(call.function_args.as_slice());
    assert(forwarded@ =~= arguments_with_caller(call.caller@, call.function_args@));
    let contract = copy_range(call.execution_contract.as_slice(), 0, call.execution_contract.len());
    let function_name = copy_range(call.function_name.as_slice(), 0, call.function_name.len());
    let origin = copy_range(tx_id, 0, tx_id.len());
    assert(contract@ =~= call.execution_contract@);
    assert(function_name@ =~= call.function_name@);
    assert(origin@ =~= tx_id@);
    let mut parts: Vec<Vec<u8>> = Vec::new();
    parts.push(to_decimal(call_chain_id));
    parts.push(to_decimal(call.execution_chain_id));
    parts.push(contract);
    parts.push(function_name);
    parts.push(forwarded);
    parts.push(to_decimal(nonce));
    parts.push(origin);
    parts.push(to_decimal(height));
    assert(views(parts@) =~= seq![
        decimal(call_chain_id),
        decimal(call.execution_chain_id),
        call.execution_contract@,
        call.function_name@,
        arguments_with_caller(call.caller@, call.function_args@),
        decimal(nonce),
        tx_id@,
        decimal(height),
    ]);
    let sep = separator_bytes();
    join_bytes(&parts, sep.as_slice())
}

impl Emitter {
    /// Constructs the emitter. `initialized` says whether the program was
    /// constructed before; `this` is its own identifier.
    pub fn construct(
        initialized: bool,
        this: Vec<u8>,
        multisig: Vec<u8>,
        pauser: Vec<u8>,
        call_chain_id: i64,
    ) -> (r: Result<Emitter, Error>)
        ensures
            match r {
                Ok(x) => emitter_construct_step(
                    initialized,
                    this@,
                    multisig@,
                    pauser@,
                    call_chain_id,
                ) == Ok::<EmitterState, Error>(x@),
                Err(e) => emitter_construct_step(
                    initialized,
                    this@,
                    multisig@,
                    pauser@,
                    call_chain_id,
                ) == Err::<EmitterState, Error>(e),
            },
    {
        let guard = match Guard::construct(initialized, this, multisig, pauser) {
            Ok(g) => g,
            Err(e) => {
                return Err(e);
            },
        };
        if call_chain_id <= 0 {
            return Err(Error::InvalidChainId);
        }
        Ok(Emitter { guard, call_chain_id, nonce: 0, event_size: 0 })
    }

    /// Emits the event for `call`. `allowance` is the reading of the
    /// caller's allowance entry, `tx_id` the text of the current
    /// transaction's identifier and `height` the current block height.
    pub fn call(
        &mut self,
        allowance: &Allowance,
        call: &OutboundCall,
        tx_id: &[u8],
        height: i64,
    ) -> (r: Result<Event, Error>)
        ensures
            match call_step(old(self)@, allowance.allows(call@.caller), call@, tx_id@, height) {
                Ok((after, event)) => {
                    &&& final(self)@ == after
                    &&& r is Ok
                    &&& r->Ok_0@ == event
                },
                Err(e) => {
                    &&& final(self)@ == old(self)@
                    &&& r is Err
                    &&& r->Err_0 == e
                },
            },
    {
        if call.caller.len() == 0 {
            return Err(Error::CallerNotProgram);
        }
        if !(allowance.allowed && bytes_eq(allowance.caller.as_slice(), call.caller.as_slice())) {
            return Err(Error::NotAllowed);
        }
        if self.guard.paused {
            return Err(Error::Paused);
        }
        if call.execution_chain_id <= 0 {
            return Err(Error::InvalidChainId);
        }
        if call.execution_contract.len() == 0 {
            return Err(Error::EmptyContract);
        }
        if call.function_name.len() == 0 {
            return Err(Error::EmptyFunctionName);
        }
        if call.function_args.len() == 0 {
            return Err(Error::EmptyArguments);
        }
        if self.nonce == i64::MAX || self.event_size == i64::MAX {
            return Err(Error::CounterOverflow);
        }
        let record = build_event_record(self.call_chain_id, call, self.nonce, tx_id, height);
        let index = self.event_size;
        self.event_size = self.event_size + 1;
        self.nonce = self.nonce + 1;
        Ok(Event { index, record })
    }

    /// Grants `caller_id` an allowance. Returns the entry to store for it.
    pub fn allow(&self, confirmation: &Confirmation, tx_id: &[u8], caller_id: &[u8]) -> (r: Result<
        bool,
        Error,
    >)
        ensures
            r == allowance_step(self.guard.admits(confirmation, tx_id@), caller_id@, true),
    {
        if !self.guard.authorized(confirmation, tx_id) {
            return Err(Error::NotConfirmed);
        }
        if !validate_contract(caller_id) {
            return Err(Error::InvalidCaller);
        }
        Ok(true)
    }

    /// Withdraws the allowance of `caller_id`. Returns the entry to store
    /// for it.
    pub fn disallow(&self, confirmation: &Confirmation, tx_id: &[u8], caller_id: &[u8]) -> (r:
        Result<bool, Error>)
        ensures
            r == allowance_step(
                self.guard.admits(confirmation, tx_id@),
                caller_id@,
                false,
            ),
    {
        if !self.guard.authorized(confirmation, tx_id) {
            return Err(Error::NotConfirmed);
        }
        if !validate_contract(caller_id) {
            return Err(Error::InvalidCaller);
        }
        Ok(false)
    }

    /// Halts the emitter; see [`Guard::pause`].
    pub fn pause(&mut self, sender: &[u8], caller: &[u8]) -> (r: Result<(), Error>)
        ensures
            match pause_step(old(self)@.guard, sender@, caller@) {
                Ok(g) => r is Ok && final(self)@ == (EmitterState { guard: g, ..old(self)@ }),
                Err(e) => r == Err::<(), Error>(e) && final(self)@ == old(self)@,
            },
    {
        self.guard.pause(sender, caller)
    }

    /// Resumes the emitter; see [`Guard::unpause`].
    pub fn unpause(&mut self, sender: &[u8], caller: &[u8]) -> (r: Result<(), Error>)
        ensures
            match unpause_step(old(self)@.guard, sender@, caller@) {
                Ok(g) => r is Ok && final(self)@ == (EmitterState { guard: g, ..old(self)@ }),
                Err(e) => r == Err::<(), Error>(e) && final(self)@ == old(self)@,
            },
    {
        self.guard.unpause(sender, caller)
    }

    /// Replaces the pauser; see [`Guard::update_pauser`].
    pub fn update_pauser(
        &mut self,
        confirmation: &Confirmation,
        tx_id: &[u8],
        new_pauser: Vec<u8>,
    ) -> (r: Result<(), Error>)
        ensures
            match update_pauser_step(
                old(self)@.guard,
                old(self).guard.admits(confirmation, tx_id@),
                new_pauser@,
            ) {
                Ok(g) => r is Ok && final(self)@ == (EmitterState { guard: g, ..old(self)@ }),
                Err(e) => r == Err::<(), Error>(e) && final(self)@ == old(self)@,
            },
    {
        self.guard.update_pauser(confirmation, tx_id, new_pauser)
    }

    /// Replaces the authority; see [`Guard::update_multisig`].
    pub fn update_multisig(
        &mut self,
        confirmation: &Confirmation,
        tx_id: &[u8],
        new_multisig: Vec<u8>,
    ) -> (r: Result<(), Error>)
        ensures
            match update_multisig_step(
                old(self)@.guard,
                old(self).guard.admits(confirmation, tx_id@),
                new_multisig@,
            ) {
                Ok(g) => r is Ok && final(self)@ == (EmitterState { guard: g, ..old(self)@ }),
                Err(e) => r == Err::<(), Error>(e) && final(self)@ == old(self)@,
            },
    {
        self.guard.update_multisig(confirmation, tx_id, new_multisig)
    }
}

} // verus!
