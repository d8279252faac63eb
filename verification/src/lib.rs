//! Authorization and relay logic of a cross-chain message bridge.
//!
//! Three cooperating ledger programs share this logic: a quorum
//! confirmation engine, a signature-verified relay executor and an
//! allowance-gated event emitter. The host ledger (storage, transaction
//! context, hashing, signature verification, inter-program calls) stays
//! outside: every function here works on plain values that the host hands
//! in, and says in its contract what it returns for each of them.
//!
//! - [`multisig`], [`record`], [`book`]: the owner set, the quorum and the
//!   confirmation records.
//! - [`authority`]: what a program learns from its authority.
//! - [`governance`]: authority, pauser and pause flag of a gated program.
//! - [`executor`], [`payload`]: relayed calls, their canonical bytes and the
//!   replay registry.
//! - [`emitter`]: outbound calls and the event log.
//! - [`keys`], [`members`], [`text`], [`encoding`], [`identity`]: storage
//!   keys, stored lists, byte strings, integers and identifiers.
//! - [`laws`]: what holds of the engines on every input.

pub mod authority;
pub mod book;
pub mod emitter;
pub mod encoding;
pub mod error;
pub mod executor;
pub mod governance;
pub mod identity;
pub mod keys;
pub mod laws;
pub mod members;
pub mod multisig;
pub mod payload;
pub mod record;
pub mod text;
