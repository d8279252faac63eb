//! Why an action was refused.

use vstd::prelude::*;

verus! {

/// The reason an action reverts. Every failure is fatal to the transaction
/// and leaves the state as it was.
#[derive(Clone, Copy, Debug, PartialEq, Eq, Structural)]
pub enum Error {
    /// The program was constructed before.
    AlreadyInitialized,
    /// An owner is not a 32-byte program identifier.
    InvalidOwner,
    /// An owner occurs twice in the list.
    DuplicateOwner,
    /// The quorum is zero or negative.
    QuorumNotPositive,
    /// The quorum is larger than the number of owners.
    QuorumExceedsOwners,
    /// The authority has not confirmed this action of this program.
    NotConfirmed,
    /// The owner to add is already a member.
    OwnerExists,
    /// The owner to remove is not a member.
    OwnerMissing,
    /// Removing the owner would leave no owner.
    LastOwner,
    /// An action that only a transaction's sender may take arrived through
    /// another program.
    RelayedCall,
    /// The target of a confirmation is not a 32-byte program identifier.
    InvalidTarget,
    /// The action of a confirmation is not a 32-byte identifier.
    InvalidTransactionId,
    /// The sender is not an owner.
    NotOwner,
    /// The sender has confirmed this action before.
    AlreadyConfirmedByCaller,
    /// The action is fully confirmed; its confirmations are final.
    AlreadyConfirmed,
    /// The sender has not confirmed this action.
    NotConfirmedByCaller,
    /// The authority is not a 32-byte program identifier.
    InvalidMultisig,
    /// The pauser is not a ledger address.
    InvalidPauser,
    /// The chain identifier is zero or negative.
    InvalidChainId,
    /// The signer's public key does not have 32 bytes.
    InvalidSignerKey,
    /// The program is paused.
    Paused,
    /// The program is not paused.
    NotPaused,
    /// The sender is not the pauser.
    NotPauser,
    /// The destination of a relayed call is not a 32-byte program identifier.
    InvalidContract,
    /// The relayed call is bound to another chain.
    ChainMismatch,
    /// A signature does not have 64 bytes.
    InvalidSignatureLength,
    /// A signature does not verify.
    InvalidSignature,
    /// The payload was relayed before.
    DuplicateData,
    /// The old key's signature does not have 64 bytes.
    InvalidOldSignatureLength,
    /// The new key's signature does not have 64 bytes.
    InvalidNewSignatureLength,
    /// The old key's signature over the migration-allowed message does not
    /// verify.
    InvalidOldSignature,
    /// The new key's signature over the migration-confirmed message does not
    /// verify.
    InvalidNewSignature,
    /// An outbound call was requested by a transaction, not by a program.
    CallerNotProgram,
    /// The calling program has no allowance.
    NotAllowed,
    /// The destination program of an outbound call is empty.
    EmptyContract,
    /// The function name of an outbound call is empty.
    EmptyFunctionName,
    /// The arguments of an outbound call are empty.
    EmptyArguments,
    /// The program to allow or disallow is not a 32-byte identifier.
    InvalidCaller,
    /// The event counter or the nonce cannot be incremented.
    CounterOverflow,
}

} // verus!
