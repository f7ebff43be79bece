//! The stable error codes that the lifecycle operations return. Every failure
//! is one of these named codes, so callers can branch on it programmatically.

use vstd::prelude::*;

verus! {

/// Why a lifecycle operation refused to run, as a stable code.
#[derive(Clone, Copy, Debug, PartialEq, Eq, Structural)]
pub enum ErrorCode {
    /// The registry was already bootstrapped.
    AlreadyInitialized,
    /// A raffle was requested with a zero entry fee.
    InvalidEntryFee,
    /// A raffle was requested with a capacity of one or fewer entries.
    InvalidMaxEntries,
    /// A raffle was requested over the default (null) asset reference.
    InvalidNftMint,
    /// A raffle was requested with an expiry not strictly in the future.
    InvalidExpiryDate,
    /// The caller is not the identity the operation requires.
    Unauthorized,
    /// The raffle is no longer active.
    RaffleNotActive,
    /// The given raffle id does not match the loaded record.
    RaffleNotFound,
    /// The offered payment is below the raffle's entry fee.
    InvalidRaffleEntryFee,
    /// The entry list already holds `max_entries` participants.
    MaxEntriesReached,
    /// The caller is already in the entry list.
    AlreadyEntered,
    /// The raffle's expiry time has been reached, so entry is closed.
    RaffleExpired,
    /// Winner selection needs at least one entry.
    NotEnoughEntries,
    /// The raffle cannot be picked before its expiry time.
    RaffleNotExpired,
    /// A raffle with entries cannot be closed without a winner.
    CannotCloseRaffleWithEntries,
    /// The record's reentrancy lock is held by an operation in flight.
    OperationLocked,
    /// Settlement cannot run while the raffle is still active.
    RaffleStillActive,
    /// Settlement needs a selected winner.
    NoWinnerSelected,
    /// The ledger's fund transfer failed; no record state was changed.
    TransferFailed,
}

} // verus!
