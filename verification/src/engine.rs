//! The lifecycle operations. Each operation has a spec-level description —
//! a check function giving the exact error for every rejected input, and a
//! transition function giving the exact successor state — and an executable
//! function proved to match it. Validation always runs before any write, so
//! a failing operation leaves its record exactly as it was.
//!
//! The ledger runtime supplies the plain values the engine cannot know
//! itself: the verified caller identity, the current time, the current slot
//! counter, and the outcome of the fund transfer made between the two halves
//! of entry admission.

use vstd::prelude::*;

use crate::errors::ErrorCode;
use crate::state::{AssetId, Identity, ProgramState, Raffle, RaffleView};

verus! {

// --- registry bootstrap ---------------------------------------------------

/// Whether bootstrap is allowed: exactly when it has never run.
pub open spec fn initialize_result(pre: ProgramState) -> Result<(), ErrorCode> {
    if pre.initialized {
        Err(ErrorCode::AlreadyInitialized)
    } else {
        Ok(())
    }
}

/// The registry after a bootstrap attempt by `deployer`.
pub open spec fn initialize_next(pre: ProgramState, deployer: Identity) -> ProgramState {
    if pre.initialized {
        pre
    } else {
        ProgramState { initialized: true, raffle_count: 0, deployer }
    }
}

/// Bootstraps the registry: records `deployer` and starts the raffle count
/// at zero. Succeeds exactly once; every later call fails with
/// `AlreadyInitialized` and leaves the registry untouched.
pub fn initialize(state: &mut ProgramState, deployer: Identity) -> (result: Result<
    (),
    ErrorCode,
>)
    ensures
        result == initialize_result(*old(state)),
        *final(state) == initialize_next(*old(state), deployer),
        result is Ok <==> !old(state).initialized,
        final(state).initialized,
{
    if state.initialized {
        return Err(ErrorCode::AlreadyInitialized);
    }
    state.raffle_count = 0;
    state.deployer = deployer;
    state.initialized = true;
    Ok(())
}

// --- raffle creation ------------------------------------------------------

/// The validation a creation request must pass, with the exact error for
/// each way it can fail, in the order the checks are made.
pub open spec fn create_check(
    nft_mint: AssetId,
    entry_fee: u64,
    max_entries: u8,
    expiry_date: i64,
    now: i64,
) -> Result<(), ErrorCode> {
    if entry_fee == 0 {
        Err(ErrorCode::InvalidEntryFee)
    } else if max_entries <= 1 {
        Err(ErrorCode::InvalidMaxEntries)
    } else if nft_mint.is_default() {
        Err(ErrorCode::InvalidNftMint)
    } else if expiry_date <= now {
        Err(ErrorCode::InvalidExpiryDate)
    } else {
        Ok(())
    }
}

/// The record a successful creation allocates: id `raffle_count + 1`, an
/// empty entry list, no winner staged or final, active and unlocked.
pub open spec fn created_raffle(
    pre: ProgramState,
    creator: Identity,
    nft_mint: AssetId,
    entry_fee: u64,
    max_entries: u8,
    expiry_date: i64,
) -> RaffleView {
    RaffleView {
        cid: (pre.raffle_count + 1) as u64,
        creator,
        nft_mint,
        entry_fee,
        max_entries,
        entries: Seq::empty(),
        partial_winner: None,
        winner: None,
        active: true,
        locked: false,
        expiry_date,
    }
}

/// Creates a raffle under a fresh id issued by the registry. On success the
/// registry's count rises by exactly one and the returned record carries
/// that new count as its id; on failure the registry is untouched.
pub fn initialize_raffle(
    state: &mut ProgramState,
    creator: Identity,
    nft_mint: AssetId,
    entry_fee: u64,
    max_entries: u8,
    expiry_date: i64,
    now: i64,
) -> (result: Result<Raffle, ErrorCode>)
    requires
        old(state).initialized,
        old(state).raffle_count < u64::MAX,
    ensures
        result is Ok <==> create_check(nft_mint, entry_fee, max_entries, expiry_date, now)
            is Ok,
        result matches Err(e) ==> create_check(nft_mint, entry_fee, max_entries, expiry_date, now)
            == Err::<(), ErrorCode>(e) && *final(state) == *old(state),
        result matches Ok(r) ==> {
            &&& r@ == created_raffle(
                *old(state),
                creator,
                nft_mint,
                entry_fee,
                max_entries,
                expiry_date,
            )
            &&& r.cid == old(state).raffle_count + 1
            &&& r.wf()
            &&& *final(state) == (ProgramState {
                raffle_count: (old(state).raffle_count + 1) as u64,
                ..*old(state)
            })
        },
        final(state).raffle_count >= old(state).raffle_count,
{
    if entry_fee == 0 {
        return Err(ErrorCode::InvalidEntryFee);
    }
    if max_entries <= 1 {
        return Err(ErrorCode::InvalidMaxEntries);
    }
    if nft_mint.id == 0 {
        return Err(ErrorCode::InvalidNftMint);
    }
    if expiry_date <= now {
        return Err(ErrorCode::InvalidExpiryDate);
    }

    state.raffle_count = state.raffle_count + 1;
    let raffle = Raffle {
        cid: state.raffle_count,
        creator,
        nft_mint,
        entry_fee,
        max_entries,
        entries: Vec::new(),
        partial_winner: None,
        winner: None,
        active: true,
        locked: false,
        expiry_date,
    };
    proof {
        assert(raffle@ =~= created_raffle(
            *old(state),
            creator,
            nft_mint,
            entry_fee,
            max_entries,
            expiry_date,
        ));
    }
    Ok(raffle)
}

// --- entry admission ------------------------------------------------------

/// The validation an entry request must pass, with the exact error for each
/// way it can fail, in the order the checks are made. The reentrancy lock is
/// tested first: a record mid-admission admits nobody.
pub open spec fn enter_check(
    pre: RaffleView,
    cid: u64,
    amount: u64,
    user: Identity,
    now: i64,
) -> Result<(), ErrorCode> {
    if pre.locked {
        Err(ErrorCode::OperationLocked)
    } else if !pre.active {
        Err(ErrorCode::RaffleNotActive)
    } else if pre.cid != cid {
        Err(ErrorCode::RaffleNotFound)
    } else if amount < pre.entry_fee {
        Err(ErrorCode::InvalidRaffleEntryFee)
    } else if pre.entries.len() >= pre.max_entries {
        Err(ErrorCode::MaxEntriesReached)
    } else if pre.entries.contains(user) {
        Err(ErrorCode::AlreadyEntered)
    } else if now >= pre.expiry_date {
        Err(ErrorCode::RaffleExpired)
    } else {
        Ok(())
    }
}

/// The record after the first half of admission: locked while the fund
/// transfer is in flight if the request passed validation, untouched if not.
pub open spec fn enter_begin_next(
    pre: RaffleView,
    cid: u64,
    amount: u64,
    user: Identity,
    now: i64,
) -> RaffleView {
    if enter_check(pre, cid, amount, user, now) is Ok {
        RaffleView { locked: true, ..pre }
    } else {
        pre
    }
}

/// The record after the second half of admission: the participant appended
/// if the transfer went through, and the lock released either way.
pub open spec fn enter_commit_next(pre: RaffleView, user: Identity, transfer_ok: bool) -> RaffleView {
    if transfer_ok {
        RaffleView { entries: pre.entries.push(user), locked: false, ..pre }
    } else {
        RaffleView { locked: false, ..pre }
    }
}

/// The result the second half of admission reports for a transfer outcome.
pub open spec fn enter_commit_result(transfer_ok: bool) -> Result<(), ErrorCode> {
    if transfer_ok {
        Ok(())
    } else {
        Err(ErrorCode::TransferFailed)
    }
}

/// The first half of entry admission: validates the request and, exactly
/// when every check passes, takes the reentrancy lock for the duration of
/// the fund transfer. A rejected request leaves the record untouched, lock
/// included. On success the caller must move `amount` from `user` to the
/// raffle's escrow and then finish with [`enter_raffle_commit`].
pub fn enter_raffle_begin(
    raffle: &mut Raffle,
    cid: u64,
    amount: u64,
    user: Identity,
    now: i64,
) -> (result: Result<(), ErrorCode>)
    requires
        old(raffle).wf(),
    ensures
        result == enter_check(old(raffle)@, cid, amount, user, now),
        final(raffle)@ == enter_begin_next(old(raffle)@, cid, amount, user, now),
        result is Err ==> *final(raffle) == *old(raffle),
        result is Ok ==> final(raffle)@.locked && !old(raffle)@.locked,
        final(raffle).wf(),
{
    if raffle.locked {
        return Err(ErrorCode::OperationLocked);
    }
    if !raffle.active {
        return Err(ErrorCode::RaffleNotActive);
    }
    if raffle.cid != cid {
        return Err(ErrorCode::RaffleNotFound);
    }
    if amount < raffle.entry_fee {
        return Err(ErrorCode::InvalidRaffleEntryFee);
    }
    if raffle.entries.len() >= raffle.max_entries as usize {
        return Err(ErrorCode::MaxEntriesReached);
    }
    if raffle.has_entered(user) {
        return Err(ErrorCode::AlreadyEntered);
    }
    if now >= raffle.expiry_date {
        return Err(ErrorCode::RaffleExpired);
    }
    raffle.locked = true;
    Ok(())
}

/// The second half of entry admission, run after the fund transfer that
/// [`enter_raffle_begin`] authorized. If the transfer went through, `user`
/// is appended to the entry list; if not, the record is left as it was and
/// the failure is reported as `TransferFailed`. The reentrancy lock is
/// released on both paths, so it is never left held across calls.
pub fn enter_raffle_commit(raffle: &mut Raffle, user: Identity, transfer_ok: bool) -> (result:
    Result<(), ErrorCode>)
    requires
        old(raffle).wf(),
        old(raffle)@.locked,
        old(raffle)@.entries.len() < old(raffle)@.max_entries,
        !old(raffle)@.entries.contains(user),
    ensures
        result == enter_commit_result(transfer_ok),
        final(raffle)@ == enter_commit_next(old(raffle)@, user, transfer_ok),
        !final(raffle)@.locked,
        final(raffle).wf(),
{
    if !transfer_ok {
        raffle.locked = false;
        return Err(ErrorCode::TransferFailed);
    }
    raffle.entries.push(user);
    raffle.locked = false;
    proof {
        let pre = old(raffle)@;
        let post = raffle@;
        assert(post.entries =~= pre.entries.push(user));
        assert forall|i: int, j: int|
            0 <= i < j < post.entries.len() implies post.entries[i] != post.entries[j] by {
            if j < pre.entries.len() {
                assert(pre.entries[i] != pre.entries[j]);
            } else {
                assert(post.entries[j] == user);
                assert(pre.entries[i] == post.entries[i]);
                assert(!pre.entries.contains(user));
            }
        }
        match pre.partial_winner {
            Some(w) => {
                let k = choose|k: int| 0 <= k < pre.entries.len() && pre.entries[k] == w;
                assert(post.entries[k] == w);
                assert(post.entries.contains(w));
            },
            None => {},
        }
    }
    Ok(())
}

// --- winner selection -----------------------------------------------------

/// The notification a successful winner selection hands back for the ledger
/// runtime to broadcast: which raffle, and who was drawn.
#[derive(Clone, Copy, Debug, PartialEq, Eq, Structural)]
pub struct WinnerSelected {
    pub raffle: u64,
    pub winner: Identity,
}

/// The validation a winner-selection request must pass, with the exact
/// error for each way it can fail, in the order the checks are made.
pub open spec fn pick_check(pre: RaffleView, cid: u64, caller: Identity, now: i64) -> Result<
    (),
    ErrorCode,
> {
    if pre.creator != caller {
        Err(ErrorCode::Unauthorized)
    } else if !pre.active {
        Err(ErrorCode::RaffleNotActive)
    } else if pre.cid != cid {
        Err(ErrorCode::RaffleNotFound)
    } else if pre.entries.len() == 0 {
        Err(ErrorCode::NotEnoughEntries)
    } else if now < pre.expiry_date {
        Err(ErrorCode::RaffleNotExpired)
    } else {
        Ok(())
    }
}

/// The entry-list index the draw lands on: the slot counter taken modulo
/// the number of entries. The slot is a weak entropy source — whoever times
/// block production can influence it — and that is a documented property of
/// this design, kept for compatibility.
pub open spec fn picked_index(pre: RaffleView, slot: u64) -> int {
    (slot as int) % (pre.entries.len() as int)
}

/// The record after a winner-selection attempt: the drawn participant is
/// staged in `partial_winner` on success; nothing else changes, and the
/// raffle stays active until settlement.
pub open spec fn pick_next(
    pre: RaffleView,
    cid: u64,
    caller: Identity,
    now: i64,
    slot: u64,
) -> RaffleView {
    if pick_check(pre, cid, caller, now) is Ok {
        RaffleView { partial_winner: Some(pre.entries[picked_index(pre, slot)]), ..pre }
    } else {
        pre
    }
}

/// Draws a winner for an expired, non-empty raffle, on the creator's
/// request. The drawn identity — always one of the entries — is staged in
/// `partial_winner`, and the returned notification names it; the raffle is
/// not deactivated and nothing is transferred yet.
pub fn pick_winner(raffle: &mut Raffle, cid: u64, caller: Identity, now: i64, slot: u64) -> (result:
    Result<WinnerSelected, ErrorCode>)
    requires
        old(raffle).wf(),
    ensures
        final(raffle)@ == pick_next(old(raffle)@, cid, caller, now, slot),
        result is Ok <==> pick_check(old(raffle)@, cid, caller, now) is Ok,
        result matches Err(e) ==> pick_check(old(raffle)@, cid, caller, now) == Err::<(), ErrorCode>(e)
            && *final(raffle) == *old(raffle),
        result matches Ok(ev) ==> {
            &&& ev.raffle == cid
            &&& ev.winner == old(raffle)@.entries[picked_index(old(raffle)@, slot)]
            &&& old(raffle)@.entries.contains(ev.winner)
            &&& final(raffle)@.partial_winner == Some(ev.winner)
        },
        final(raffle).wf(),
{
    if raffle.creator != caller {
        return Err(ErrorCode::Unauthorized);
    }
    if !raffle.active {
        return Err(ErrorCode::RaffleNotActive);
    }
    if raffle.cid != cid {
        return Err(ErrorCode::RaffleNotFound);
    }
    if raffle.entries.len() == 0 {
        return Err(ErrorCode::NotEnoughEntries);
    }
    if now < raffle.expiry_date {
        return Err(ErrorCode::RaffleNotExpired);
    }

    let len: u64 = raffle.entries.len() as u64;
    let index: usize = (slot % len) as usize;
    let winner: Identity = raffle.entries[index];
    raffle.partial_winner = Some(winner);
    Ok(WinnerSelected { raffle: cid, winner })
}

// --- closure ---------------------------------------------------------------

/// The validation a closure request must pass, with the exact error for
/// each way it can fail, in the order the checks are made. A raffle with
/// even one entry can never be closed this way.
pub open spec fn close_check(pre: RaffleView, cid: u64, caller: Identity) -> Result<
    (),
    ErrorCode,
> {
    if pre.creator != caller {
        Err(ErrorCode::Unauthorized)
    } else if !pre.active {
        Err(ErrorCode::RaffleNotActive)
    } else if pre.cid != cid {
        Err(ErrorCode::RaffleNotFound)
    } else if pre.entries.len() != 0 {
        Err(ErrorCode::CannotCloseRaffleWithEntries)
    } else {
        Ok(())
    }
}

/// The record after a closure attempt: deactivated on success, untouched on
/// failure.
pub open spec fn close_next(pre: RaffleView, cid: u64, caller: Identity) -> RaffleView {
    if close_check(pre, cid, caller) is Ok {
        RaffleView { active: false, ..pre }
    } else {
        pre
    }
}

/// Closes a raffle nobody entered, on the creator's request, by
/// deactivating it. Irreversible; a raffle that holds entries is refused
/// and must go through winner selection and claim instead.
pub fn close_raffle(raffle: &mut Raffle, cid: u64, caller: Identity) -> (result: Result<
    (),
    ErrorCode,
>)
    requires
        old(raffle).wf(),
    ensures
        result == close_check(old(raffle)@, cid, caller),
        final(raffle)@ == close_next(old(raffle)@, cid, caller),
        result is Err ==> *final(raffle) == *old(raffle),
        final(raffle).wf(),
{
    if raffle.creator != caller {
        return Err(ErrorCode::Unauthorized);
    }
    if !raffle.active {
        return Err(ErrorCode::RaffleNotActive);
    }
    if raffle.cid != cid {
        return Err(ErrorCode::RaffleNotFound);
    }
    if raffle.entries.len() != 0 {
        return Err(ErrorCode::CannotCloseRaffleWithEntries);
    }
    raffle.active = false;
    Ok(())
}

// --- claim & settlement ----------------------------------------------------

/// The validation a claim request must pass, with the exact error for each
/// way it can fail, in the order the checks are made: settlement is only
/// for an inactive raffle whose winner has been staged.
pub open spec fn claim_check(pre: RaffleView, cid: u64, caller: Identity) -> Result<
    (),
    ErrorCode,
> {
    if pre.creator != caller {
        Err(ErrorCode::Unauthorized)
    } else if pre.cid != cid {
        Err(ErrorCode::RaffleNotFound)
    } else if pre.active {
        Err(ErrorCode::RaffleStillActive)
    } else if pre.partial_winner is None {
        Err(ErrorCode::NoWinnerSelected)
    } else {
        Ok(())
    }
}

/// The record after settlement: the staged winner becomes final and the
/// raffle stays inactive; nothing else changes.
pub open spec fn claim_next(pre: RaffleView) -> RaffleView {
    RaffleView { winner: pre.partial_winner, active: false, ..pre }
}

/// Decides whether a claim may settle, without touching the record. Only
/// when this returns `Ok` may the caller perform the asset transfer and the
/// escrow sweep, and then commit the outcome with [`claim_nft_finalize`];
/// if either transfer fails, the record is simply not finalized, so a
/// failed claim changes nothing.
pub fn claim_nft_check(raffle: &Raffle, cid: u64, caller: Identity) -> (result: Result<
    (),
    ErrorCode,
>)
    ensures
        result == claim_check(raffle@, cid, caller),
        result is Ok <==> {
            &&& raffle@.creator == caller
            &&& raffle@.cid == cid
            &&& !raffle@.active
            &&& raffle@.partial_winner is Some
        },
{
    if raffle.creator != caller {
        return Err(ErrorCode::Unauthorized);
    }
    if raffle.cid != cid {
        return Err(ErrorCode::RaffleNotFound);
    }
    if raffle.active {
        return Err(ErrorCode::RaffleStillActive);
    }
    match raffle.partial_winner {
        None => Err(ErrorCode::NoWinnerSelected),
        Some(_) => Ok(()),
    }
}

/// Commits a settlement whose transfers both succeeded: the staged winner
/// becomes the final winner, for good. Must only follow a `Ok` from
/// [`claim_nft_check`] and the successful asset and escrow transfers.
pub fn claim_nft_finalize(raffle: &mut Raffle)
    requires
        old(raffle).wf(),
        !old(raffle)@.active,
        old(raffle)@.partial_winner is Some,
    ensures
        final(raffle)@ == claim_next(old(raffle)@),
        final(raffle)@.winner == old(raffle)@.partial_winner,
        final(raffle).wf(),
{
    raffle.winner = raffle.partial_winner;
    raffle.active = false;
}

/// How much of the raffle's escrowed balance settlement sweeps to the
/// creator: everything above the minimum balance the ledger requires the
/// record to retain.
pub fn escrow_sweep_amount(balance: u64, min_retained: u64) -> (amount: u64)
    ensures
        balance > min_retained ==> amount == balance - min_retained,
        balance <= min_retained ==> amount == 0,
{
    if balance > min_retained {
        balance - min_retained
    } else {
        0
    }
}

} // verus!
