//! The lifecycle guarantees that span more than one operation, stated over
//! the engine's spec-level transitions and proved once and for all. Each of
//! these holds for every record and every request the engine can see.

use vstd::prelude::*;

use crate::engine::{
    claim_check, claim_next, close_check, close_next, enter_begin_next, enter_check,
    enter_commit_next, initialize_next, initialize_result, pick_check, pick_next,
};
use crate::errors::ErrorCode;
use crate::state::{Identity, ProgramState, RaffleView};

verus! {

/// Bootstrap succeeds at most once: after any successful bootstrap, every
/// further attempt — by any caller — fails with `AlreadyInitialized` and
/// changes nothing.
pub proof fn lemma_initialize_at_most_once(pre: ProgramState, first: Identity, second: Identity)
    ensures
        initialize_result(pre) is Ok ==> initialize_result(initialize_next(pre, first))
            == Err::<(), ErrorCode>(ErrorCode::AlreadyInitialized),
        initialize_result(pre) is Ok ==> initialize_next(initialize_next(pre, first), second)
            == initialize_next(pre, first),
{
}

/// The record invariant spelled out for the entry list: it never exceeds
/// the raffle's capacity and never holds the same identity twice.
pub proof fn lemma_entries_within_capacity(v: RaffleView)
    requires
        v.wf(),
    ensures
        v.entries.len() <= v.max_entries,
        forall|i: int, j: int| 0 <= i < j < v.entries.len() ==> v.entries[i] != v.entries[j],
{
}

/// The reentrancy lock is held only inside one admission: starting from an
/// unlocked record, a rejected request leaves the record — lock included —
/// exactly as it was, and an admitted request holds the lock only until its
/// second half runs, which releases it whatever the transfer outcome.
pub proof fn lemma_entry_lock_discipline(
    pre: RaffleView,
    cid: u64,
    amount: u64,
    user: Identity,
    now: i64,
    transfer_ok: bool,
)
    requires
        !pre.locked,
    ensures
        enter_check(pre, cid, amount, user, now) is Err ==> enter_begin_next(
            pre,
            cid,
            amount,
            user,
            now,
        ) == pre,
        enter_check(pre, cid, amount, user, now) is Ok ==> enter_begin_next(
            pre,
            cid,
            amount,
            user,
            now,
        ).locked,
        !enter_commit_next(
            enter_begin_next(pre, cid, amount, user, now),
            user,
            transfer_ok,
        ).locked,
{
}

/// No failed operation moves a record: a rejected bootstrap leaves the
/// registry alone, a rejected admission, selection or closure leaves the
/// raffle alone, and an admission whose fund transfer fails hands the
/// record back exactly as it stood before the request. (A rejected creation
/// likewise leaves the registry alone, and a claim decides before it
/// touches anything: both are stated on the operations themselves.)
pub proof fn lemma_failed_operations_preserve_state(
    reg: ProgramState,
    deployer: Identity,
    v: RaffleView,
    cid: u64,
    amount: u64,
    user: Identity,
    now: i64,
    slot: u64,
    caller: Identity,
)
    ensures
        initialize_result(reg) is Err ==> initialize_next(reg, deployer) == reg,
        enter_check(v, cid, amount, user, now) is Err ==> enter_begin_next(
            v,
            cid,
            amount,
            user,
            now,
        ) == v,
        enter_check(v, cid, amount, user, now) is Ok ==> enter_commit_next(
            enter_begin_next(v, cid, amount, user, now),
            user,
            false,
        ) == v,
        pick_check(v, cid, caller, now) is Err ==> pick_next(v, cid, caller, now, slot) == v,
        close_check(v, cid, caller) is Err ==> close_next(v, cid, caller) == v,
{
}

/// A finalized winner never changes: once `winner` is set, every transition
/// the engine offers carries it over untouched — settlement itself can only
/// restage the same identity, because a well-formed record's staged and
/// final winners agree.
pub proof fn lemma_winner_immutable(
    v: RaffleView,
    cid: u64,
    amount: u64,
    user: Identity,
    now: i64,
    slot: u64,
    caller: Identity,
    transfer_ok: bool,
)
    requires
        v.wf(),
        v.winner is Some,
    ensures
        enter_begin_next(v, cid, amount, user, now).winner == v.winner,
        enter_commit_next(v, user, transfer_ok).winner == v.winner,
        pick_next(v, cid, caller, now, slot).winner == v.winner,
        close_next(v, cid, caller).winner == v.winner,
        claim_next(v).winner == v.winner,
{
}

/// A raffle that anyone has entered can never end closed-without-winner:
/// closure is refused outright — with `CannotCloseRaffleWithEntries` once
/// the creator's other checks pass — and the record is left untouched.
pub proof fn lemma_nonempty_raffle_never_closed(v: RaffleView, cid: u64, caller: Identity)
    requires
        v.entries.len() > 0,
    ensures
        close_check(v, cid, caller) is Err,
        close_next(v, cid, caller) == v,
        v.creator == caller && v.active && v.cid == cid ==> close_check(v, cid, caller)
            == Err::<(), ErrorCode>(ErrorCode::CannotCloseRaffleWithEntries),
{
}

/// Settlement only ever succeeds on an inactive record with a staged
/// winner, and then makes that staged winner final while the record stays
/// inactive.
pub proof fn lemma_claim_settles_staged_winner(v: RaffleView, cid: u64, caller: Identity)
    requires
        v.wf(),
    ensures
        claim_check(v, cid, caller) is Ok ==> !v.active && v.partial_winner is Some,
        claim_check(v, cid, caller) is Ok ==> claim_next(v).winner == v.partial_winner
            && !claim_next(v).active && claim_next(v).wf(),
{
}

} // verus!
