//! Creation and admission validation: each refusal code is produced by
//! exactly the input the engine's contracts say, and rejected requests
//! leave the registry untouched.

use raffle::engine::{enter_raffle_begin, initialize, initialize_raffle};
use raffle::errors::ErrorCode;
use raffle::state::{AssetId, Identity, ProgramState, Raffle};

fn ident(key: u64) -> Identity {
    Identity { key }
}

fn fresh_registry() -> ProgramState {
    let mut state = ProgramState {
        initialized: false,
        raffle_count: 0,
        deployer: ident(0),
    };
    initialize(&mut state, ident(1)).unwrap();
    state
}

fn sample_raffle() -> Raffle {
    Raffle {
        cid: 1,
        creator: ident(2),
        nft_mint: AssetId { id: 40 },
        entry_fee: 100,
        max_entries: 3,
        entries: Vec::new(),
        partial_winner: None,
        winner: None,
        active: true,
        locked: false,
        expiry_date: 1_000,
    }
}

#[test]
fn creation_rejects_zero_entry_fee() {
    let mut state = fresh_registry();
    assert_eq!(
        initialize_raffle(&mut state, ident(2), AssetId { id: 40 }, 0, 3, 1_000, 0),
        Err(ErrorCode::InvalidEntryFee)
    );
    assert_eq!(state.raffle_count, 0);
}

#[test]
fn creation_rejects_capacity_of_one_or_zero() {
    let mut state = fresh_registry();
    assert_eq!(
        initialize_raffle(&mut state, ident(2), AssetId { id: 40 }, 100, 1, 1_000, 0),
        Err(ErrorCode::InvalidMaxEntries)
    );
    assert_eq!(
        initialize_raffle(&mut state, ident(2), AssetId { id: 40 }, 100, 0, 1_000, 0),
        Err(ErrorCode::InvalidMaxEntries)
    );
    assert_eq!(state.raffle_count, 0);
}

#[test]
fn creation_accepts_full_capacity() {
    let mut state = fresh_registry();
    let raffle = initialize_raffle(
        &mut state,
        ident(2),
        AssetId { id: 40 },
        100,
        255,
        1_000,
        0,
    )
    .unwrap();
    assert_eq!(raffle.max_entries, 255);
}

#[test]
fn creation_rejects_default_asset() {
    let mut state = fresh_registry();
    assert_eq!(
        initialize_raffle(&mut state, ident(2), AssetId { id: 0 }, 100, 3, 1_000, 0),
        Err(ErrorCode::InvalidNftMint)
    );
    assert_eq!(state.raffle_count, 0);
}

#[test]
fn creation_rejects_expiry_not_in_future() {
    let mut state = fresh_registry();
    assert_eq!(
        initialize_raffle(&mut state, ident(2), AssetId { id: 40 }, 100, 3, 500, 500),
        Err(ErrorCode::InvalidExpiryDate)
    );
    assert_eq!(
        initialize_raffle(&mut state, ident(2), AssetId { id: 40 }, 100, 3, 400, 500),
        Err(ErrorCode::InvalidExpiryDate)
    );
    assert_eq!(state.raffle_count, 0);
}

#[test]
fn creation_checks_run_in_order() {
    // with several fields invalid, the entry fee is reported first
    let mut state = fresh_registry();
    assert_eq!(
        initialize_raffle(&mut state, ident(2), AssetId { id: 0 }, 0, 1, 0, 500),
        Err(ErrorCode::InvalidEntryFee)
    );
}

#[test]
fn admission_rejects_inactive_raffle() {
    let mut raffle = sample_raffle();
    raffle.active = false;
    assert_eq!(
        enter_raffle_begin(&mut raffle, 1, 100, ident(10), 5),
        Err(ErrorCode::RaffleNotActive)
    );
    assert!(!raffle.locked);
}

#[test]
fn admission_rejects_mismatched_id() {
    let mut raffle = sample_raffle();
    assert_eq!(
        enter_raffle_begin(&mut raffle, 2, 100, ident(10), 5),
        Err(ErrorCode::RaffleNotFound)
    );
    assert!(!raffle.locked);
}

#[test]
fn admission_rejects_underpayment() {
    let mut raffle = sample_raffle();
    assert_eq!(
        enter_raffle_begin(&mut raffle, 1, 99, ident(10), 5),
        Err(ErrorCode::InvalidRaffleEntryFee)
    );
    // overpayment is accepted
    assert_eq!(enter_raffle_begin(&mut raffle, 1, 101, ident(10), 5), Ok(()));
}

#[test]
fn admission_rejects_locked_record_first() {
    // the reentrancy lock is tested before everything else
    let mut raffle = sample_raffle();
    raffle.locked = true;
    raffle.active = false;
    assert_eq!(
        enter_raffle_begin(&mut raffle, 9, 0, ident(10), 5_000),
        Err(ErrorCode::OperationLocked)
    );
}
