//! The persisted records: the singleton registry (`ProgramState`) and one
//! `Raffle` record per raffle, together with their mathematical views and
//! well-formedness invariants.

use vstd::prelude::*;

verus! {

/// A principal: the ledger runtime has already verified the caller's
/// signature, so the engine only ever compares identities for equality.
#[derive(Clone, Copy, Debug, PartialEq, Eq, Structural)]
pub struct Identity {
    pub key: u64,
}

/// A stable reference to the non-fungible asset under escrow. The id `0`
/// stands for the default (null) reference and never names a real asset.
#[derive(Clone, Copy, Debug, PartialEq, Eq, Structural)]
pub struct AssetId {
    pub id: u64,
}

impl AssetId {
    /// The default (null) asset reference, rejected at raffle creation.
    pub open spec fn is_default(self) -> bool {
        self.id == 0
    }
}

/// The singleton registry: bootstrapped exactly once, it counts raffles and
/// so supplies each new raffle's identifier.
#[derive(Clone, Copy, Debug, PartialEq, Eq, Structural)]
pub struct ProgramState {
    /// Whether bootstrap has run; it may run exactly once.
    pub initialized: bool,
    /// How many raffles have been created; the next raffle gets id
    /// `raffle_count + 1`.
    pub raffle_count: u64,
    /// The identity that performed bootstrap.
    pub deployer: Identity,
}

/// One raffle's full lifecycle state.
#[derive(Clone, Debug, PartialEq, Eq)]
pub struct Raffle {
    /// This raffle's identifier, issued by the registry at creation.
    pub cid: u64,
    /// The creator, who alone may pick the winner, close, and settle.
    pub creator: Identity,
    /// The asset to be won.
    pub nft_mint: AssetId,
    /// What each participant must pay to enter; always positive.
    pub entry_fee: u64,
    /// The capacity of the entry list; always greater than one.
    pub max_entries: u8,
    /// The paying participants, in order of admission, all distinct.
    pub entries: Vec<Identity>,
    /// The winner staged by selection, before settlement.
    pub partial_winner: Option<Identity>,
    /// The winner finalized by settlement; set once and never changed.
    pub winner: Option<Identity>,
    /// True from creation until the raffle is closed empty or settled.
    pub active: bool,
    /// The reentrancy guard held across the entry-admission fund transfer.
    pub locked: bool,
    /// The moment entry closes and winner selection opens.
    pub expiry_date: i64,
}

/// The mathematical value of a `Raffle` record: the same fields, with the
/// entry list abstracted to a sequence.
#[verifier::ext_equal]
pub ghost struct RaffleView {
    pub cid: u64,
    pub creator: Identity,
    pub nft_mint: AssetId,
    pub entry_fee: u64,
    pub max_entries: u8,
    pub entries: Seq<Identity>,
    pub partial_winner: Option<Identity>,
    pub winner: Option<Identity>,
    pub active: bool,
    pub locked: bool,
    pub expiry_date: i64,
}

impl View for Raffle {
    type V = RaffleView;

    open spec fn view(&self) -> RaffleView {
        RaffleView {
            cid: self.cid,
            creator: self.creator,
            nft_mint: self.nft_mint,
            entry_fee: self.entry_fee,
            max_entries: self.max_entries,
            entries: self.entries@,
            partial_winner: self.partial_winner,
            winner: self.winner,
            active: self.active,
            locked: self.locked,
            expiry_date: self.expiry_date,
        }
    }
}

impl RaffleView {
    /// No identity occurs twice in the entry list.
    pub open spec fn entries_distinct(self) -> bool {
        forall|i: int, j: int|
            0 <= i < j < self.entries.len() ==> self.entries[i] != self.entries[j]
    }

    /// The record invariant: creation establishes it and every lifecycle
    /// operation preserves it.
    pub open spec fn wf(self) -> bool {
        &&& self.entry_fee > 0
        &&& self.max_entries > 1
        &&& !self.nft_mint.is_default()
        &&& self.entries.len() <= self.max_entries
        &&& self.entries_distinct()
        &&& (self.partial_winner matches Some(w) ==> self.entries.contains(w))
        &&& (self.winner is Some ==> self.winner == self.partial_winner && !self.active)
    }
}

impl Raffle {
    /// The record invariant, read off the record's view.
    pub open spec fn wf(&self) -> bool {
        self@.wf()
    }

    /// Whether `who` has already entered this raffle.
    pub fn has_entered(&self, who: Identity) -> (b: bool)
        ensures
            b == self@.entries.contains(who),
    {
        let mut i: usize = 0;
        while i < self.entries.len()
            invariant
                i <= self.entries.len(),
                forall|k: int| 0 <= k < i ==> self.entries@[k] != who,
            decreases self.entries.len() - i,
        {
            if self.entries[i] == who {
                return true;
            }
            i = i + 1;
        }
        false
    }
}

} // verus!
