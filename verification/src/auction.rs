//! The auction record and its lifecycle.
//!
//! An auction moves one way through `Active -> Finalized -> Settled` with a
//! branch to `Cancelled`; no status ever regresses. Winner tracking follows
//! the reveal order: a strictly higher reveal displaces the current highest,
//! and an exactly equal reveal displaces it only when it comes from the first
//! bidder to submit. Every operation takes the current time as an argument
//! and moves no funds itself: it returns what has to be paid, and the caller
//! executes the transfer.

use crate::bid::Bid;
use crate::commitment::bytes32_eq;
use crate::errors::AuctionError;
use vstd::prelude::*;

verus! {

/// Whether settlement is one step (`settle`) or split into winner
/// determination (`finalize`) and disbursement (`complete`).
#[derive(Clone, Copy, Debug, PartialEq, Eq, Structural)]
pub enum SettlementStyle {
    SinglePhase,
    TwoPhase,
}

/// How locked collateral must relate to the revealed amount.
#[derive(Clone, Copy, Debug, PartialEq, Eq, Structural)]
pub enum CollateralRule {
    /// The deposit must equal the revealed amount exactly, and must reach
    /// the reserve price already at submission.
    ExactMatch,
    /// The deposit must cover the revealed amount, but may exceed it.
    AtLeastBid,
}

/// The fixed choices an auction is created with.
#[derive(Clone, Copy, Debug, PartialEq, Eq, Structural)]
pub struct AuctionConfig {
    pub style: SettlementStyle,
    pub collateral: CollateralRule,
}

/// Lifecycle status; transitions are monotonic and one-directional.
#[derive(Clone, Copy, Debug, PartialEq, Eq, Structural)]
pub enum AuctionStatus {
    /// Accepting submissions and reveals.
    Active,
    /// Winner determined, disbursement still owed (two-phase style only).
    Finalized,
    /// Terminal: the sale went through and the seller was paid.
    Settled,
    /// Terminal: no acceptable bid, or cancelled by the seller; the asset
    /// goes back to the seller.
    Cancelled,
}

/// A disbursement owed to the winner and the seller: the caller pays `price`
/// out of escrow custody to the seller and hands the asset to `winner`.
#[derive(Clone, Copy, Debug, PartialEq, Eq)]
pub struct Sale {
    pub winner: [u8; 32],
    pub price: u64,
}

/// What single-phase settlement decided.
#[derive(Clone, Copy, Debug, PartialEq, Eq)]
pub enum SettleOutcome {
    /// Reserve met: execute the sale.
    Sold(Sale),
    /// No reveal reached the reserve price: the asset goes back to the
    /// seller, and every bidder claims their own deposit individually.
    ReserveNotMet,
}

/// What winner determination decided (two-phase style).
#[derive(Clone, Copy, Debug, PartialEq, Eq)]
pub enum FinalizeOutcome {
    /// A winner stands; disbursement follows through `complete_trade`.
    WinnerDetermined(Sale),
    /// No reveal reached the reserve price: the asset goes back to the
    /// seller.
    ReserveNotMet,
}

/// One sale event. `highest_bid` and `highest_bidder` are absent together
/// while no valid reveal exists; `first_bidder` is fixed at the first
/// submission and only serves the tie rule.
#[derive(Clone, Copy, Debug, PartialEq, Eq)]
pub struct Auction {
    pub auction_id: u64,
    pub seller: [u8; 32],
    pub asset: [u8; 32],
    pub asset_amount: u64,
    pub reserve_price: u64,
    pub start_time: u64,
    pub end_time: u64,
    /// A separate reveal window's end, where the configuration has one.
    pub reveal_end_time: Option<u64>,
    pub config: AuctionConfig,
    pub status: AuctionStatus,
    pub highest_bid: Option<u64>,
    pub highest_bidder: Option<[u8; 32]>,
    pub first_bidder: Option<[u8; 32]>,
}

impl Auction {
    /// The moment from which settlement may run and reveals are over: the
    /// reveal deadline where one exists, otherwise the bidding deadline.
    pub open spec fn spec_close_time(&self) -> u64 {
        match self.reveal_end_time {
            Some(r) => r,
            None => self.end_time,
        }
    }

    #[verifier::when_used_as_spec(spec_close_time)]
    pub fn close_time(&self) -> (t: u64)
        ensures
            t == self.spec_close_time(),
    {
        match self.reveal_end_time {
            Some(r) => r,
            None => self.end_time,
        }
    }

    /// Settled and Cancelled are the two terminal statuses.
    pub open spec fn spec_is_terminal(&self) -> bool {
        self.status == AuctionStatus::Settled || self.status == AuctionStatus::Cancelled
    }

    #[verifier::when_used_as_spec(spec_is_terminal)]
    pub fn is_terminal(&self) -> (r: bool)
        ensures
            r == self.spec_is_terminal(),
    {
        self.status == AuctionStatus::Settled || self.status == AuctionStatus::Cancelled
    }

    /// What every constructor establishes and every operation preserves.
    pub open spec fn well_formed(self) -> bool {
        &&& self.start_time < self.end_time
        &&& (self.reveal_end_time matches Some(r) ==> self.end_time < r)
        &&& (self.highest_bid is Some <==> self.highest_bidder is Some)
        &&& (self.config.style == SettlementStyle::SinglePhase ==> self.status
            != AuctionStatus::Finalized)
        &&& ((self.status == AuctionStatus::Finalized || self.status == AuctionStatus::Settled)
            ==> (self.highest_bid matches Some(h) && h >= self.reserve_price))
        &&& self.asset_amount > 0
        &&& self.reserve_price > 0
    }
}

/// True when `x` holds exactly the identity `y`.
pub fn opt_bidder_is(x: &Option<[u8; 32]>, y: &[u8; 32]) -> (r: bool)
    ensures
        r <==> (*x == Some(*y)),
{
    match x {
        Some(v) => bytes32_eq(v, y),
        None => false,
    }
}

/// The auction `create_auction` returns, or why creation is refused.
pub open spec fn create_spec(
    auction_id: u64,
    seller: [u8; 32],
    asset: [u8; 32],
    asset_amount: u64,
    reserve_price: u64,
    config: AuctionConfig,
    now: u64,
    end_time: u64,
    reveal_end_time: Option<u64>,
) -> Result<Auction, AuctionError> {
    if asset_amount == 0 {
        Err(AuctionError::InvalidAmount)
    } else if reserve_price == 0 {
        Err(AuctionError::InvalidPrice)
    } else if end_time <= now {
        Err(AuctionError::InvalidDeadline)
    } else if (reveal_end_time matches Some(r) && r <= end_time) {
        Err(AuctionError::InvalidDeadline)
    } else {
        Ok(
            Auction {
                auction_id,
                seller,
                asset,
                asset_amount,
                reserve_price,
                start_time: now,
                end_time,
                reveal_end_time,
                config,
                status: AuctionStatus::Active,
                highest_bid: None,
                highest_bidder: None,
                first_bidder: None,
            },
        )
    }
}

/// Open a sale: the caller (the seller) locks the asset into escrow custody
/// at the same moment. Deadlines are absolute; the bidding window runs from
/// `now` to `end_time`, and `reveal_end_time`, where given, must lie strictly
/// after it.
pub fn create_auction(
    auction_id: u64,
    seller: [u8; 32],
    asset: [u8; 32],
    asset_amount: u64,
    reserve_price: u64,
    config: AuctionConfig,
    now: u64,
    end_time: u64,
    reveal_end_time: Option<u64>,
) -> (r: Result<Auction, AuctionError>)
    ensures
        r == create_spec(
            auction_id,
            seller,
            asset,
            asset_amount,
            reserve_price,
            config,
            now,
            end_time,
            reveal_end_time,
        ),
        r matches Ok(a) ==> a.well_formed() && a.status == AuctionStatus::Active,
{
    if asset_amount == 0 {
        return Err(AuctionError::InvalidAmount);
    }
    if reserve_price == 0 {
        return Err(AuctionError::InvalidPrice);
    }
    if end_time <= now {
        return Err(AuctionError::InvalidDeadline);
    }
    if let Some(r) = reveal_end_time {
        if r <= end_time {
            return Err(AuctionError::InvalidDeadline);
        }
    }
    Ok(
        Auction {
            auction_id,
            seller,
            asset,
            asset_amount,
            reserve_price,
            start_time: now,
            end_time,
            reveal_end_time,
            config,
            status: AuctionStatus::Active,
            highest_bid: None,
            highest_bidder: None,
            first_bidder: None,
        },
    )
}

/// The winner-tracking rule, applied independently to every verified reveal
/// in arrival order: a strictly higher amount displaces the current highest;
/// an exactly equal amount displaces it only when it comes from the first
/// bidder to submit.
pub open spec fn record_reveal(a: Auction, bidder: [u8; 32], amount: u64) -> Auction {
    match a.highest_bid {
        None => Auction { highest_bid: Some(amount), highest_bidder: Some(bidder), ..a },
        Some(h) => if amount > h {
            Auction { highest_bid: Some(amount), highest_bidder: Some(bidder), ..a }
        } else if amount == h && a.first_bidder == Some(bidder) {
            Auction { highest_bidder: Some(bidder), ..a }
        } else {
            a
        },
    }
}

/// The state and outcome of single-phase settlement.
pub open spec fn settle_spec(a: Auction, now: u64) -> (Auction, Result<
    SettleOutcome,
    AuctionError,
>) {
    if a.status != AuctionStatus::Active {
        (a, Err(AuctionError::AlreadySettled))
    } else if now < a.spec_close_time() {
        (a, Err(AuctionError::AuctionStillActive))
    } else {
        match a.highest_bid {
            Some(h) => if h >= a.reserve_price {
                match a.highest_bidder {
                    Some(w) => (
                        Auction { status: AuctionStatus::Settled, ..a },
                        Ok(SettleOutcome::Sold(Sale { winner: w, price: h })),
                    ),
                    None => (
                        Auction { status: AuctionStatus::Cancelled, ..a },
                        Ok(SettleOutcome::ReserveNotMet),
                    ),
                }
            } else {
                (Auction { status: AuctionStatus::Cancelled, ..a }, Ok(SettleOutcome::ReserveNotMet))
            },
            None => (
                Auction { status: AuctionStatus::Cancelled, ..a },
                Ok(SettleOutcome::ReserveNotMet),
            ),
        }
    }
}

/// Close a single-phase auction once its last window has passed. Anyone may
/// call this, any number of times; only the first success changes anything.
/// On `Sold` the caller pays the price from custody to the seller and the
/// asset to the winner; on `ReserveNotMet` the asset goes back to the seller
/// and every deposit stays in custody for individual claims.
pub fn settle_auction(a: &mut Auction, now: u64) -> (r: Result<SettleOutcome, AuctionError>)
    requires
        old(a).well_formed(),
        old(a).config.style == SettlementStyle::SinglePhase,
    ensures
        (({
            let (post, res) = settle_spec(*old(a), now);
            *final(a) == post && r == res
        })),
        r is Err ==> *final(a) == *old(a),
        final(a).well_formed(),
        r is Ok ==> final(a).spec_is_terminal(),
{
    if a.status != AuctionStatus::Active {
        return Err(AuctionError::AlreadySettled);
    }
    if now < a.close_time() {
        return Err(AuctionError::AuctionStillActive);
    }
    match (a.highest_bid, a.highest_bidder) {
        (Some(h), Some(w)) => {
            if h >= a.reserve_price {
                a.status = AuctionStatus::Settled;
                Ok(SettleOutcome::Sold(Sale { winner: w, price: h }))
            } else {
                a.status = AuctionStatus::Cancelled;
                Ok(SettleOutcome::ReserveNotMet)
            }
        },
        _ => {
            a.status = AuctionStatus::Cancelled;
            Ok(SettleOutcome::ReserveNotMet)
        },
    }
}

/// The state and outcome of winner determination (two-phase style).
pub open spec fn finalize_spec(a: Auction, now: u64) -> (Auction, Result<
    FinalizeOutcome,
    AuctionError,
>) {
    if a.status != AuctionStatus::Active {
        (a, Err(AuctionError::AuctionNotActive))
    } else if now < a.spec_close_time() {
        (a, Err(AuctionError::RevealPeriodNotEnded))
    } else {
        match a.highest_bid {
            Some(h) => if h >= a.reserve_price {
                match a.highest_bidder {
                    Some(w) => (
                        Auction { status: AuctionStatus::Finalized, ..a },
                        Ok(FinalizeOutcome::WinnerDetermined(Sale { winner: w, price: h })),
                    ),
                    None => (
                        Auction { status: AuctionStatus::Cancelled, ..a },
                        Ok(FinalizeOutcome::ReserveNotMet),
                    ),
                }
            } else {
                (
                    Auction { status: AuctionStatus::Cancelled, ..a },
                    Ok(FinalizeOutcome::ReserveNotMet),
                )
            },
            None => (
                Auction { status: AuctionStatus::Cancelled, ..a },
                Ok(FinalizeOutcome::ReserveNotMet),
            ),
        }
    }
}

/// Determine the winner of a two-phase auction without touching funds, so
/// the step is permissionless and can be retried. If no reveal reached the
/// reserve the auction is cancelled here and the asset goes back to the
/// seller; otherwise disbursement follows through `complete_trade`.
pub fn finalize_auction(a: &mut Auction, now: u64) -> (r: Result<FinalizeOutcome, AuctionError>)
    requires
        old(a).well_formed(),
        old(a).config.style == SettlementStyle::TwoPhase,
    ensures
        (({
            let (post, res) = finalize_spec(*old(a), now);
            *final(a) == post && r == res
        })),
        r is Err ==> *final(a) == *old(a),
        final(a).well_formed(),
{
    if a.status != AuctionStatus::Active {
        return Err(AuctionError::AuctionNotActive);
    }
    if now < a.close_time() {
        return Err(AuctionError::RevealPeriodNotEnded);
    }
    match (a.highest_bid, a.highest_bidder) {
        (Some(h), Some(w)) => {
            if h >= a.reserve_price {
                a.status = AuctionStatus::Finalized;
                Ok(FinalizeOutcome::WinnerDetermined(Sale { winner: w, price: h }))
            } else {
                a.status = AuctionStatus::Cancelled;
                Ok(FinalizeOutcome::ReserveNotMet)
            }
        },
        _ => {
            a.status = AuctionStatus::Cancelled;
            Ok(FinalizeOutcome::ReserveNotMet)
        },
    }
}

/// The state and outcome of disbursement (two-phase style).
pub open spec fn complete_spec(a: Auction, b: Bid) -> (Auction, Result<Sale, AuctionError>) {
    if a.status != AuctionStatus::Finalized {
        (a, Err(AuctionError::AuctionNotFinalized))
    } else if b.auction_id != a.auction_id {
        (a, Err(AuctionError::InvalidBid))
    } else {
        match b.revealed_amount {
            None => (a, Err(AuctionError::BidNotRevealed)),
            Some(p) => if a.highest_bidder == Some(b.bidder) && a.highest_bid == Some(p) {
                (
                    Auction { status: AuctionStatus::Settled, ..a },
                    Ok(Sale { winner: b.bidder, price: p }),
                )
            } else {
                (a, Err(AuctionError::InvalidBid))
            },
        }
    }
}

/// Disburse a finalized two-phase auction against the referenced winning
/// bid. The step re-validates that the bid belongs to this auction, was
/// actually revealed, and is the recorded winning reveal before any funds
/// move; the caller then pays the price to the seller and the asset to the
/// winner.
pub fn complete_trade(a: &mut Auction, winning_bid: &Bid) -> (r: Result<Sale, AuctionError>)
    requires
        old(a).well_formed(),
        old(a).config.style == SettlementStyle::TwoPhase,
        winning_bid.well_formed(),
    ensures
        (({
            let (post, res) = complete_spec(*old(a), *winning_bid);
            *final(a) == post && r == res
        })),
        r is Err ==> *final(a) == *old(a),
        final(a).well_formed(),
        r is Ok ==> final(a).status == AuctionStatus::Settled,
{
    if a.status != AuctionStatus::Finalized {
        return Err(AuctionError::AuctionNotFinalized);
    }
    if winning_bid.auction_id != a.auction_id {
        return Err(AuctionError::InvalidBid);
    }
    match winning_bid.revealed_amount {
        None => Err(AuctionError::BidNotRevealed),
        Some(p) => {
            let bidder_matches = opt_bidder_is(&a.highest_bidder, &winning_bid.bidder);
            let amount_matches = match a.highest_bid {
                Some(h) => h == p,
                None => false,
            };
            if bidder_matches && amount_matches {
                a.status = AuctionStatus::Settled;
                Ok(Sale { winner: winning_bid.bidder, price: p })
            } else {
                Err(AuctionError::InvalidBid)
            }
        },
    }
}

/// The state and outcome of a seller's cancellation.
pub open spec fn cancel_spec(a: Auction, caller: [u8; 32], now: u64) -> (Auction, Result<
    (),
    AuctionError,
>) {
    if a.status != AuctionStatus::Active {
        (a, Err(AuctionError::AuctionNotActive))
    } else if caller != a.seller {
        (a, Err(AuctionError::Unauthorized))
    } else if !(now < a.end_time || (now >= a.spec_close_time() && a.highest_bid is None)) {
        (a, Err(AuctionError::CannotCancel))
    } else {
        (Auction { status: AuctionStatus::Cancelled, ..a }, Ok(()))
    }
}

/// Seller-only cancellation: allowed before the bidding deadline, or after
/// the last window when no valid reveal exists. The asset goes back to the
/// seller; deposits stay in custody for individual claims.
pub fn cancel_auction(a: &mut Auction, caller: [u8; 32], now: u64) -> (r: Result<
    (),
    AuctionError,
>)
    requires
        old(a).well_formed(),
    ensures
        (({
            let (post, res) = cancel_spec(*old(a), caller, now);
            *final(a) == post && r == res
        })),
        r is Err ==> *final(a) == *old(a),
        final(a).well_formed(),
{
    if a.status != AuctionStatus::Active {
        return Err(AuctionError::AuctionNotActive);
    }
    if !bytes32_eq(&caller, &a.seller) {
        return Err(AuctionError::Unauthorized);
    }
    let may_cancel = now < a.end_time || (now >= a.close_time() && a.highest_bid.is_none());
    if !may_cancel {
        return Err(AuctionError::CannotCancel);
    }
    a.status = AuctionStatus::Cancelled;
    Ok(())
}

/// At-most-one settlement: once `settle` has succeeded, every further call
/// fails with `AlreadySettled` and leaves the auction exactly as it was, so
/// no second disbursement can be derived from it.
pub proof fn lemma_settle_at_most_once(a: Auction, t1: u64, t2: u64)
    requires
        a.well_formed(),
        settle_spec(a, t1).1 is Ok,
    ensures
        settle_spec(settle_spec(a, t1).0, t2).1 == Err::<SettleOutcome, _>(
            AuctionError::AlreadySettled,
        ),
        settle_spec(settle_spec(a, t1).0, t2).0 == settle_spec(a, t1).0,
{
}

/// Tie-break determinism: when the first bidder to submit and any other
/// bidder both reveal the same amount, and nothing higher stands, the first
/// bidder ends up as highest bidder whichever reveal arrives first.
pub proof fn lemma_tie_break_first_bidder(a: Auction, first: [u8; 32], other: [u8; 32], x: u64)
    requires
        a.first_bidder == Some(first),
        first != other,
        a.highest_bid matches Some(h) ==> h <= x,
    ensures
        record_reveal(record_reveal(a, first, x), other, x).highest_bidder == Some(first),
        record_reveal(record_reveal(a, other, x), first, x).highest_bidder == Some(first),
{
}

} // verus!
