//! One bidder's sealed offer and its lifecycle.
//!
//! A bid is created at submission with its collateral locked, mutated once at
//! reveal, mutated once at claim, and kept forever as an audit record. The
//! storage layer keys bids by (auction, bidder), so at most one record exists
//! per pair.

use crate::auction::{record_reveal, Auction, AuctionStatus, CollateralRule};
use crate::auction::opt_bidder_is;
use crate::commitment::{commitment_preimage, sha256_of, verify_commitment};
use crate::errors::AuctionError;
use vstd::prelude::*;

verus! {

/// One bidder's sealed offer for one auction.
#[derive(Clone, Copy, Debug, PartialEq, Eq)]
pub struct Bid {
    pub auction_id: u64,
    pub bidder: [u8; 32],
    /// Digest binding amount, nonce and bidder identity; immutable once set.
    pub commitment: [u8; 32],
    pub revealed_amount: Option<u64>,
    pub nonce: Option<[u8; 32]>,
    pub is_revealed: bool,
    /// The collateral deposited at submission time.
    pub deposit_locked: u64,
    pub submitted_at: u64,
    /// Set exactly once, before any payout; a later claim is an error, not a
    /// second payout.
    pub claim_processed: bool,
}

impl Bid {
    /// The revealed fields appear and disappear together.
    pub open spec fn well_formed(self) -> bool {
        &&& (self.is_revealed <==> self.revealed_amount is Some)
        &&& (self.is_revealed <==> self.nonce is Some)
    }
}

/// The auction update and bid record (or refusal) of a submission.
pub open spec fn submit_spec(
    a: Auction,
    bidder: [u8; 32],
    commitment: [u8; 32],
    deposit_amount: u64,
    now: u64,
) -> (Auction, Result<Bid, AuctionError>) {
    if a.status != AuctionStatus::Active {
        (a, Err(AuctionError::AuctionNotActive))
    } else if now >= a.end_time {
        (a, Err(AuctionError::AuctionEnded))
    } else if a.config.collateral == CollateralRule::ExactMatch && deposit_amount
        < a.reserve_price {
        (a, Err(AuctionError::BidBelowMinimum))
    } else {
        (
            if a.first_bidder is None {
                Auction { first_bidder: Some(bidder), ..a }
            } else {
                a
            },
            Ok(
                Bid {
                    auction_id: a.auction_id,
                    bidder,
                    commitment,
                    revealed_amount: None,
                    nonce: None,
                    is_revealed: false,
                    deposit_locked: deposit_amount,
                    submitted_at: now,
                    claim_processed: false,
                },
            ),
        )
    }
}

/// Submit a sealed bid before the bidding deadline: the returned record is
/// stored and `deposit_amount` is locked into escrow custody atomically with
/// it. The first submission fixes the tie-break priority. Under the
/// exact-match collateral rule the deposit equals the sealed amount, so it
/// must already reach the reserve price here.
pub fn submit_bid(
    a: &mut Auction,
    bidder: [u8; 32],
    commitment: [u8; 32],
    deposit_amount: u64,
    now: u64,
) -> (r: Result<Bid, AuctionError>)
    requires
        old(a).well_formed(),
    ensures
        (({
            let (post, res) = submit_spec(*old(a), bidder, commitment, deposit_amount, now);
            *final(a) == post && r == res
        })),
        r is Err ==> *final(a) == *old(a),
        final(a).well_formed(),
        r matches Ok(b) ==> b.well_formed() && !b.claim_processed && !b.is_revealed,
{
    if a.status != AuctionStatus::Active {
        return Err(AuctionError::AuctionNotActive);
    }
    if now >= a.end_time {
        return Err(AuctionError::AuctionEnded);
    }
    if a.config.collateral == CollateralRule::ExactMatch && deposit_amount < a.reserve_price {
        return Err(AuctionError::BidBelowMinimum);
    }
    if a.first_bidder.is_none() {
        a.first_bidder = Some(bidder);
    }
    Ok(
        Bid {
            auction_id: a.auction_id,
            bidder,
            commitment,
            revealed_amount: None,
            nonce: None,
            is_revealed: false,
            deposit_locked: deposit_amount,
            submitted_at: now,
            claim_processed: false,
        },
    )
}

/// Why a reveal at `now` falls outside the auction's reveal window, if it
/// does. With a separate reveal window, reveals run from the bidding
/// deadline to the reveal deadline; without one, they run until the bidding
/// deadline.
pub open spec fn reveal_window_err(a: Auction, now: u64) -> Option<AuctionError> {
    match a.reveal_end_time {
        None => if now >= a.end_time {
            Some(AuctionError::AuctionEnded)
        } else {
            None
        },
        Some(r) => if now < a.end_time {
            Some(AuctionError::CommitPeriodNotEnded)
        } else if now >= r {
            Some(AuctionError::RevealPeriodEnded)
        } else {
            None
        },
    }
}

/// Whether `deposit` satisfies the auction's collateral rule for a revealed
/// `amount`.
pub open spec fn collateral_ok(a: Auction, deposit: u64, amount: u64) -> bool {
    match a.config.collateral {
        CollateralRule::ExactMatch => deposit == amount,
        CollateralRule::AtLeastBid => deposit >= amount,
    }
}

/// The auction and bid updates (or refusal) of a reveal.
pub open spec fn reveal_spec(a: Auction, b: Bid, amount: u64, nonce: [u8; 32], now: u64) -> (
    Auction,
    Bid,
    Result<(), AuctionError>,
) {
    if b.auction_id != a.auction_id {
        (a, b, Err(AuctionError::InvalidBid))
    } else if a.status != AuctionStatus::Active {
        (a, b, Err(AuctionError::AuctionNotActive))
    } else if reveal_window_err(a, now) is Some {
        (a, b, Err(reveal_window_err(a, now).unwrap()))
    } else if b.is_revealed {
        (a, b, Err(AuctionError::AlreadyRevealed))
    } else if b.commitment@ != sha256_of(commitment_preimage(amount, nonce@, b.bidder@)) {
        (a, b, Err(AuctionError::InvalidCommitment))
    } else if !collateral_ok(a, b.deposit_locked, amount) {
        (a, b, Err(AuctionError::DepositMismatch))
    } else {
        (
            record_reveal(a, b.bidder, amount),
            Bid { revealed_amount: Some(amount), nonce: Some(nonce), is_revealed: true, ..b },
            Ok(()),
        )
    }
}

/// Disclose the amount and nonce behind a commitment. The reveal is accepted
/// only inside the reveal window, at most once per bid, only when the
/// recomputed digest reproduces the stored commitment, and only when the
/// locked collateral satisfies the configured rule; it then updates the
/// auction's winner tracking. A refused reveal changes nothing.
pub fn reveal_bid(a: &mut Auction, b: &mut Bid, amount: u64, nonce: [u8; 32], now: u64) -> (r:
    Result<(), AuctionError>)
    requires
        old(a).well_formed(),
        old(b).well_formed(),
    ensures
        (({
            let (a_post, b_post, res) = reveal_spec(*old(a), *old(b), amount, nonce, now);
            *final(a) == a_post && *final(b) == b_post && r == res
        })),
        r is Err ==> *final(a) == *old(a) && *final(b) == *old(b),
        final(a).well_formed(),
        final(b).well_formed(),
{
    if b.auction_id != a.auction_id {
        return Err(AuctionError::InvalidBid);
    }
    if a.status != AuctionStatus::Active {
        return Err(AuctionError::AuctionNotActive);
    }
    match a.reveal_end_time {
        None => {
            if now >= a.end_time {
                return Err(AuctionError::AuctionEnded);
            }
        },
        Some(r_end) => {
            if now < a.end_time {
                return Err(AuctionError::CommitPeriodNotEnded);
            }
            if now >= r_end {
                return Err(AuctionError::RevealPeriodEnded);
            }
        },
    }
    if b.is_revealed {
        return Err(AuctionError::AlreadyRevealed);
    }
    if !verify_commitment(&b.commitment, amount, &nonce, &b.bidder) {
        return Err(AuctionError::InvalidCommitment);
    }
    let covered = match a.config.collateral {
        CollateralRule::ExactMatch => b.deposit_locked == amount,
        CollateralRule::AtLeastBid => b.deposit_locked >= amount,
    };
    if !covered {
        return Err(AuctionError::DepositMismatch);
    }
    b.revealed_amount = Some(amount);
    b.nonce = Some(nonce);
    b.is_revealed = true;
    let take_highest = match a.highest_bid {
        None => true,
        Some(h) => amount > h || (amount == h && opt_bidder_is(&a.first_bidder, &b.bidder)),
    };
    if take_highest {
        if a.highest_bid.is_none() {
            a.highest_bid = Some(amount);
        } else if let Some(h) = a.highest_bid {
            if amount > h {
                a.highest_bid = Some(amount);
            }
        }
        a.highest_bidder = Some(b.bidder);
    }
    Ok(())
}

/// What one bid may claim once the auction is terminal: nothing for a bid
/// that never revealed (forfeiture); the full deposit when the auction was
/// cancelled or the bid lost; and the deposit minus the winning price
/// (saturating at zero) for the winner, whose price already went to the
/// seller at settlement.
pub open spec fn claim_amount(a: Auction, b: Bid) -> u64 {
    if !b.is_revealed {
        0
    } else if a.status == AuctionStatus::Cancelled {
        b.deposit_locked
    } else if a.highest_bidder == Some(b.bidder) {
        match a.highest_bid {
            Some(h) => if b.deposit_locked >= h {
                (b.deposit_locked - h) as u64
            } else {
                0
            },
            None => b.deposit_locked,
        }
    } else {
        b.deposit_locked
    }
}

/// The bid update and refund amount (or refusal) of a claim.
pub open spec fn claim_spec(a: Auction, b: Bid) -> (Bid, Result<u64, AuctionError>) {
    if !a.spec_is_terminal() {
        (b, Err(AuctionError::AuctionNotSettled))
    } else if b.auction_id != a.auction_id {
        (b, Err(AuctionError::InvalidBid))
    } else if b.claim_processed {
        (b, Err(AuctionError::AlreadyClaimed))
    } else {
        (Bid { claim_processed: true, ..b }, Ok(claim_amount(a, b)))
    }
}

/// Claim this bid's refund (or record its forfeiture) after the auction has
/// reached a terminal status. The flag is set before any transfer, so a
/// repeated or re-entrant claim fails instead of paying twice; the caller
/// then moves the returned amount from custody back to the bidder.
pub fn claim_deposit(a: &Auction, b: &mut Bid) -> (r: Result<u64, AuctionError>)
    requires
        a.well_formed(),
        old(b).well_formed(),
    ensures
        (({
            let (post, res) = claim_spec(*a, *old(b));
            *final(b) == post && r == res
        })),
        r is Err ==> *final(b) == *old(b),
        final(b).well_formed(),
        r is Ok ==> final(b).claim_processed,
{
    if !a.is_terminal() {
        return Err(AuctionError::AuctionNotSettled);
    }
    if b.auction_id != a.auction_id {
        return Err(AuctionError::InvalidBid);
    }
    if b.claim_processed {
        return Err(AuctionError::AlreadyClaimed);
    }
    b.claim_processed = true;
    let refund: u64 = if !b.is_revealed {
        0
    } else if a.status == AuctionStatus::Cancelled {
        b.deposit_locked
    } else if opt_bidder_is(&a.highest_bidder, &b.bidder) {
        match a.highest_bid {
            Some(h) => {
                if b.deposit_locked >= h {
                    b.deposit_locked - h
                } else {
                    0
                }
            },
            None => b.deposit_locked,
        }
    } else {
        b.deposit_locked
    };
    Ok(refund)
}

/// At-most-one claim: once a claim has succeeded, every further claim on the
/// same record fails with `AlreadyClaimed` and leaves it unchanged, so no
/// second payout can be derived from it.
pub proof fn lemma_claim_at_most_once(a: Auction, b: Bid)
    requires
        claim_spec(a, b).1 is Ok,
    ensures
        claim_spec(a, claim_spec(a, b).0).1 == Err::<u64, _>(AuctionError::AlreadyClaimed),
        claim_spec(a, claim_spec(a, b).0).0 == claim_spec(a, b).0,
{
}

} // verus!
