//! Two-phase (finalize + complete) flows, the exact-match collateral rule,
//! and seller cancellation.

use vb_desk::auction::{
    cancel_auction, complete_trade, create_auction, finalize_auction, AuctionConfig,
    AuctionStatus, CollateralRule, FinalizeOutcome, Sale, SettlementStyle,
};
use vb_desk::bid::{claim_deposit, reveal_bid, submit_bid};
use vb_desk::commitment::compute_commitment;
use vb_desk::errors::AuctionError;

fn id(x: u8) -> [u8; 32] {
    [x; 32]
}

fn two_phase() -> AuctionConfig {
    AuctionConfig {
        style: SettlementStyle::TwoPhase,
        collateral: CollateralRule::ExactMatch,
    }
}

/// Commit until 1000, reveal until 2000; the winner is determined without
/// moving funds, then the trade is completed against the winning record.
#[test]
fn two_phase_full_trade() {
    let a = id(10);
    let b = id(11);
    let mut auction =
        create_auction(1, id(1), id(2), 5, 100, two_phase(), 0, 1000, Some(2000)).unwrap();
    let ca = compute_commitment(150, &id(3), &a);
    let cb = compute_commitment(120, &id(4), &b);
    let mut bid_a = submit_bid(&mut auction, a, ca, 150, 10).unwrap();
    let mut bid_b = submit_bid(&mut auction, b, cb, 120, 20).unwrap();
    reveal_bid(&mut auction, &mut bid_a, 150, id(3), 1500).unwrap();
    reveal_bid(&mut auction, &mut bid_b, 120, id(4), 1600).unwrap();
    let outcome = finalize_auction(&mut auction, 2000).unwrap();
    assert_eq!(
        outcome,
        FinalizeOutcome::WinnerDetermined(Sale {
            winner: a,
            price: 150
        })
    );
    assert_eq!(auction.status, AuctionStatus::Finalized);
    let sale = complete_trade(&mut auction, &bid_a).unwrap();
    assert_eq!(
        sale,
        Sale {
            winner: a,
            price: 150
        }
    );
    assert_eq!(auction.status, AuctionStatus::Settled);
    // Exact-match collateral: the winner's whole deposit is the price.
    assert_eq!(claim_deposit(&auction, &mut bid_a).unwrap(), 0);
    assert_eq!(claim_deposit(&auction, &mut bid_b).unwrap(), 120);
}

/// Winner determination cancels outright when the reserve was not reached.
/// (Under the exact-match rule a sub-reserve bid cannot even be submitted,
/// so this pairs the two-phase style with the covering collateral rule.)
#[test]
fn two_phase_reserve_not_met() {
    let a = id(10);
    let cfg = AuctionConfig {
        style: SettlementStyle::TwoPhase,
        collateral: CollateralRule::AtLeastBid,
    };
    let mut auction = create_auction(2, id(1), id(2), 5, 200, cfg, 0, 1000, Some(2000)).unwrap();
    let ca = compute_commitment(150, &id(3), &a);
    let mut bid_a = submit_bid(&mut auction, a, ca, 150, 10).unwrap();
    reveal_bid(&mut auction, &mut bid_a, 150, id(3), 1500).unwrap();
    let outcome = finalize_auction(&mut auction, 2000).unwrap();
    assert_eq!(outcome, FinalizeOutcome::ReserveNotMet);
    assert_eq!(auction.status, AuctionStatus::Cancelled);
    assert_eq!(claim_deposit(&auction, &mut bid_a).unwrap(), 150);
}

/// Completing the trade re-validates the referenced bid: it must belong to
/// the auction, be revealed, and be the recorded winning reveal.
#[test]
fn complete_trade_revalidates_bid() {
    let a = id(10);
    let b = id(11);
    let mut auction =
        create_auction(3, id(1), id(2), 5, 100, two_phase(), 0, 1000, Some(2000)).unwrap();
    let ca = compute_commitment(150, &id(3), &a);
    let cb = compute_commitment(120, &id(4), &b);
    let mut bid_a = submit_bid(&mut auction, a, ca, 150, 10).unwrap();
    let bid_b = submit_bid(&mut auction, b, cb, 120, 20).unwrap();

    // Before finalization nothing may be disbursed.
    assert_eq!(
        complete_trade(&mut auction, &bid_a),
        Err(AuctionError::AuctionNotFinalized)
    );

    reveal_bid(&mut auction, &mut bid_a, 150, id(3), 1500).unwrap();
    finalize_auction(&mut auction, 2000).unwrap();

    // A bid that never revealed cannot complete the trade.
    assert_eq!(
        complete_trade(&mut auction, &bid_b),
        Err(AuctionError::BidNotRevealed)
    );

    // A bid of some other auction is rejected.
    let mut other = create_auction(4, id(1), id(2), 5, 50, two_phase(), 0, 1000, Some(2000)).unwrap();
    let cc = compute_commitment(60, &id(5), &b);
    let mut foreign = submit_bid(&mut other, b, cc, 60, 10).unwrap();
    reveal_bid(&mut other, &mut foreign, 60, id(5), 1500).unwrap();
    assert_eq!(
        complete_trade(&mut auction, &foreign),
        Err(AuctionError::InvalidBid)
    );

    // The winning record itself goes through.
    assert!(complete_trade(&mut auction, &bid_a).is_ok());
}

/// The seller may cancel before the bidding deadline, and after the close
/// when no valid reveal exists; nobody else may, and a standing reveal
/// blocks a late cancellation.
#[test]
fn cancel_rules() {
    let seller = id(1);
    let a = id(10);
    let cfg = AuctionConfig {
        style: SettlementStyle::SinglePhase,
        collateral: CollateralRule::AtLeastBid,
    };
    let mut auction = create_auction(5, seller, id(2), 1, 100, cfg, 0, 1000, None).unwrap();
    assert_eq!(
        cancel_auction(&mut auction, id(9), 10),
        Err(AuctionError::Unauthorized)
    );
    assert_eq!(cancel_auction(&mut auction, seller, 10), Ok(()));
    assert_eq!(auction.status, AuctionStatus::Cancelled);

    // A bid that stands above the close blocks the late path.
    let mut auction2 = create_auction(6, seller, id(2), 1, 100, cfg, 0, 1000, None).unwrap();
    let ca = compute_commitment(150, &id(3), &a);
    let mut bid_a = submit_bid(&mut auction2, a, ca, 150, 10).unwrap();
    reveal_bid(&mut auction2, &mut bid_a, 150, id(3), 500).unwrap();
    assert_eq!(
        cancel_auction(&mut auction2, seller, 1000),
        Err(AuctionError::CannotCancel)
    );

    // With no reveal at all, the late path is open.
    let mut auction3 = create_auction(7, seller, id(2), 1, 100, cfg, 0, 1000, None).unwrap();
    submit_bid(&mut auction3, a, ca, 150, 10).unwrap();
    assert_eq!(cancel_auction(&mut auction3, seller, 1000), Ok(()));
}

/// A submitted-but-never-revealed bid forfeits its deposit even when the
/// auction was cancelled by the seller.
#[test]
fn cancelled_auction_non_revealer_still_forfeits() {
    let seller = id(1);
    let a = id(10);
    let cfg = AuctionConfig {
        style: SettlementStyle::SinglePhase,
        collateral: CollateralRule::AtLeastBid,
    };
    let mut auction = create_auction(8, seller, id(2), 1, 100, cfg, 0, 1000, None).unwrap();
    let ca = compute_commitment(150, &id(3), &a);
    let mut bid_a = submit_bid(&mut auction, a, ca, 150, 10).unwrap();
    cancel_auction(&mut auction, seller, 1000).unwrap();
    assert_eq!(claim_deposit(&auction, &mut bid_a).unwrap(), 0);
}

/// Under the exact-match rule the deposit is the sealed amount, so it must
/// reach the reserve already at submission, and the reveal must match it
/// exactly.
#[test]
fn exact_match_collateral_rule() {
    let a = id(10);
    let mut auction =
        create_auction(9, id(1), id(2), 5, 100, two_phase(), 0, 1000, Some(2000)).unwrap();
    assert_eq!(
        submit_bid(&mut auction, a, [0u8; 32], 99, 10),
        Err(AuctionError::BidBelowMinimum)
    );
    let ca = compute_commitment(120, &id(3), &a);
    let mut bid_a = submit_bid(&mut auction, a, ca, 150, 10).unwrap();
    // 150 locked but 120 sealed: the reveal is refused under exact match.
    assert_eq!(
        reveal_bid(&mut auction, &mut bid_a, 120, id(3), 1500),
        Err(AuctionError::DepositMismatch)
    );
    assert!(!bid_a.is_revealed);
}
