//! One input for every error kind.

use vb_desk::auction::{
    create_auction, finalize_auction, settle_auction, AuctionConfig, CollateralRule,
    SettlementStyle,
};
use vb_desk::bid::{claim_deposit, reveal_bid, submit_bid};
use vb_desk::commitment::compute_commitment;
use vb_desk::errors::AuctionError;

fn id(x: u8) -> [u8; 32] {
    [x; 32]
}

fn single_phase() -> AuctionConfig {
    AuctionConfig {
        style: SettlementStyle::SinglePhase,
        collateral: CollateralRule::AtLeastBid,
    }
}

fn two_phase() -> AuctionConfig {
    AuctionConfig {
        style: SettlementStyle::TwoPhase,
        collateral: CollateralRule::ExactMatch,
    }
}

#[test]
fn create_rejects_bad_values() {
    assert_eq!(
        create_auction(1, id(1), id(2), 0, 100, single_phase(), 0, 1000, None),
        Err(AuctionError::InvalidAmount)
    );
    assert_eq!(
        create_auction(1, id(1), id(2), 1, 0, single_phase(), 0, 1000, None),
        Err(AuctionError::InvalidPrice)
    );
    assert_eq!(
        create_auction(1, id(1), id(2), 1, 100, single_phase(), 1000, 1000, None),
        Err(AuctionError::InvalidDeadline)
    );
    assert_eq!(
        create_auction(1, id(1), id(2), 1, 100, two_phase(), 0, 1000, Some(1000)),
        Err(AuctionError::InvalidDeadline)
    );
}

#[test]
fn submit_rejects_late_and_terminal() {
    let mut auction = create_auction(1, id(1), id(2), 1, 100, single_phase(), 0, 1000, None).unwrap();
    assert_eq!(
        submit_bid(&mut auction, id(10), [0u8; 32], 150, 1000),
        Err(AuctionError::AuctionEnded)
    );
    settle_auction(&mut auction, 1000).unwrap();
    assert_eq!(
        submit_bid(&mut auction, id(10), [0u8; 32], 150, 10),
        Err(AuctionError::AuctionNotActive)
    );
}

#[test]
fn reveal_window_errors() {
    // Without a reveal window, reveals end at the bidding deadline.
    let mut auction = create_auction(1, id(1), id(2), 1, 100, single_phase(), 0, 1000, None).unwrap();
    let c = compute_commitment(150, &id(3), &id(10));
    let mut bid = submit_bid(&mut auction, id(10), c, 150, 10).unwrap();
    assert_eq!(
        reveal_bid(&mut auction, &mut bid, 150, id(3), 1000),
        Err(AuctionError::AuctionEnded)
    );

    // With one, reveals run from the bidding deadline to the reveal deadline.
    let mut auction2 =
        create_auction(2, id(1), id(2), 1, 100, two_phase(), 0, 1000, Some(2000)).unwrap();
    let c2 = compute_commitment(150, &id(3), &id(10));
    let mut bid2 = submit_bid(&mut auction2, id(10), c2, 150, 10).unwrap();
    assert_eq!(
        reveal_bid(&mut auction2, &mut bid2, 150, id(3), 500),
        Err(AuctionError::CommitPeriodNotEnded)
    );
    assert_eq!(
        reveal_bid(&mut auction2, &mut bid2, 150, id(3), 2000),
        Err(AuctionError::RevealPeriodEnded)
    );
}

#[test]
fn reveal_rejects_bad_state_and_commitment() {
    let mut auction = create_auction(1, id(1), id(2), 1, 100, single_phase(), 0, 1000, None).unwrap();
    let c = compute_commitment(150, &id(3), &id(10));
    let mut bid = submit_bid(&mut auction, id(10), c, 150, 10).unwrap();

    // Wrong nonce: the digest does not match.
    assert_eq!(
        reveal_bid(&mut auction, &mut bid, 150, id(4), 500),
        Err(AuctionError::InvalidCommitment)
    );
    // Collateral below the revealed amount.
    let c_big = compute_commitment(500, &id(3), &id(11));
    let mut bid_big = submit_bid(&mut auction, id(11), c_big, 150, 10).unwrap();
    assert_eq!(
        reveal_bid(&mut auction, &mut bid_big, 500, id(3), 500),
        Err(AuctionError::DepositMismatch)
    );
    // A bid keyed to another auction is rejected outright.
    let mut other = create_auction(9, id(1), id(2), 1, 100, single_phase(), 0, 1000, None).unwrap();
    assert_eq!(
        reveal_bid(&mut other, &mut bid, 150, id(3), 500),
        Err(AuctionError::InvalidBid)
    );
    // A second reveal is refused.
    reveal_bid(&mut auction, &mut bid, 150, id(3), 500).unwrap();
    assert_eq!(
        reveal_bid(&mut auction, &mut bid, 150, id(3), 600),
        Err(AuctionError::AlreadyRevealed)
    );
}

#[test]
fn settle_and_finalize_timing() {
    let mut auction = create_auction(1, id(1), id(2), 1, 100, single_phase(), 0, 1000, None).unwrap();
    assert_eq!(
        settle_auction(&mut auction, 999),
        Err(AuctionError::AuctionStillActive)
    );
    let mut auction2 =
        create_auction(2, id(1), id(2), 1, 100, two_phase(), 0, 1000, Some(2000)).unwrap();
    assert_eq!(
        finalize_auction(&mut auction2, 1999),
        Err(AuctionError::RevealPeriodNotEnded)
    );
    finalize_auction(&mut auction2, 2000).unwrap();
    assert_eq!(
        finalize_auction(&mut auction2, 2001),
        Err(AuctionError::AuctionNotActive)
    );
}

#[test]
fn claim_preconditions() {
    let mut auction = create_auction(1, id(1), id(2), 1, 100, single_phase(), 0, 1000, None).unwrap();
    let c = compute_commitment(150, &id(3), &id(10));
    let mut bid = submit_bid(&mut auction, id(10), c, 150, 10).unwrap();
    assert_eq!(
        claim_deposit(&auction, &mut bid),
        Err(AuctionError::AuctionNotSettled)
    );
    settle_auction(&mut auction, 1000).unwrap();
    let mut other = create_auction(2, id(1), id(2), 1, 100, single_phase(), 0, 1000, None).unwrap();
    let c2 = compute_commitment(150, &id(3), &id(10));
    let mut foreign = submit_bid(&mut other, id(10), c2, 150, 10).unwrap();
    assert_eq!(
        claim_deposit(&auction, &mut foreign),
        Err(AuctionError::InvalidBid)
    );
    claim_deposit(&auction, &mut bid).unwrap();
    assert_eq!(
        claim_deposit(&auction, &mut bid),
        Err(AuctionError::AlreadyClaimed)
    );
}
