//! Settlement accounting across a whole auction.
//!
//! Every fund-moving step is scoped to a single record, so the books of an
//! auction are the sum of its per-bid claims, the per-bid forfeitures and the
//! seller's proceeds. The laws here relate those sums to the collateral that
//! was originally locked.

use crate::auction::{
    cancel_spec, complete_spec, finalize_spec, settle_spec, Auction, AuctionStatus, SettleOutcome,
    SettlementStyle,
};
use crate::bid::{claim_amount, claim_spec, reveal_spec, submit_spec, Bid};
use crate::errors::AuctionError;
use vstd::prelude::*;

verus! {

/// The winning price a settled auction pays its seller; zero for every other
/// status.
pub open spec fn seller_proceeds(a: Auction) -> int {
    if a.status == AuctionStatus::Settled {
        match a.highest_bid {
            Some(h) => h as int,
            None => 0,
        }
    } else {
        0
    }
}

/// What one bid forfeits: the whole deposit when it never revealed, nothing
/// otherwise.
pub open spec fn forfeit_amount(b: Bid) -> int {
    if !b.is_revealed {
        b.deposit_locked as int
    } else {
        0
    }
}

/// Whether this record is the recorded winning bid of `a`.
pub open spec fn is_winning_bid(a: Auction, b: Bid) -> bool {
    a.highest_bidder == Some(b.bidder)
}

/// The part of the seller's proceeds that is paid out of this bid's deposit:
/// the winning price for the winning bid of a settled auction, zero for
/// every other bid.
pub open spec fn proceeds_share(a: Auction, b: Bid) -> int {
    if a.status == AuctionStatus::Settled && is_winning_bid(a, b) {
        match a.highest_bid {
            Some(h) => h as int,
            None => 0,
        }
    } else {
        0
    }
}

/// The collateral locked by a set of bids.
pub open spec fn total_deposits(bids: Seq<Bid>) -> int
    decreases bids.len(),
{
    if bids.len() == 0 {
        0
    } else {
        bids[0].deposit_locked + total_deposits(bids.drop_first())
    }
}

/// The refunds a set of bids claims against a terminal auction.
pub open spec fn total_refunds(a: Auction, bids: Seq<Bid>) -> int
    decreases bids.len(),
{
    if bids.len() == 0 {
        0
    } else {
        claim_amount(a, bids[0]) + total_refunds(a, bids.drop_first())
    }
}

/// The forfeitures a set of bids leaves in custody.
pub open spec fn total_forfeits(bids: Seq<Bid>) -> int
    decreases bids.len(),
{
    if bids.len() == 0 {
        0
    } else {
        forfeit_amount(bids[0]) + total_forfeits(bids.drop_first())
    }
}

/// How many records of the set are the recorded winning bid.
pub open spec fn winner_count(a: Auction, bids: Seq<Bid>) -> int
    decreases bids.len(),
{
    if bids.len() == 0 {
        0
    } else {
        (if is_winning_bid(a, bids[0]) {
            1int
        } else {
            0int
        }) + winner_count(a, bids.drop_first())
    }
}

/// The proceeds shares of a set of bids, summed.
pub open spec fn total_proceeds_shares(a: Auction, bids: Seq<Bid>) -> int
    decreases bids.len(),
{
    if bids.len() == 0 {
        0
    } else {
        proceeds_share(a, bids[0]) + total_proceeds_shares(a, bids.drop_first())
    }
}

/// One bid's books balance: its refund, its forfeiture and its share of the
/// seller's proceeds add up exactly to the collateral it locked.
proof fn lemma_bid_accounting(a: Auction, b: Bid)
    requires
        a.well_formed(),
        a.spec_is_terminal(),
        b.well_formed(),
        (a.status == AuctionStatus::Settled && is_winning_bid(a, b)) ==> (b.is_revealed
            && b.deposit_locked >= seller_proceeds(a)),
    ensures
        claim_amount(a, b) + forfeit_amount(b) + proceeds_share(a, b) == b.deposit_locked,
{
}

proof fn lemma_conservation_rec(a: Auction, bids: Seq<Bid>)
    requires
        a.well_formed(),
        a.spec_is_terminal(),
        forall|i: int| 0 <= i < bids.len() ==> (#[trigger] bids[i]).well_formed(),
        forall|i: int|
            0 <= i < bids.len() ==> ((a.status == AuctionStatus::Settled && is_winning_bid(
                a,
                #[trigger] bids[i],
            )) ==> (bids[i].is_revealed && bids[i].deposit_locked >= seller_proceeds(a))),
    ensures
        total_refunds(a, bids) + total_forfeits(bids) + total_proceeds_shares(a, bids)
            == total_deposits(bids),
    decreases bids.len(),
{
    if bids.len() > 0 {
        lemma_bid_accounting(a, bids[0]);
        let rest = bids.drop_first();
        assert forall|i: int| 0 <= i < rest.len() implies (#[trigger] rest[i]).well_formed() by {
            assert(rest[i] == bids[i + 1]);
        }
        assert forall|i: int|
            0 <= i < rest.len() implies ((a.status == AuctionStatus::Settled && is_winning_bid(
            a,
            #[trigger] rest[i],
        )) ==> (rest[i].is_revealed && rest[i].deposit_locked >= seller_proceeds(a))) by {
            assert(rest[i] == bids[i + 1]);
        }
        lemma_conservation_rec(a, rest);
    }
}

proof fn lemma_shares_no_winner(a: Auction, bids: Seq<Bid>)
    requires
        winner_count(a, bids) == 0,
    ensures
        total_proceeds_shares(a, bids) == 0,
    decreases bids.len(),
{
    if bids.len() > 0 {
        lemma_count_nonnegative(a, bids.drop_first());
        lemma_shares_no_winner(a, bids.drop_first());
    }
}

proof fn lemma_count_nonnegative(a: Auction, bids: Seq<Bid>)
    ensures
        winner_count(a, bids) >= 0,
    decreases bids.len(),
{
    if bids.len() > 0 {
        lemma_count_nonnegative(a, bids.drop_first());
    }
}

proof fn lemma_shares_not_settled(a: Auction, bids: Seq<Bid>)
    requires
        a.status != AuctionStatus::Settled,
    ensures
        total_proceeds_shares(a, bids) == 0,
    decreases bids.len(),
{
    if bids.len() > 0 {
        lemma_shares_not_settled(a, bids.drop_first());
    }
}

proof fn lemma_shares_single_winner(a: Auction, bids: Seq<Bid>)
    requires
        a.status == AuctionStatus::Settled,
        winner_count(a, bids) == 1,
    ensures
        total_proceeds_shares(a, bids) == seller_proceeds(a),
    decreases bids.len(),
{
    if bids.len() > 0 {
        let rest = bids.drop_first();
        if is_winning_bid(a, bids[0]) {
            lemma_count_nonnegative(a, rest);
            lemma_shares_no_winner(a, rest);
        } else {
            lemma_shares_single_winner(a, rest);
        }
    }
}

/// Conservation: after settlement and all claims, the seller's proceeds
/// plus all bidder refunds plus all forfeitures retained in custody equal
/// the collateral that was originally locked by the bids. The set is any
/// collection of the auction's bid records in which, for a settled auction,
/// the recorded winning reveal appears exactly once and covers the winning
/// price; `lemma_conservation_reachable` shows every reachable terminal
/// configuration is such a set.
pub proof fn lemma_conservation(a: Auction, bids: Seq<Bid>)
    requires
        a.well_formed(),
        a.spec_is_terminal(),
        forall|i: int| 0 <= i < bids.len() ==> (#[trigger] bids[i]).well_formed(),
        forall|i: int|
            0 <= i < bids.len() ==> ((a.status == AuctionStatus::Settled && is_winning_bid(
                a,
                #[trigger] bids[i],
            )) ==> (bids[i].is_revealed && bids[i].deposit_locked >= seller_proceeds(a))),
        a.status == AuctionStatus::Settled ==> winner_count(a, bids) == 1,
    ensures
        total_refunds(a, bids) + total_forfeits(bids) + seller_proceeds(a) == total_deposits(
            bids,
        ),
{
    lemma_conservation_rec(a, bids);
    if a.status == AuctionStatus::Settled {
        lemma_shares_single_winner(a, bids);
    } else {
        lemma_shares_not_settled(a, bids);
    }
}

/// Reserve enforcement: when the highest revealed amount stays strictly
/// below the reserve price (or no reveal exists at all), settlement and
/// winner determination both cancel the auction; every revealed bidder then
/// claims their full locked collateral.
pub proof fn lemma_reserve_enforcement(a: Auction, now: u64, b: Bid)
    requires
        a.well_formed(),
        a.status == AuctionStatus::Active,
        now >= a.spec_close_time(),
        a.highest_bid matches Some(h) ==> h < a.reserve_price,
        b.well_formed(),
        b.auction_id == a.auction_id,
        !b.claim_processed,
    ensures
        settle_spec(a, now).0.status == AuctionStatus::Cancelled,
        settle_spec(a, now).1 == Ok::<SettleOutcome, AuctionError>(SettleOutcome::ReserveNotMet),
        finalize_spec(a, now).0.status == AuctionStatus::Cancelled,
        b.is_revealed ==> claim_spec(settle_spec(a, now).0, b).1 == Ok::<u64, AuctionError>(
            b.deposit_locked,
        ),
{
}

/// An auction together with its stored bid records, as the storage layer
/// holds them: one record per (auction, bidder) pair.
pub struct AuctionRecords {
    pub auction: Auction,
    pub bids: Seq<Bid>,
}

impl AuctionRecords {
    /// What holds of every reachable configuration: the auction and every
    /// record are well formed, the records belong to this auction, bidders
    /// are pairwise distinct, and the recorded winning reveal, where one
    /// stands, is a stored revealed record whose collateral covers the
    /// winning amount.
    pub open spec fn consistent(self) -> bool {
        &&& self.auction.well_formed()
        &&& forall|i: int| 0 <= i < self.bids.len() ==> (#[trigger] self.bids[i]).well_formed()
        &&& forall|i: int|
            0 <= i < self.bids.len() ==> (#[trigger] self.bids[i]).auction_id
                == self.auction.auction_id
        &&& forall|i: int, j: int|
            0 <= i < j < self.bids.len() ==> (#[trigger] self.bids[i]).bidder != (
            #[trigger] self.bids[j]).bidder
        &&& (match (self.auction.highest_bid, self.auction.highest_bidder) {
            (Some(h), Some(w)) => exists|i: int|
                0 <= i < self.bids.len() && (#[trigger] self.bids[i]).bidder == w
                    && self.bids[i].is_revealed && self.bids[i].revealed_amount == Some(h)
                    && self.bids[i].deposit_locked >= h,
            _ => true,
        })
        &&& forall|i: int|
            0 <= i < self.bids.len() && (#[trigger] self.bids[i]).is_revealed ==> (
            self.auction.highest_bid matches Some(h) && self.bids[i].revealed_amount matches Some(
                p,
            ) && p <= h)
    }
}

/// The highest valid bid wins: in any consistent configuration with a
/// recorded highest reveal, no stored revealed record exceeds it, and the
/// recorded winner is a stored record revealed at exactly that amount.
pub proof fn lemma_winner_is_highest(s: AuctionRecords, i: int)
    requires
        s.consistent(),
        s.auction.highest_bid is Some,
        0 <= i < s.bids.len(),
        s.bids[i].is_revealed,
    ensures
        s.bids[i].revealed_amount matches Some(p) && p <= s.auction.highest_bid.unwrap(),
        exists|k: int|
            0 <= k < s.bids.len() && (#[trigger] s.bids[k]).is_revealed
                && s.bids[k].revealed_amount == s.auction.highest_bid && Some(s.bids[k].bidder)
                == s.auction.highest_bidder,
{
    let h = s.auction.highest_bid.unwrap();
    let w = s.auction.highest_bidder.unwrap();
    let k = choose|k: int|
        0 <= k < s.bids.len() && (#[trigger] s.bids[k]).bidder == w && s.bids[k].is_revealed
            && s.bids[k].revealed_amount == Some(h) && s.bids[k].deposit_locked >= h;
    assert(0 <= k < s.bids.len() && s.bids[k].is_revealed && s.bids[k].revealed_amount
        == s.auction.highest_bid && Some(s.bids[k].bidder) == s.auction.highest_bidder);
}

/// A newly created auction is consistent with an empty record set.
pub proof fn lemma_consistent_after_create(a: Auction)
    requires
        a.well_formed(),
        a.highest_bid is None,
    ensures
        (AuctionRecords { auction: a, bids: Seq::empty() }).consistent(),
{
}

/// Submission preserves consistency: the fresh record joins the set,
/// provided its bidder had no record yet — which the storage key enforces.
pub proof fn lemma_consistent_after_submit(
    s: AuctionRecords,
    bidder: [u8; 32],
    commitment: [u8; 32],
    deposit: u64,
    now: u64,
)
    requires
        s.consistent(),
        forall|i: int| 0 <= i < s.bids.len() ==> (#[trigger] s.bids[i]).bidder != bidder,
        submit_spec(s.auction, bidder, commitment, deposit, now).1 is Ok,
    ensures
        (AuctionRecords {
            auction: submit_spec(s.auction, bidder, commitment, deposit, now).0,
            bids: s.bids.push(
                submit_spec(s.auction, bidder, commitment, deposit, now).1.unwrap(),
            ),
        }).consistent(),
{
    let a2 = submit_spec(s.auction, bidder, commitment, deposit, now).0;
    let b = submit_spec(s.auction, bidder, commitment, deposit, now).1.unwrap();
    let bids2 = s.bids.push(b);
    assert(forall|i: int| 0 <= i < s.bids.len() ==> bids2[i] == s.bids[i]);
    assert(bids2[s.bids.len() as int] == b);
    match (a2.highest_bid, a2.highest_bidder) {
        (Some(h), Some(w)) => {
            let i0 = choose|i: int|
                0 <= i < s.bids.len() && (#[trigger] s.bids[i]).bidder == w
                    && s.bids[i].is_revealed && s.bids[i].revealed_amount == Some(h)
                    && s.bids[i].deposit_locked >= h;
            assert(bids2[i0].bidder == w && bids2[i0].is_revealed && bids2[i0].revealed_amount
                == Some(h) && bids2[i0].deposit_locked >= h);
        },
        _ => {},
    }
}

/// Reveal preserves consistency: the revealed record replaces its slot, and
/// the winner tracking stays backed by a stored revealed record that covers
/// the winning amount — the collateral rule checked at reveal is exactly
/// what guarantees the cover.
pub proof fn lemma_consistent_after_reveal(
    s: AuctionRecords,
    k: int,
    amount: u64,
    nonce: [u8; 32],
    now: u64,
)
    requires
        s.consistent(),
        0 <= k < s.bids.len(),
        reveal_spec(s.auction, s.bids[k], amount, nonce, now).2 is Ok,
    ensures
        (AuctionRecords {
            auction: reveal_spec(s.auction, s.bids[k], amount, nonce, now).0,
            bids: s.bids.update(k, reveal_spec(s.auction, s.bids[k], amount, nonce, now).1),
        }).consistent(),
{
    let a = s.auction;
    let b = s.bids[k];
    let a2 = reveal_spec(a, b, amount, nonce, now).0;
    let b2 = reveal_spec(a, b, amount, nonce, now).1;
    let bids2 = s.bids.update(k, b2);
    assert(forall|i: int| 0 <= i < s.bids.len() && i != k ==> bids2[i] == s.bids[i]);
    assert(bids2[k] == b2);
    assert(!b.is_revealed);
    assert(crate::bid::collateral_ok(a, b.deposit_locked, amount));
    assert(b2.deposit_locked >= amount);
    match (a2.highest_bid, a2.highest_bidder) {
        (Some(h), Some(w)) => {
            if w == b.bidder && h == amount {
                assert(bids2[k].bidder == w && bids2[k].is_revealed && bids2[k].revealed_amount
                    == Some(h) && bids2[k].deposit_locked >= h);
            } else {
                // The winner tracking did not move to this reveal, so the
                // previous witness still stands; it cannot be slot k, whose
                // record was unrevealed until now.
                assert(a2.highest_bid == a.highest_bid && a2.highest_bidder == a.highest_bidder);
                let i0 = choose|i: int|
                    0 <= i < s.bids.len() && (#[trigger] s.bids[i]).bidder == w
                        && s.bids[i].is_revealed && s.bids[i].revealed_amount == Some(h)
                        && s.bids[i].deposit_locked >= h;
                assert(i0 != k);
                assert(bids2[i0].bidder == w && bids2[i0].is_revealed && bids2[i0].revealed_amount
                    == Some(h) && bids2[i0].deposit_locked >= h);
            }
        },
        _ => {},
    }
}

/// Claim preserves consistency: it only flips the processed flag.
pub proof fn lemma_consistent_after_claim(s: AuctionRecords, k: int)
    requires
        s.consistent(),
        0 <= k < s.bids.len(),
        claim_spec(s.auction, s.bids[k]).1 is Ok,
    ensures
        (AuctionRecords {
            auction: s.auction,
            bids: s.bids.update(k, claim_spec(s.auction, s.bids[k]).0),
        }).consistent(),
{
    let b2 = claim_spec(s.auction, s.bids[k]).0;
    let bids2 = s.bids.update(k, b2);
    assert(forall|i: int| 0 <= i < s.bids.len() && i != k ==> bids2[i] == s.bids[i]);
    assert(bids2[k] == b2);
    match (s.auction.highest_bid, s.auction.highest_bidder) {
        (Some(h), Some(w)) => {
            let i0 = choose|i: int|
                0 <= i < s.bids.len() && (#[trigger] s.bids[i]).bidder == w
                    && s.bids[i].is_revealed && s.bids[i].revealed_amount == Some(h)
                    && s.bids[i].deposit_locked >= h;
            assert(bids2[i0].bidder == w && bids2[i0].is_revealed && bids2[i0].revealed_amount
                == Some(h) && bids2[i0].deposit_locked >= h);
        },
        _ => {},
    }
}

/// Settlement, winner determination, disbursement and cancellation change
/// only the status and keep every record, so consistency carries through
/// all of them.
pub proof fn lemma_consistent_after_status_change(
    s: AuctionRecords,
    wb: Bid,
    caller: [u8; 32],
    now: u64,
)
    requires
        s.consistent(),
    ensures
        (AuctionRecords { auction: settle_spec(s.auction, now).0, bids: s.bids }).consistent(),
        s.auction.config.style == SettlementStyle::TwoPhase ==> (AuctionRecords {
            auction: finalize_spec(s.auction, now).0,
            bids: s.bids,
        }).consistent(),
        (AuctionRecords { auction: complete_spec(s.auction, wb).0, bids: s.bids }).consistent(),
        (AuctionRecords { auction: cancel_spec(s.auction, caller, now).0, bids: s.bids }).consistent(),
{
}

proof fn lemma_count_zero_when_absent(a: Auction, bids: Seq<Bid>, w: [u8; 32])
    requires
        a.highest_bidder == Some(w),
        forall|i: int| 0 <= i < bids.len() ==> (#[trigger] bids[i]).bidder != w,
    ensures
        winner_count(a, bids) == 0,
    decreases bids.len(),
{
    if bids.len() > 0 {
        let rest = bids.drop_first();
        assert forall|i: int| 0 <= i < rest.len() implies (#[trigger] rest[i]).bidder != w by {
            assert(rest[i] == bids[i + 1]);
        }
        lemma_count_zero_when_absent(a, rest, w);
    }
}

proof fn lemma_count_one_at_witness(a: Auction, bids: Seq<Bid>, w: [u8; 32], k: int)
    requires
        a.highest_bidder == Some(w),
        0 <= k < bids.len(),
        bids[k].bidder == w,
        forall|i: int, j: int|
            0 <= i < j < bids.len() ==> (#[trigger] bids[i]).bidder != (#[trigger] bids[j]).bidder,
    ensures
        winner_count(a, bids) == 1,
    decreases bids.len(),
{
    let rest = bids.drop_first();
    if k == 0 {
        assert(is_winning_bid(a, bids[0]));
        assert forall|i: int| 0 <= i < rest.len() implies (#[trigger] rest[i]).bidder != w by {
            assert(rest[i] == bids[i + 1]);
            assert(bids[0].bidder != bids[i + 1].bidder);
        }
        lemma_count_zero_when_absent(a, rest, w);
    } else {
        assert(bids[0].bidder != bids[k].bidder);
        assert(!is_winning_bid(a, bids[0]));
        assert forall|i: int, j: int|
            0 <= i < j < rest.len() implies (#[trigger] rest[i]).bidder != (
        #[trigger] rest[j]).bidder by {
            assert(rest[i] == bids[i + 1]);
            assert(rest[j] == bids[j + 1]);
        }
        assert(rest[k - 1] == bids[k]);
        lemma_count_one_at_witness(a, rest, w, k - 1);
    }
}

/// Conservation over every reachable outcome: a consistent configuration
/// that has reached a terminal status balances its books with no further
/// hypotheses — the collateral checked at reveal time and the uniqueness of
/// the records are what make it so.
pub proof fn lemma_conservation_reachable(s: AuctionRecords)
    requires
        s.consistent(),
        s.auction.spec_is_terminal(),
    ensures
        total_refunds(s.auction, s.bids) + total_forfeits(s.bids) + seller_proceeds(s.auction)
            == total_deposits(s.bids),
{
    let a = s.auction;
    let bids = s.bids;
    if a.status == AuctionStatus::Settled {
        let h = a.highest_bid.unwrap();
        let w = a.highest_bidder.unwrap();
        let k = choose|i: int|
            0 <= i < bids.len() && (#[trigger] bids[i]).bidder == w && bids[i].is_revealed
                && bids[i].revealed_amount == Some(h) && bids[i].deposit_locked >= h;
        lemma_count_one_at_witness(a, bids, w, k);
        assert forall|i: int|
            0 <= i < bids.len() implies ((a.status == AuctionStatus::Settled && is_winning_bid(
            a,
            #[trigger] bids[i],
        )) ==> (bids[i].is_revealed && bids[i].deposit_locked >= seller_proceeds(a))) by {
            if is_winning_bid(a, bids[i]) && i != k {
                if i < k {
                    assert(bids[i].bidder != bids[k].bidder);
                } else {
                    assert(bids[k].bidder != bids[i].bidder);
                }
            }
        }
        lemma_conservation(a, bids);
    } else {
        lemma_conservation(a, bids);
    }
}

/// Which statuses may follow a given one: the lifecycle is one-directional,
/// and a terminal status never changes again.
pub open spec fn status_progresses(before: AuctionStatus, after: AuctionStatus) -> bool {
    match before {
        AuctionStatus::Active => true,
        AuctionStatus::Finalized => after == AuctionStatus::Finalized || after
            == AuctionStatus::Settled || after == AuctionStatus::Cancelled,
        AuctionStatus::Settled => after == AuctionStatus::Settled,
        AuctionStatus::Cancelled => after == AuctionStatus::Cancelled,
    }
}

/// No operation ever moves an auction's status backwards, whatever its
/// inputs; in particular no terminal auction ever leaves its terminal
/// status.
pub proof fn lemma_status_monotone(
    a: Auction,
    b: Bid,
    caller: [u8; 32],
    bidder: [u8; 32],
    commitment: [u8; 32],
    amount: u64,
    deposit: u64,
    nonce: [u8; 32],
    now: u64,
)
    ensures
        status_progresses(a.status, settle_spec(a, now).0.status),
        status_progresses(a.status, finalize_spec(a, now).0.status),
        status_progresses(a.status, complete_spec(a, b).0.status),
        status_progresses(a.status, cancel_spec(a, caller, now).0.status),
        status_progresses(a.status, submit_spec(a, bidder, commitment, deposit, now).0.status),
        status_progresses(a.status, reveal_spec(a, b, amount, nonce, now).0.status),
{
}

/// A successful settlement disburses the asset exactly once: to the winner
/// precisely when the auction ends `Settled` (the `Sold` outcome carries the
/// winner and the price owed to the seller), and back to the seller
/// precisely when it ends `Cancelled` — never both, never neither.
pub proof fn lemma_exactly_one_disbursement(a: Auction, now: u64)
    requires
        a.well_formed(),
        settle_spec(a, now).1 is Ok,
    ensures
        (settle_spec(a, now).1 matches Ok(SettleOutcome::Sold(_))) <==> settle_spec(
            a,
            now,
        ).0.status == AuctionStatus::Settled,
        settle_spec(a, now).1 == Ok::<SettleOutcome, AuctionError>(SettleOutcome::ReserveNotMet)
            <==> settle_spec(a, now).0.status == AuctionStatus::Cancelled,
{
}

/// A bidder who never revealed claims nothing, whatever the terminal
/// outcome: the locked collateral is forfeited.
pub proof fn lemma_non_revealer_forfeits(a: Auction, b: Bid)
    requires
        a.spec_is_terminal(),
        b.auction_id == a.auction_id,
        !b.claim_processed,
        !b.is_revealed,
    ensures
        claim_spec(a, b).1 == Ok::<u64, AuctionError>(0),
{
}

} // verus!
