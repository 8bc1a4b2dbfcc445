//! Error kinds shared by every auction and bid operation.
//!
//! Every failure leaves the records it was given completely unchanged;
//! callers retry by simply invoking the operation again.

use vstd::prelude::*;

verus! {

/// Why an auction or bid operation was refused.
#[derive(Clone, Copy, Debug, PartialEq, Eq, Structural)]
pub enum AuctionError {
    /// The asset amount offered for sale is zero.
    InvalidAmount,
    /// The reserve price is zero.
    InvalidPrice,
    /// A deadline does not lie strictly after the window before it.
    InvalidDeadline,
    /// The auction is no longer (or not yet) accepting this operation.
    AuctionNotActive,
    /// The bidding deadline has passed.
    AuctionEnded,
    /// Reveals are not accepted until the commit window closes.
    CommitPeriodNotEnded,
    /// The reveal window has closed.
    RevealPeriodEnded,
    /// Winner determination must wait for the reveal window to close.
    RevealPeriodNotEnded,
    /// This bid was already revealed once.
    AlreadyRevealed,
    /// The revealed triple does not reproduce the stored commitment.
    InvalidCommitment,
    /// The locked collateral does not cover (or match) the revealed amount.
    DepositMismatch,
    /// The collateral offered at submission is below the reserve price.
    BidBelowMinimum,
    /// Settlement attempted before the auction's last window closed.
    AuctionStillActive,
    /// The auction already reached a terminal status.
    AlreadySettled,
    /// Claims are only served once the auction is terminal.
    AuctionNotSettled,
    /// This bid's claim was already paid out once.
    AlreadyClaimed,
    /// Disbursement attempted before the winner was determined.
    AuctionNotFinalized,
    /// The bid record does not belong to this auction, or is not the
    /// recorded winning bid where the winning bid is required.
    InvalidBid,
    /// The referenced bid was never revealed.
    BidNotRevealed,
    /// A seller-only action was attempted by another identity.
    Unauthorized,
    /// The auction cannot be cancelled at this time.
    CannotCancel,
}

} // verus!
