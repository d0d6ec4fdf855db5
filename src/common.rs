use vstd::prelude::*;

verus! {

/// Every way an operation on the contest program can fail. A failed
/// operation changes no state.
#[derive(Clone, Copy, Debug, PartialEq, Eq, Structural)]
pub enum ErrorCode {
    /// `initialize` was called on a counter that is already initialized.
    CounterAlreadyInitialized,
    /// A contest was launched before the counter was initialized.
    CounterNotInitialized,
    /// The submission and voting windows are not ordered.
    InvalidSchedule,
    /// The artist's share is above one hundred percent.
    InvalidPercentage,
    /// The owner holds less than the prize amount.
    InsufficientFunds,
    /// No contest has the given identifier.
    UnknownContest,
    /// The artist already submitted an artwork to this contest.
    DuplicateSubmission,
    /// The artist does not hold exactly one unit of the NFT to escrow.
    NftNotHeld,
    /// The submission window is not open at the given time.
    SubmissionClosed,
    /// The voter already voted in this contest.
    DuplicateVote,
    /// No artwork of the contest has the given identifier.
    InvalidArtwork,
    /// The voting window is not open at the given time.
    VotingClosed,
    /// Claims are only accepted after the voting window has ended.
    VotingNotEnded,
    /// The contest received no submissions, so it has no winner.
    NoSubmissions,
    /// The caller is not the artist of the given artwork.
    NotArtist,
    /// The caller cast no vote in this contest.
    VoteNotFound,
    /// The caller's vote went to another artwork than the given one.
    VoteMismatch,
    /// The caller is not the owner of the contest.
    NotContestOwner,
    /// The given artwork is not the winning artwork.
    NotWinner,
    /// The caller already claimed in this role for this contest.
    AlreadyClaimed,
    /// The winning artwork has no votes, so there is no voter share.
    NoVotesForWinner,
    /// A product or a counter does not fit in 64 bits.
    ArithmeticOverflow,
}

} // verus!
