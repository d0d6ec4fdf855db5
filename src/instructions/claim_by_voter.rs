use vstd::prelude::*;
use crate::common::ErrorCode;
use crate::registry::NftContest;
use crate::settlement::{is_first_max, lemma_winner_unique, voter_payout, voter_share, winning_artwork};
use crate::state::{Claim, ClaimRole, PrincipalId, Release};

verus! {

/// A request by a voter to collect one voter's share of a contest's prize,
/// naming the artwork the voter backed.
#[derive(Clone, Copy, Debug, PartialEq, Eq, Structural)]
pub struct ClaimByVoter {
    pub voter: PrincipalId,
    pub contest_id: u64,
    pub artwork_id: u64,
}

/// The outcome of a voter's claim at time `now`: the payout to release from
/// the prize vault, or the first failed check.
pub open spec fn claim_by_voter_result(s: NftContest, ctx: ClaimByVoter, now: u64) -> Result<Release, ErrorCode> {
    if !s.has_contest(ctx.contest_id) {
        Err(ErrorCode::UnknownContest)
    } else {
        let r = s.records(ctx.contest_id);
        let c = r.contest;
        if now <= c.vote_end_at {
            Err(ErrorCode::VotingNotEnded)
        } else if c.tally().len() == 0 {
            Err(ErrorCode::NoSubmissions)
        } else if !r.has_voter(ctx.voter) {
            Err(ErrorCode::VoteNotFound)
        } else if !r.voted_for(ctx.voter, ctx.artwork_id) {
            Err(ErrorCode::VoteMismatch)
        } else if !is_first_max(c.tally(), ctx.artwork_id as int) {
            Err(ErrorCode::NotWinner)
        } else if r.has_claimed(Claim { role: ClaimRole::Voter, claimant: ctx.voter }) {
            Err(ErrorCode::AlreadyClaimed)
        } else if c.prize_amount * (100 - c.percentage_to_artist) > u64::MAX {
            Err(ErrorCode::ArithmeticOverflow)
        } else if c.tally()[ctx.artwork_id as int] == 0 {
            Err(ErrorCode::NoVotesForWinner)
        } else {
            Ok(
                Release {
                    vault: c.prize_vault,
                    recipient: ctx.voter,
                    amount: voter_share(
                        c.prize_amount as int,
                        c.percentage_to_artist as int,
                        c.tally()[ctx.artwork_id as int] as int,
                    ) as u64,
                },
            )
        }
    }
}

/// Pays a voter who backed the winner once: checks the claim, recomputing
/// the winner from the tally, and records it. The host then carries out the
/// release.
pub fn handler(state: &mut NftContest, ctx: ClaimByVoter, now: u64) -> (r: Result<Release, ErrorCode>)
    requires
        old(state).wf(),
    ensures
        final(state).wf(),
        r == claim_by_voter_result(*old(state), ctx, now),
        r is Err ==> *final(state) == *old(state),
        r is Ok ==> NftContest::claim_recorded(
            *old(state),
            *final(state),
            ctx.contest_id,
            Claim { role: ClaimRole::Voter, claimant: ctx.voter },
        ),
{
    if ctx.contest_id >= state.contests.len() as u64 {
        return Err(ErrorCode::UnknownContest);
    }
    let cid = ctx.contest_id as usize;
    let records = &state.contests[cid];
    proof {
        assert(old(state).contests@[cid as int].wf(cid as u64));
    }
    if now <= records.contest.vote_end_at {
        return Err(ErrorCode::VotingNotEnded);
    }
    let (winner, winner_votes) = match winning_artwork(&records.contest) {
        Err(e) => {
            return Err(e);
        },
        Ok(w) => w,
    };
    match records.vote_of(ctx.voter) {
        None => {
            return Err(ErrorCode::VoteNotFound);
        },
        Some(id) => {
            if id != ctx.artwork_id {
                return Err(ErrorCode::VoteMismatch);
            }
        },
    }
    if ctx.artwork_id != winner {
        proof {
            if is_first_max(records.contest.tally(), ctx.artwork_id as int) {
                lemma_winner_unique(records.contest.tally(), ctx.artwork_id as int, winner as int);
            }
        }
        return Err(ErrorCode::NotWinner);
    }
    let claim = Claim { role: ClaimRole::Voter, claimant: ctx.voter };
    if records.claimed(claim) {
        return Err(ErrorCode::AlreadyClaimed);
    }
    let amount = match voter_payout(&records.contest, winner_votes) {
        Err(e) => {
            return Err(e);
        },
        Ok(a) => a,
    };
    let release = Release { vault: records.contest.prize_vault, recipient: ctx.voter, amount };
    state.record_claim(ctx.contest_id, claim);
    Ok(release)
}

} // verus!
