use vstd::prelude::*;
use crate::common::ErrorCode;
use crate::registry::NftContest;
use crate::settlement::{is_first_max, lemma_winner_unique, winning_artwork};
use crate::state::{Claim, ClaimRole, PrincipalId, Release};

verus! {

/// A request by a contest's owner to collect the NFT of the given artwork.
#[derive(Clone, Copy, Debug, PartialEq, Eq, Structural)]
pub struct ClaimByContestOwner {
    pub contest_owner: PrincipalId,
    pub contest_id: u64,
    pub artwork_id: u64,
}

/// The outcome of the owner's claim at time `now`: the winning NFT to
/// release from its vault, or the first failed check.
pub open spec fn claim_by_contest_owner_result(s: NftContest, ctx: ClaimByContestOwner, now: u64) -> Result<
    Release,
    ErrorCode,
> {
    if !s.has_contest(ctx.contest_id) {
        Err(ErrorCode::UnknownContest)
    } else {
        let r = s.records(ctx.contest_id);
        let c = r.contest;
        if now <= c.vote_end_at {
            Err(ErrorCode::VotingNotEnded)
        } else if c.tally().len() == 0 {
            Err(ErrorCode::NoSubmissions)
        } else if ctx.contest_owner != c.contest_owner {
            Err(ErrorCode::NotContestOwner)
        } else if ctx.artwork_id >= c.artwork_count {
            Err(ErrorCode::InvalidArtwork)
        } else if !is_first_max(c.tally(), ctx.artwork_id as int) {
            Err(ErrorCode::NotWinner)
        } else if r.has_claimed(Claim { role: ClaimRole::ContestOwner, claimant: ctx.contest_owner }) {
            Err(ErrorCode::AlreadyClaimed)
        } else {
            Ok(
                Release {
                    vault: r.artworks@[ctx.artwork_id as int].nft_vault,
                    recipient: ctx.contest_owner,
                    amount: 1,
                },
            )
        }
    }
}

/// Hands the winning NFT to the contest's owner once: checks the claim,
/// recomputing the winner from the tally, and records it. The host then
/// carries out the release.
pub fn handler(state: &mut NftContest, ctx: ClaimByContestOwner, now: u64) -> (r: Result<Release, ErrorCode>)
    requires
        old(state).wf(),
    ensures
        final(state).wf(),
        r == claim_by_contest_owner_result(*old(state), ctx, now),
        r is Err ==> *final(state) == *old(state),
        r is Ok ==> NftContest::claim_recorded(
            *old(state),
            *final(state),
            ctx.contest_id,
            Claim { role: ClaimRole::ContestOwner, claimant: ctx.contest_owner },
        ),
{
    if ctx.contest_id >= state.contests.len() as u64 {
        return Err(ErrorCode::UnknownContest);
    }
    let cid = ctx.contest_id as usize;
    let records = &state.contests[cid];
    proof {
        assert(old(state).contests@[cid as int].wf(cid as u64));
    }
    if now <= records.contest.vote_end_at {
        return Err(ErrorCode::VotingNotEnded);
    }
    let winner = match winning_artwork(&records.contest) {
        Err(e) => {
            return Err(e);
        },
        Ok((w, _)) => w,
    };
    if ctx.contest_owner != records.contest.contest_owner {
        return Err(ErrorCode::NotContestOwner);
    }
    if ctx.artwork_id >= records.contest.artwork_count {
        return Err(ErrorCode::InvalidArtwork);
    }
    if ctx.artwork_id != winner {
        proof {
            if is_first_max(records.contest.tally(), ctx.artwork_id as int) {
                lemma_winner_unique(records.contest.tally(), ctx.artwork_id as int, winner as int);
            }
        }
        return Err(ErrorCode::NotWinner);
    }
    let claim = Claim { role: ClaimRole::ContestOwner, claimant: ctx.contest_owner };
    if records.claimed(claim) {
        return Err(ErrorCode::AlreadyClaimed);
    }
    let len = records.artworks.len();
    proof {
        assert(ctx.artwork_id < len);
    }
    let release = Release {
        vault: records.artworks[ctx.artwork_id as usize].nft_vault,
        recipient: ctx.contest_owner,
        amount: 1,
    };
    state.record_claim(ctx.contest_id, claim);
    Ok(release)
}

} // verus!
