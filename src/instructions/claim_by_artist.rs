use vstd::prelude::*;
use crate::common::ErrorCode;
use crate::registry::NftContest;
use crate::settlement::{artist_payout, artist_share, is_first_max, lemma_winner_unique, winning_artwork};
use crate::state::{Claim, ClaimRole, PrincipalId, Release};

verus! {

/// A request by an artist to collect the artist's share of a contest's
/// prize for the given artwork.
#[derive(Clone, Copy, Debug, PartialEq, Eq, Structural)]
pub struct ClaimByArtist {
    pub artist: PrincipalId,
    pub contest_id: u64,
    pub artwork_id: u64,
}

/// The outcome of an artist's claim at time `now`: the payout to release
/// from the prize vault, or the first failed check.
pub open spec fn claim_by_artist_result(s: NftContest, ctx: ClaimByArtist, now: u64) -> Result<Release, ErrorCode> {
    if !s.has_contest(ctx.contest_id) {
        Err(ErrorCode::UnknownContest)
    } else {
        let r = s.records(ctx.contest_id);
        let c = r.contest;
        if now <= c.vote_end_at {
            Err(ErrorCode::VotingNotEnded)
        } else if c.tally().len() == 0 {
            Err(ErrorCode::NoSubmissions)
        } else if ctx.artwork_id >= c.artwork_count {
            Err(ErrorCode::InvalidArtwork)
        } else if r.artworks@[ctx.artwork_id as int].artist_key != ctx.artist {
            Err(ErrorCode::NotArtist)
        } else if !is_first_max(c.tally(), ctx.artwork_id as int) {
            Err(ErrorCode::NotWinner)
        } else if r.has_claimed(Claim { role: ClaimRole::Artist, claimant: ctx.artist }) {
            Err(ErrorCode::AlreadyClaimed)
        } else if c.prize_amount * c.percentage_to_artist > u64::MAX {
            Err(ErrorCode::ArithmeticOverflow)
        } else {
            Ok(
                Release {
                    vault: c.prize_vault,
                    recipient: ctx.artist,
                    amount: artist_share(c.prize_amount as int, c.percentage_to_artist as int) as u64,
                },
            )
        }
    }
}

/// Pays the winning artist once: checks the claim, recomputing the winner
/// from the tally, and records it. The host then carries out the release.
pub fn handler(state: &mut NftContest, ctx: ClaimByArtist, now: u64) -> (r: Result<Release, ErrorCode>)
    requires
        old(state).wf(),
    ensures
        final(state).wf(),
        r == claim_by_artist_result(*old(state), ctx, now),
        r is Err ==> *final(state) == *old(state),
        r is Ok ==> NftContest::claim_recorded(
            *old(state),
            *final(state),
            ctx.contest_id,
            Claim { role: ClaimRole::Artist, claimant: ctx.artist },
        ),
{
    if ctx.contest_id >= state.contests.len() as u64 {
        return Err(ErrorCode::UnknownContest);
    }
    let cid = ctx.contest_id as usize;
    let records = &state.contests[cid];
    proof {
        assert(old(state).contests@[cid as int].wf(cid as u64));
    }
    if now <= records.contest.vote_end_at {
        return Err(ErrorCode::VotingNotEnded);
    }
    let winner = match winning_artwork(&records.contest) {
        Err(e) => {
            return Err(e);
        },
        Ok((w, _)) => w,
    };
    if ctx.artwork_id >= records.contest.artwork_count {
        return Err(ErrorCode::InvalidArtwork);
    }
    let len = records.artworks.len();
    proof {
        assert(ctx.artwork_id < len);
    }
    if records.artworks[ctx.artwork_id as usize].artist_key != ctx.artist {
        return Err(ErrorCode::NotArtist);
    }
    if ctx.artwork_id != winner {
        proof {
            if is_first_max(records.contest.tally(), ctx.artwork_id as int) {
                lemma_winner_unique(records.contest.tally(), ctx.artwork_id as int, winner as int);
            }
        }
        return Err(ErrorCode::NotWinner);
    }
    let claim = Claim { role: ClaimRole::Artist, claimant: ctx.artist };
    if records.claimed(claim) {
        return Err(ErrorCode::AlreadyClaimed);
    }
    let amount = match artist_payout(&records.contest) {
        Err(e) => {
            return Err(e);
        },
        Ok(a) => a,
    };
    let release = Release { vault: records.contest.prize_vault, recipient: ctx.artist, amount };
    state.record_claim(ctx.contest_id, claim);
    Ok(release)
}

} // verus!
