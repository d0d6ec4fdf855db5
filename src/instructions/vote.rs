use vstd::prelude::*;
use crate::common::ErrorCode;
use crate::registry::{lemma_votes_for_push, votes_for, NftContest};
use crate::state::{PrincipalId, VoteData};

verus! {

/// A request to vote: who votes, and in which contest.
#[derive(Clone, Copy, Debug, PartialEq, Eq, Structural)]
pub struct Vote {
    pub voter: PrincipalId,
    pub contest_id: u64,
}

/// The outcome of a vote at time `now`. A second vote by the same voter in
/// the same contest is refused before anything else is looked at.
pub open spec fn vote_result(s: NftContest, ctx: Vote, voted_artwork_id: u64, now: u64) -> Result<(), ErrorCode> {
    if !s.has_contest(ctx.contest_id) {
        Err(ErrorCode::UnknownContest)
    } else if s.records(ctx.contest_id).has_voter(ctx.voter) {
        Err(ErrorCode::DuplicateVote)
    } else {
        let c = s.records(ctx.contest_id).contest;
        if voted_artwork_id >= c.artwork_count {
            Err(ErrorCode::InvalidArtwork)
        } else if now < c.vote_start_at || now > c.vote_end_at {
            Err(ErrorCode::VotingClosed)
        } else if c.tally()[voted_artwork_id as int] == u64::MAX {
            Err(ErrorCode::ArithmeticOverflow)
        } else {
            Ok(())
        }
    }
}

/// Records the vote and adds one to the voted artwork's tally.
pub fn handler(state: &mut NftContest, ctx: Vote, voted_artwork_id: u64, now: u64) -> (r: Result<(), ErrorCode>)
    requires
        old(state).wf(),
    ensures
        final(state).wf(),
        r == vote_result(*old(state), ctx, voted_artwork_id, now),
        r is Err ==> *final(state) == *old(state),
        r is Ok ==> {
            let o = old(state).records(ctx.contest_id);
            let n = final(state).records(ctx.contest_id);
            let i = voted_artwork_id as int;
            &&& final(state).counter == old(state).counter
            &&& final(state).contests@ == old(state).contests@.update(ctx.contest_id as int, n)
            &&& n.contest.same_terms(o.contest)
            &&& n.contest.artwork_count == o.contest.artwork_count
            &&& n.contest.tally() == o.contest.tally().update(i, (o.contest.tally()[i] + 1) as u64)
            &&& n.artworks@ == o.artworks@
            &&& n.votes@ == o.votes@.push(VoteData { voter_key: ctx.voter, voted_artwork_id })
            &&& n.claims@ == o.claims@
        },
{
    if ctx.contest_id >= state.contests.len() as u64 {
        return Err(ErrorCode::UnknownContest);
    }
    let cid = ctx.contest_id as usize;
    proof {
        assert(state.contests@[cid as int].wf(cid as u64));
    }
    match state.contests[cid].vote_of(ctx.voter) {
        Some(_) => {
            return Err(ErrorCode::DuplicateVote);
        },
        None => {},
    }
    let contest = &state.contests[cid].contest;
    if voted_artwork_id >= contest.artwork_count {
        return Err(ErrorCode::InvalidArtwork);
    }
    if now < contest.vote_start_at || now > contest.vote_end_at {
        return Err(ErrorCode::VotingClosed);
    }
    let len = contest.artworks_vote_counter.len();
    proof {
        assert(contest.tally().len() == contest.artwork_count);
        assert(voted_artwork_id < len);
    }
    let a = voted_artwork_id as usize;
    let count = contest.artworks_vote_counter[a];
    if count == u64::MAX {
        return Err(ErrorCode::ArithmeticOverflow);
    }
    let ghost before = state.contests@[cid as int];
    let records = &mut state.contests[cid];
    records.votes.push(VoteData { voter_key: ctx.voter, voted_artwork_id });
    records.contest.artworks_vote_counter.set(a, count + 1);
    proof {
        let after = state.contests@[cid as int];
        assert(state.contests@ =~= old(state).contests@.update(cid as int, after));
        assert(after.contest.tally() =~= before.contest.tally().update(a as int, (count + 1) as u64));
        assert forall|k: int, l: int|
            0 <= k < after.votes@.len() && 0 <= l < after.votes@.len()
                && (#[trigger] after.votes@[k]).voter_key == (#[trigger] after.votes@[l]).voter_key
                implies k == l by {
            if k < before.votes@.len() && l == before.votes@.len() {
                assert(before.votes@[k].voter_key == ctx.voter);
            }
            if l < before.votes@.len() && k == before.votes@.len() {
                assert(before.votes@[l].voter_key == ctx.voter);
            }
        }
        assert(before.wf(cid as u64));
        assert forall|k: int| 0 <= k < after.contest.tally().len() implies #[trigger] after.contest.tally()[k]
            == votes_for(after.votes@, k as u64) by {
            lemma_votes_for_push(before.votes@, VoteData { voter_key: ctx.voter, voted_artwork_id }, k as u64);
            assert(before.contest.tally()[k] == votes_for(before.votes@, k as u64));
        }
        assert(after.wf(cid as u64));
        assert forall|i: int| 0 <= i < state.contests@.len() implies (#[trigger] state.contests@[i]).wf(i as u64) by {
            if i != cid as int {
                assert(state.contests@[i] == old(state).contests@[i]);
            }
        }
    }
    Ok(())
}

} // verus!
