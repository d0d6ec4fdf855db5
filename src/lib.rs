//! Escrowed NFT art contests: a contest owner funds a prize pool, artists
//! submit one NFT each, voters cast one vote each, and after voting closes
//! the winning artist and the voters who backed the winner split the pool.
//!
//! The library holds the contest records and decides every state
//! transition; moving tokens on a ledger is left to the host, which carries
//! out the `Release` actions that the claim operations return.
use vstd::prelude::*;

pub mod common;
pub mod instructions;
pub mod laws;
pub mod registry;
pub mod settlement;
pub mod state;

use crate::common::ErrorCode;
use crate::instructions::claim_by_artist::{claim_by_artist_result, ClaimByArtist};
use crate::instructions::claim_by_contest_owner::{claim_by_contest_owner_result, ClaimByContestOwner};
use crate::instructions::claim_by_voter::{claim_by_voter_result, ClaimByVoter};
use crate::instructions::initialize::{initialize_result, Initialize};
use crate::instructions::launch::{launch_result, launched_records, Launch};
use crate::instructions::submit::{submit_result, submitted_artwork, Submit};
use crate::instructions::vote::{vote_result, Vote};
use crate::registry::NftContest;
use crate::state::{Claim, ClaimRole, Counter, Release, VoteData};

verus! {

/// Sets up the contest counter; see `instructions::initialize`.
pub fn initialize(state: &mut NftContest, ctx: Initialize) -> (r: Result<(), ErrorCode>)
    requires
        old(state).wf(),
    ensures
        final(state).wf(),
        r == initialize_result(*old(state)),
        r is Ok ==> final(state).counter == (Counter { is_initialized: true, contest_count: 0 })
            && final(state).contests == old(state).contests,
        r is Err ==> *final(state) == *old(state),
{
    instructions::initialize::handler(state, ctx)
}

/// Opens a contest and returns its identifier; see `instructions::launch`.
pub fn launch(
    state: &mut NftContest,
    ctx: Launch,
    prize_amount: u64,
    percentage_to_artist: u8,
    submit_start_at: u64,
    submit_end_at: u64,
    vote_start_at: u64,
    vote_end_at: u64,
    title_of_contest: Vec<u8>,
    link_to_project: Vec<u8>,
) -> (r: Result<u64, ErrorCode>)
    requires
        old(state).wf(),
    ensures
        final(state).wf(),
        r == launch_result(
            *old(state),
            ctx,
            prize_amount,
            percentage_to_artist,
            submit_start_at,
            submit_end_at,
            vote_start_at,
            vote_end_at,
        ),
        r is Err ==> *final(state) == *old(state),
        r matches Ok(id) ==> {
            &&& final(state).counter == (Counter { is_initialized: true, contest_count: (id + 1) as u64 })
            &&& final(state).contests@.len() == old(state).contests@.len() + 1
            &&& final(state).contests@.drop_last() == old(state).contests@
            &&& launched_records(
                final(state).contests@.last(),
                id,
                ctx.contest_owner,
                prize_amount,
                percentage_to_artist,
                submit_start_at,
                submit_end_at,
                vote_start_at,
                vote_end_at,
                title_of_contest@,
                link_to_project@,
            )
        },
{
    instructions::launch::handler(
        state,
        ctx,
        prize_amount,
        percentage_to_artist,
        submit_start_at,
        submit_end_at,
        vote_start_at,
        vote_end_at,
        title_of_contest,
        link_to_project,
    )
}

/// Enters an artwork and returns its identifier; see `instructions::submit`.
pub fn submit(state: &mut NftContest, ctx: Submit, now: u64) -> (r: Result<u64, ErrorCode>)
    requires
        old(state).wf(),
    ensures
        final(state).wf(),
        r == submit_result(*old(state), ctx, now),
        r is Err ==> *final(state) == *old(state),
        r matches Ok(id) ==> {
            let o = old(state).records(ctx.contest_id);
            let n = final(state).records(ctx.contest_id);
            &&& final(state).counter == old(state).counter
            &&& final(state).contests@ == old(state).contests@.update(ctx.contest_id as int, n)
            &&& n.contest.same_terms(o.contest)
            &&& n.contest.artwork_count == o.contest.artwork_count + 1
            &&& n.contest.tally() == o.contest.tally().push(0)
            &&& n.artworks@ == o.artworks@.push(submitted_artwork(ctx, id))
            &&& n.votes@ == o.votes@
            &&& n.claims@ == o.claims@
        },
{
    instructions::submit::handler(state, ctx, now)
}

/// Casts a vote for an artwork; see `instructions::vote`.
pub fn vote(state: &mut NftContest, ctx: Vote, voted_artwork_id: u64, now: u64) -> (r: Result<(), ErrorCode>)
    requires
        old(state).wf(),
    ensures
        final(state).wf(),
        r == vote_result(*old(state), ctx, voted_artwork_id, now),
        r is Err ==> *final(state) == *old(state),
        r is Ok ==> {
            let o = old(state).records(ctx.contest_id);
            let n = final(state).records(ctx.contest_id);
            let i = voted_artwork_id as int;
            &&& final(state).counter == old(state).counter
            &&& final(state).contests@ == old(state).contests@.update(ctx.contest_id as int, n)
            &&& n.contest.same_terms(o.contest)
            &&& n.contest.artwork_count == o.contest.artwork_count
            &&& n.contest.tally() == o.contest.tally().update(i, (o.contest.tally()[i] + 1) as u64)
            &&& n.artworks@ == o.artworks@
            &&& n.votes@ == o.votes@.push(VoteData { voter_key: ctx.voter, voted_artwork_id })
            &&& n.claims@ == o.claims@
        },
{
    instructions::vote::handler(state, ctx, voted_artwork_id, now)
}

/// Pays the winning artist's share; see `instructions::claim_by_artist`.
pub fn claim_by_artist(state: &mut NftContest, ctx: ClaimByArtist, now: u64) -> (r: Result<Release, ErrorCode>)
    requires
        old(state).wf(),
    ensures
        final(state).wf(),
        r == claim_by_artist_result(*old(state), ctx, now),
        r is Err ==> *final(state) == *old(state),
        r is Ok ==> NftContest::claim_recorded(
            *old(state),
            *final(state),
            ctx.contest_id,
            Claim { role: ClaimRole::Artist, claimant: ctx.artist },
        ),
{
    instructions::claim_by_artist::handler(state, ctx, now)
}

/// Pays one voter's share; see `instructions::claim_by_voter`.
pub fn claim_by_voter(state: &mut NftContest, ctx: ClaimByVoter, now: u64) -> (r: Result<Release, ErrorCode>)
    requires
        old(state).wf(),
    ensures
        final(state).wf(),
        r == claim_by_voter_result(*old(state), ctx, now),
        r is Err ==> *final(state) == *old(state),
        r is Ok ==> NftContest::claim_recorded(
            *old(state),
            *final(state),
            ctx.contest_id,
            Claim { role: ClaimRole::Voter, claimant: ctx.voter },
        ),
{
    instructions::claim_by_voter::handler(state, ctx, now)
}

/// Hands the winning NFT to the contest's owner; see
/// `instructions::claim_by_contest_owner`.
pub fn claim_by_contest_owner(state: &mut NftContest, ctx: ClaimByContestOwner, now: u64) -> (r: Result<
    Release,
    ErrorCode,
>)
    requires
        old(state).wf(),
    ensures
        final(state).wf(),
        r == claim_by_contest_owner_result(*old(state), ctx, now),
        r is Err ==> *final(state) == *old(state),
        r is Ok ==> NftContest::claim_recorded(
            *old(state),
            *final(state),
            ctx.contest_id,
            Claim { role: ClaimRole::ContestOwner, claimant: ctx.contest_owner },
        ),
{
    instructions::claim_by_contest_owner::handler(state, ctx, now)
}

} // verus!
