use vstd::prelude::*;
use crate::common::ErrorCode;
use crate::registry::{ContestRecords, NftContest};
use crate::state::{schedule_ok, Contest, Counter, PrincipalId, Vault, VaultKind};

verus! {

/// A request to open a contest: who owns it, and how many prize tokens the
/// owner holds.
#[derive(Clone, Copy, Debug, PartialEq, Eq, Structural)]
pub struct Launch {
    pub contest_owner: PrincipalId,
    pub prize_token_amount: u64,
}

/// The outcome of a launch: the new contest's identifier, or the first
/// failed check.
pub open spec fn launch_result(
    s: NftContest,
    ctx: Launch,
    prize_amount: u64,
    percentage_to_artist: u8,
    submit_start_at: u64,
    submit_end_at: u64,
    vote_start_at: u64,
    vote_end_at: u64,
) -> Result<u64, ErrorCode> {
    if !s.counter.is_initialized {
        Err(ErrorCode::CounterNotInitialized)
    } else if !schedule_ok(submit_start_at, submit_end_at, vote_start_at, vote_end_at) {
        Err(ErrorCode::InvalidSchedule)
    } else if percentage_to_artist > 100 {
        Err(ErrorCode::InvalidPercentage)
    } else if ctx.prize_token_amount < prize_amount {
        Err(ErrorCode::InsufficientFunds)
    } else if s.counter.contest_count == u64::MAX {
        Err(ErrorCode::ArithmeticOverflow)
    } else {
        Ok(s.counter.contest_count)
    }
}

/// `r` holds a newly launched contest with these terms, and nothing else.
pub open spec fn launched_records(
    r: ContestRecords,
    id: u64,
    owner: PrincipalId,
    prize_amount: u64,
    percentage_to_artist: u8,
    submit_start_at: u64,
    submit_end_at: u64,
    vote_start_at: u64,
    vote_end_at: u64,
    title: Seq<u8>,
    link: Seq<u8>,
) -> bool {
    let c = r.contest;
    &&& c.contest_id == id
    &&& c.contest_owner == owner
    &&& c.prize_amount == prize_amount
    &&& c.percentage_to_artist == percentage_to_artist
    &&& c.submit_start_at == submit_start_at
    &&& c.submit_end_at == submit_end_at
    &&& c.vote_start_at == vote_start_at
    &&& c.vote_end_at == vote_end_at
    &&& c.title_of_contest@ == title
    &&& c.link_to_project@ == link
    &&& c.artwork_count == 0
    &&& c.tally().len() == 0
    &&& c.prize_vault == Vault::delegated(VaultKind::Prize, id)
    &&& r.artworks@.len() == 0
    &&& r.votes@.len() == 0
    &&& r.claims@.len() == 0
}

/// Opens a contest under the next identifier, with its prize vault handed to
/// the program's signer. The host then moves `prize_amount` from the owner
/// into that vault.
pub fn handler(
    state: &mut NftContest,
    ctx: Launch,
    prize_amount: u64,
    percentage_to_artist: u8,
    submit_start_at: u64,
    submit_end_at: u64,
    vote_start_at: u64,
    vote_end_at: u64,
    title_of_contest: Vec<u8>,
    link_to_project: Vec<u8>,
) -> (r: Result<u64, ErrorCode>)
    requires
        old(state).wf(),
    ensures
        final(state).wf(),
        r == launch_result(
            *old(state),
            ctx,
            prize_amount,
            percentage_to_artist,
            submit_start_at,
            submit_end_at,
            vote_start_at,
            vote_end_at,
        ),
        r is Err ==> *final(state) == *old(state),
        r matches Ok(id) ==> {
            &&& final(state).counter == (Counter { is_initialized: true, contest_count: (id + 1) as u64 })
            &&& final(state).contests@.len() == old(state).contests@.len() + 1
            &&& final(state).contests@.drop_last() == old(state).contests@
            &&& launched_records(
                final(state).contests@.last(),
                id,
                ctx.contest_owner,
                prize_amount,
                percentage_to_artist,
                submit_start_at,
                submit_end_at,
                vote_start_at,
                vote_end_at,
                title_of_contest@,
                link_to_project@,
            )
        },
{
    if !state.counter.is_initialized {
        return Err(ErrorCode::CounterNotInitialized);
    }
    if !(submit_start_at <= submit_end_at && vote_start_at <= vote_end_at && submit_start_at <= vote_start_at) {
        return Err(ErrorCode::InvalidSchedule);
    }
    if percentage_to_artist > 100 {
        return Err(ErrorCode::InvalidPercentage);
    }
    if ctx.prize_token_amount < prize_amount {
        return Err(ErrorCode::InsufficientFunds);
    }
    let contest_id = match state.counter.next_contest_id() {
        Err(e) => {
            return Err(e);
        },
        Ok(id) => id,
    };
    let mut prize_vault = Vault::open(VaultKind::Prize, contest_id, ctx.contest_owner);
    prize_vault.delegate();
    let contest = Contest {
        contest_id,
        contest_owner: ctx.contest_owner,
        prize_amount,
        percentage_to_artist,
        submit_start_at,
        submit_end_at,
        vote_start_at,
        vote_end_at,
        title_of_contest,
        link_to_project,
        artwork_count: 0,
        artworks_vote_counter: Vec::new(),
        prize_vault,
    };
    let records = ContestRecords { contest, artworks: Vec::new(), votes: Vec::new(), claims: Vec::new() };
    state.contests.push(records);
    proof {
        assert(state.contests@.drop_last() =~= old(state).contests@);
        assert forall|i: int| 0 <= i < state.contests@.len() implies (#[trigger] state.contests@[i]).wf(i as u64) by {
            if i < old(state).contests@.len() {
                assert(state.contests@[i] == old(state).contests@[i]);
            }
        }
    }
    Ok(contest_id)
}

} // verus!
