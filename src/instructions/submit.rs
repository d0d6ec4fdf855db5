use vstd::prelude::*;
use crate::common::ErrorCode;
use crate::registry::{lemma_votes_for_absent, votes_for, NftContest};
use crate::state::{Artwork, PrincipalId, Vault, VaultKind};

verus! {

/// A request to enter an artwork: the artist, the contest, and the artist's
/// token account holding the NFT with its balance.
#[derive(Clone, Copy, Debug, PartialEq, Eq, Structural)]
pub struct Submit {
    pub artist: PrincipalId,
    pub contest_id: u64,
    pub artwork_token_account: PrincipalId,
    pub artwork_token_amount: u64,
}

/// The outcome of a submission at time `now`: the new artwork's identifier,
/// or the first failed check. A second submission by the same artist to the
/// same contest is refused before anything else is looked at.
pub open spec fn submit_result(s: NftContest, ctx: Submit, now: u64) -> Result<u64, ErrorCode> {
    if !s.has_contest(ctx.contest_id) {
        Err(ErrorCode::UnknownContest)
    } else if s.records(ctx.contest_id).has_artist(ctx.artist) {
        Err(ErrorCode::DuplicateSubmission)
    } else if ctx.artwork_token_amount != 1 {
        Err(ErrorCode::NftNotHeld)
    } else {
        let c = s.records(ctx.contest_id).contest;
        if now < c.submit_start_at || now > c.submit_end_at {
            Err(ErrorCode::SubmissionClosed)
        } else if c.artwork_count == u64::MAX {
            Err(ErrorCode::ArithmeticOverflow)
        } else {
            Ok(c.artwork_count)
        }
    }
}

/// The artwork record that a successful submission creates.
pub open spec fn submitted_artwork(ctx: Submit, artwork_id: u64) -> Artwork {
    Artwork {
        artwork_id,
        associated_contest_id: ctx.contest_id,
        artist_key: ctx.artist,
        artwork_token_account: ctx.artwork_token_account,
        nft_vault: Vault::delegated(VaultKind::Nft(ctx.artist), ctx.contest_id),
    }
}

/// Registers the artist's artwork under the next artwork identifier, gives
/// it an empty tally entry, and hands its NFT vault to the program's signer.
/// The host then moves the NFT into that vault.
pub fn handler(state: &mut NftContest, ctx: Submit, now: u64) -> (r: Result<u64, ErrorCode>)
    requires
        old(state).wf(),
    ensures
        final(state).wf(),
        r == submit_result(*old(state), ctx, now),
        r is Err ==> *final(state) == *old(state),
        r matches Ok(id) ==> {
            let o = old(state).records(ctx.contest_id);
            let n = final(state).records(ctx.contest_id);
            &&& final(state).counter == old(state).counter
            &&& final(state).contests@ == old(state).contests@.update(ctx.contest_id as int, n)
            &&& n.contest.same_terms(o.contest)
            &&& n.contest.artwork_count == o.contest.artwork_count + 1
            &&& n.contest.tally() == o.contest.tally().push(0)
            &&& n.artworks@ == o.artworks@.push(submitted_artwork(ctx, id))
            &&& n.votes@ == o.votes@
            &&& n.claims@ == o.claims@
        },
{
    if ctx.contest_id >= state.contests.len() as u64 {
        return Err(ErrorCode::UnknownContest);
    }
    let cid = ctx.contest_id as usize;
    if state.contests[cid].artist_submitted(ctx.artist) {
        return Err(ErrorCode::DuplicateSubmission);
    }
    if ctx.artwork_token_amount != 1 {
        return Err(ErrorCode::NftNotHeld);
    }
    if now < state.contests[cid].contest.submit_start_at || now > state.contests[cid].contest.submit_end_at {
        return Err(ErrorCode::SubmissionClosed);
    }
    if state.contests[cid].contest.artwork_count == u64::MAX {
        return Err(ErrorCode::ArithmeticOverflow);
    }
    let ghost before = state.contests@[cid as int];
    let artwork_id = state.contests[cid].contest.artwork_count;
    let mut nft_vault = Vault::open(VaultKind::Nft(ctx.artist), ctx.contest_id, ctx.artist);
    nft_vault.delegate();
    let artwork = Artwork {
        artwork_id,
        associated_contest_id: ctx.contest_id,
        artist_key: ctx.artist,
        artwork_token_account: ctx.artwork_token_account,
        nft_vault,
    };
    let records = &mut state.contests[cid];
    records.artworks.push(artwork);
    records.contest.artworks_vote_counter.push(0);
    records.contest.artwork_count = artwork_id + 1;
    proof {
        let after = state.contests@[cid as int];
        assert(state.contests@ =~= old(state).contests@.update(cid as int, after));
        assert forall|k: int, l: int|
            0 <= k < after.artworks@.len() && 0 <= l < after.artworks@.len()
                && (#[trigger] after.artworks@[k]).artist_key == (#[trigger] after.artworks@[l]).artist_key
                implies k == l by {
            if k < before.artworks@.len() && l == before.artworks@.len() {
                assert(before.artworks@[k].artist_key == ctx.artist);
            }
            if l < before.artworks@.len() && k == before.artworks@.len() {
                assert(before.artworks@[l].artist_key == ctx.artist);
            }
        }
        assert(before.wf(cid as u64));
        lemma_votes_for_absent(before.votes@, artwork_id);
        assert forall|k: int| 0 <= k < after.contest.tally().len() implies #[trigger] after.contest.tally()[k]
            == votes_for(after.votes@, k as u64) by {
            if k < before.contest.tally().len() {
                assert(after.contest.tally()[k] == before.contest.tally()[k]);
            }
        }
        assert(after.wf(cid as u64));
        assert forall|i: int| 0 <= i < state.contests@.len() implies (#[trigger] state.contests@[i]).wf(i as u64) by {
            if i != cid as int {
                assert(state.contests@[i] == old(state).contests@[i]);
            }
        }
    }
    Ok(artwork_id)
}

} // verus!
