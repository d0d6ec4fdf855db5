use vstd::prelude::*;
use crate::common::ErrorCode;
use crate::instructions::claim_by_artist::{claim_by_artist_result, ClaimByArtist};
use crate::instructions::claim_by_contest_owner::{claim_by_contest_owner_result, ClaimByContestOwner};
use crate::instructions::claim_by_voter::{claim_by_voter_result, ClaimByVoter};
use crate::instructions::submit::{submit_result, submitted_artwork, Submit};
use crate::instructions::vote::{vote_result, Vote};
use crate::registry::{lemma_votes_for_present, votes_for, NftContest};
use crate::state::{Authority, Claim, ClaimRole, Release, VoteData};

verus! {

/// In every consistent state, each contest's tally has one entry per
/// artwork, and the artworks are exactly `artwork_count` many.
pub proof fn lemma_tally_matches_artworks(s: NftContest, contest_id: u64)
    requires
        s.wf(),
        s.has_contest(contest_id),
    ensures
        s.records(contest_id).contest.tally().len() == s.records(contest_id).contest.artwork_count,
        s.records(contest_id).artworks@.len() == s.records(contest_id).contest.artwork_count,
{
    assert(s.contests@[contest_id as int].wf(contest_id));
}

/// An artist has at most one artwork in a contest, and once an artist's
/// submission has succeeded, a second submission by that artist to that
/// contest fails with `DuplicateSubmission`, whatever the time.
pub proof fn lemma_submit_once(s: NftContest, t: NftContest, ctx: Submit, id: u64, again: Submit, now: u64)
    requires
        s.wf(),
        t.wf(),
        s.has_contest(ctx.contest_id),
        t.has_contest(ctx.contest_id),
        t.records(ctx.contest_id).artworks@ == s.records(ctx.contest_id).artworks@.push(submitted_artwork(ctx, id)),
        again.artist == ctx.artist,
        again.contest_id == ctx.contest_id,
    ensures
        submit_result(t, again, now) == Err::<u64, ErrorCode>(ErrorCode::DuplicateSubmission),
        forall|k: int, l: int|
            0 <= k < t.records(ctx.contest_id).artworks@.len() && 0 <= l < t.records(ctx.contest_id).artworks@.len()
                && t.records(ctx.contest_id).artworks@[k].artist_key == ctx.artist
                && t.records(ctx.contest_id).artworks@[l].artist_key == ctx.artist ==> k == l,
{
    let a = t.records(ctx.contest_id).artworks@;
    assert(a[a.len() - 1].artist_key == ctx.artist);
    assert(t.records(ctx.contest_id).has_artist(ctx.artist));
    assert(t.contests@[ctx.contest_id as int].wf(ctx.contest_id));
    assert forall|k: int, l: int|
        0 <= k < a.len() && 0 <= l < a.len() && a[k].artist_key == ctx.artist && a[l].artist_key == ctx.artist
            implies k == l by {
        assert(a[k].artist_key == a[l].artist_key);
    }
}

/// A voter has at most one vote in a contest, and once a voter's vote has
/// been recorded, a second vote by that voter in that contest fails with
/// `DuplicateVote`, whatever the artwork and the time.
pub proof fn lemma_vote_once(s: NftContest, t: NftContest, ctx: Vote, voted_artwork_id: u64, again: Vote, other_artwork_id: u64, now: u64)
    requires
        s.wf(),
        t.wf(),
        s.has_contest(ctx.contest_id),
        t.has_contest(ctx.contest_id),
        t.records(ctx.contest_id).votes@ == s.records(ctx.contest_id).votes@.push(
            VoteData { voter_key: ctx.voter, voted_artwork_id },
        ),
        again.voter == ctx.voter,
        again.contest_id == ctx.contest_id,
    ensures
        vote_result(t, again, other_artwork_id, now) == Err::<(), ErrorCode>(ErrorCode::DuplicateVote),
        forall|k: int, l: int|
            0 <= k < t.records(ctx.contest_id).votes@.len() && 0 <= l < t.records(ctx.contest_id).votes@.len()
                && t.records(ctx.contest_id).votes@[k].voter_key == ctx.voter
                && t.records(ctx.contest_id).votes@[l].voter_key == ctx.voter ==> k == l,
{
    let v = t.records(ctx.contest_id).votes@;
    assert(v[v.len() - 1].voter_key == ctx.voter);
    assert(t.records(ctx.contest_id).has_voter(ctx.voter));
    assert(t.contests@[ctx.contest_id as int].wf(ctx.contest_id));
    assert forall|k: int, l: int|
        0 <= k < v.len() && 0 <= l < v.len() && v[k].voter_key == ctx.voter && v[l].voter_key == ctx.voter
            implies k == l by {
        assert(v[k].voter_key == v[l].voter_key);
    }
}

/// Once an artist's claim on a contest has been paid, the same claim made
/// again after voting has ended fails with `AlreadyClaimed`.
pub proof fn lemma_artist_claims_once(s: NftContest, t: NftContest, ctx: ClaimByArtist, now: u64, later: u64)
    requires
        s.wf(),
        claim_by_artist_result(s, ctx, now) is Ok,
        NftContest::claim_recorded(s, t, ctx.contest_id, Claim { role: ClaimRole::Artist, claimant: ctx.artist }),
        later > t.records(ctx.contest_id).contest.vote_end_at,
    ensures
        claim_by_artist_result(t, ctx, later) == Err::<Release, ErrorCode>(ErrorCode::AlreadyClaimed),
{
    let c = t.records(ctx.contest_id).claims@;
    assert(c[c.len() - 1] == Claim { role: ClaimRole::Artist, claimant: ctx.artist });
    assert(t.records(ctx.contest_id).has_claimed(Claim { role: ClaimRole::Artist, claimant: ctx.artist }));
}

/// Each tally entry is the number of recorded votes for its artwork, so a
/// voter who backed the winner never finds the winner without votes.
pub proof fn lemma_tally_counts_votes(s: NftContest, ctx: ClaimByVoter, now: u64)
    requires
        s.wf(),
    ensures
        s.has_contest(ctx.contest_id) ==> forall|k: int|
            0 <= k < s.records(ctx.contest_id).contest.tally().len() ==> #[trigger] s.records(
                ctx.contest_id,
            ).contest.tally()[k] == votes_for(s.records(ctx.contest_id).votes@, k as u64),
        claim_by_voter_result(s, ctx, now) != Err::<Release, ErrorCode>(ErrorCode::NoVotesForWinner),
{
    if s.has_contest(ctx.contest_id) {
        let r = s.contests@[ctx.contest_id as int];
        assert(r.wf(ctx.contest_id));
        if r.voted_for(ctx.voter, ctx.artwork_id) {
            let k = choose|k: int|
                0 <= k < r.votes@.len() && r.votes@[k] == (VoteData { voter_key: ctx.voter, voted_artwork_id: ctx.artwork_id });
            lemma_votes_for_present(r.votes@, k);
            assert(r.contest.tally()[ctx.artwork_id as int] >= 1);
        }
    }
}

/// Funds and NFTs only ever leave a vault whose control has been handed to
/// the program's signer, and a prize only ever leaves the prize vault of
/// the contest claimed on.
pub proof fn lemma_releases_from_delegated_vaults(
    s: NftContest,
    artist: ClaimByArtist,
    voter: ClaimByVoter,
    owner: ClaimByContestOwner,
    now: u64,
)
    requires
        s.wf(),
    ensures
        claim_by_artist_result(s, artist, now) matches Ok(r) ==> r.vault.authority == Authority::ProgramSigner
            && r.vault.contest_id == artist.contest_id,
        claim_by_voter_result(s, voter, now) matches Ok(r) ==> r.vault.authority == Authority::ProgramSigner
            && r.vault.contest_id == voter.contest_id,
        claim_by_contest_owner_result(s, owner, now) matches Ok(r) ==> r.vault.authority
            == Authority::ProgramSigner && r.vault.contest_id == owner.contest_id,
{
    if s.has_contest(artist.contest_id) {
        assert(s.contests@[artist.contest_id as int].wf(artist.contest_id));
    }
    if s.has_contest(voter.contest_id) {
        assert(s.contests@[voter.contest_id as int].wf(voter.contest_id));
    }
    if s.has_contest(owner.contest_id) {
        let r = s.contests@[owner.contest_id as int];
        assert(r.wf(owner.contest_id));
        if owner.artwork_id < r.artworks@.len() {
            assert(r.artworks@[owner.artwork_id as int].nft_vault.authority == Authority::ProgramSigner);
        }
    }
}

} // verus!
