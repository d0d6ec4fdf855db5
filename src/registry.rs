use vstd::prelude::*;
use crate::state::{Artwork, Claim, Contest, Counter, PrincipalId, Vault, VaultKind, VoteData};

verus! {

/// How many of `votes` went to artwork `artwork_id`.
pub open spec fn votes_for(votes: Seq<VoteData>, artwork_id: u64) -> nat
    decreases votes.len(),
{
    if votes.len() == 0 {
        0
    } else {
        votes_for(votes.drop_last(), artwork_id) + if votes.last().voted_artwork_id == artwork_id {
            1nat
        } else {
            0nat
        }
    }
}

/// Recording one more vote adds one to the count of the artwork it went to.
pub proof fn lemma_votes_for_push(votes: Seq<VoteData>, v: VoteData, artwork_id: u64)
    ensures
        votes_for(votes.push(v), artwork_id) == votes_for(votes, artwork_id) + if v.voted_artwork_id
            == artwork_id {
            1nat
        } else {
            0nat
        },
{
    assert(votes.push(v).drop_last() =~= votes);
}

/// No vote counts for an artwork that every vote lies below.
pub proof fn lemma_votes_for_absent(votes: Seq<VoteData>, artwork_id: u64)
    requires
        forall|k: int| 0 <= k < votes.len() ==> (#[trigger] votes[k]).voted_artwork_id < artwork_id,
    ensures
        votes_for(votes, artwork_id) == 0,
    decreases votes.len(),
{
    if votes.len() > 0 {
        let rest = votes.drop_last();
        assert forall|k: int| 0 <= k < rest.len() implies (#[trigger] rest[k]).voted_artwork_id < artwork_id by {
            assert(rest[k] == votes[k]);
        }
        lemma_votes_for_absent(rest, artwork_id);
    }
}

/// An artwork that some vote went to has a positive count.
pub proof fn lemma_votes_for_present(votes: Seq<VoteData>, k: int)
    requires
        0 <= k < votes.len(),
    ensures
        votes_for(votes, votes[k].voted_artwork_id) >= 1,
    decreases votes.len(),
{
    if k < votes.len() - 1 {
        let rest = votes.drop_last();
        assert(rest[k] == votes[k]);
        lemma_votes_for_present(rest, k);
    }
}

/// Everything recorded for one contest: the contest itself, its artworks
/// indexed by artwork identifier, its votes and the claims paid out.
pub struct ContestRecords {
    pub contest: Contest,
    pub artworks: Vec<Artwork>,
    pub votes: Vec<VoteData>,
    pub claims: Vec<Claim>,
}

impl ContestRecords {
    pub open spec fn has_artist(self, a: PrincipalId) -> bool {
        exists|k: int| 0 <= k < self.artworks@.len() && self.artworks@[k].artist_key == a
    }

    pub open spec fn has_voter(self, v: PrincipalId) -> bool {
        exists|k: int| 0 <= k < self.votes@.len() && self.votes@[k].voter_key == v
    }

    pub open spec fn voted_for(self, v: PrincipalId, artwork_id: u64) -> bool {
        exists|k: int|
            0 <= k < self.votes@.len() && self.votes@[k] == (VoteData { voter_key: v, voted_artwork_id: artwork_id })
    }

    pub open spec fn has_claimed(self, c: Claim) -> bool {
        exists|k: int| 0 <= k < self.claims@.len() && self.claims@[k] == c
    }

    /// The records of contest `id` are consistent: artwork identifiers are
    /// dense and match the tally, each tally entry counts the votes for its
    /// artwork, every vault is under the program's control, and no artist,
    /// voter or claim appears twice.
    pub open spec fn wf(self, id: u64) -> bool {
        let c = self.contest;
        &&& c.contest_id == id
        &&& c.wf()
        &&& self.artworks@.len() == c.artwork_count
        &&& forall|k: int|
            0 <= k < self.artworks@.len() ==> {
                let a = #[trigger] self.artworks@[k];
                &&& a.artwork_id == k
                &&& a.associated_contest_id == id
                &&& a.nft_vault == Vault::delegated(VaultKind::Nft(a.artist_key), id)
            }
        &&& forall|k: int, l: int|
            0 <= k < self.artworks@.len() && 0 <= l < self.artworks@.len()
                && (#[trigger] self.artworks@[k]).artist_key == (#[trigger] self.artworks@[l]).artist_key
                ==> k == l
        &&& forall|k: int| 0 <= k < self.votes@.len() ==> (#[trigger] self.votes@[k]).voted_artwork_id < c.artwork_count
        &&& forall|k: int| 0 <= k < c.tally().len() ==> #[trigger] c.tally()[k] == votes_for(self.votes@, k as u64)
        &&& forall|k: int, l: int|
            0 <= k < self.votes@.len() && 0 <= l < self.votes@.len()
                && (#[trigger] self.votes@[k]).voter_key == (#[trigger] self.votes@[l]).voter_key
                ==> k == l
        &&& forall|k: int, l: int|
            0 <= k < self.claims@.len() && 0 <= l < self.claims@.len()
                && #[trigger] self.claims@[k] == #[trigger] self.claims@[l]
                ==> k == l
    }

    /// Whether `a` has submitted to this contest.
    pub fn artist_submitted(&self, a: PrincipalId) -> (r: bool)
        ensures
            r == self.has_artist(a),
    {
        let mut k: usize = 0;
        while k < self.artworks.len()
            invariant
                k <= self.artworks@.len(),
                forall|j: int| 0 <= j < k ==> self.artworks@[j].artist_key != a,
            decreases self.artworks@.len() - k,
        {
            if self.artworks[k].artist_key == a {
                return true;
            }
            k += 1;
        }
        false
    }

    /// The artwork that `v` voted for, if `v` voted in this contest.
    pub fn vote_of(&self, v: PrincipalId) -> (r: Option<u64>)
        requires
            self.wf(self.contest.contest_id),
        ensures
            r is None <==> !self.has_voter(v),
            forall|id: u64| r == Some(id) <==> self.voted_for(v, id),
    {
        let mut k: usize = 0;
        while k < self.votes.len()
            invariant
                self.wf(self.contest.contest_id),
                k <= self.votes@.len(),
                forall|j: int| 0 <= j < k ==> self.votes@[j].voter_key != v,
            decreases self.votes@.len() - k,
        {
            if self.votes[k].voter_key == v {
                let id = self.votes[k].voted_artwork_id;
                assert(self.voted_for(v, id));
                assert forall|other: u64| self.voted_for(v, other) implies other == id by {
                    let l = choose|l: int|
                        0 <= l < self.votes@.len() && self.votes@[l] == (VoteData { voter_key: v, voted_artwork_id: other });
                    assert(self.votes@[l].voter_key == self.votes@[k as int].voter_key);
                }
                return Some(id);
            }
            k += 1;
        }
        None
    }

    /// Whether claim `c` has been paid out already.
    pub fn claimed(&self, c: Claim) -> (r: bool)
        ensures
            r == self.has_claimed(c),
    {
        let mut k: usize = 0;
        while k < self.claims.len()
            invariant
                k <= self.claims@.len(),
                forall|j: int| 0 <= j < k ==> self.claims@[j] != c,
            decreases self.claims@.len() - k,
        {
            if self.claims[k] == c {
                return true;
            }
            k += 1;
        }
        false
    }
}

/// The whole state of the contest program: the identifier counter and the
/// records of every contest, indexed by contest identifier.
pub struct NftContest {
    pub counter: Counter,
    pub contests: Vec<ContestRecords>,
}

impl NftContest {
    pub open spec fn records(self, contest_id: u64) -> ContestRecords {
        self.contests@[contest_id as int]
    }

    pub open spec fn has_contest(self, contest_id: u64) -> bool {
        contest_id < self.contests@.len()
    }

    /// Contest identifiers are dense and come from the counter, and the
    /// records of each contest are consistent.
    pub open spec fn wf(self) -> bool {
        &&& self.contests@.len() == self.counter.contest_count
        &&& !self.counter.is_initialized ==> self.counter.contest_count == 0
        &&& forall|i: int| 0 <= i < self.contests@.len() ==> (#[trigger] self.contests@[i]).wf(i as u64)
    }

    /// `n` is `o` with claim `c` recorded for contest `contest_id`, and
    /// nothing else changed.
    pub open spec fn claim_recorded(o: NftContest, n: NftContest, contest_id: u64, c: Claim) -> bool {
        let before = o.records(contest_id);
        let after = n.records(contest_id);
        &&& n.counter == o.counter
        &&& n.contests@ == o.contests@.update(contest_id as int, after)
        &&& after.contest == before.contest
        &&& after.artworks == before.artworks
        &&& after.votes == before.votes
        &&& after.claims@ == before.claims@.push(c)
    }

    /// Records that claim `c` on contest `contest_id` has been paid out.
    pub fn record_claim(&mut self, contest_id: u64, c: Claim)
        requires
            old(self).wf(),
            old(self).has_contest(contest_id),
            !old(self).records(contest_id).has_claimed(c),
        ensures
            final(self).wf(),
            NftContest::claim_recorded(*old(self), *final(self), contest_id, c),
    {
        let len = self.contests.len();
        proof {
            assert(contest_id < len);
        }
        let cid = contest_id as usize;
        let ghost before = self.contests@[cid as int];
        proof {
            assert(old(self).contests@[cid as int].wf(cid as u64));
        }
        self.contests[cid].claims.push(c);
        proof {
            let after = self.contests@[cid as int];
            assert(self.contests@ =~= old(self).contests@.update(cid as int, after));
            assert(before.wf(contest_id));
            assert forall|k: int, l: int|
                0 <= k < after.claims@.len() && 0 <= l < after.claims@.len()
                    && #[trigger] after.claims@[k] == #[trigger] after.claims@[l]
                    implies k == l by {
                if k < before.claims@.len() && l == before.claims@.len() {
                    assert(before.claims@[k] == c);
                }
                if l < before.claims@.len() && k == before.claims@.len() {
                    assert(before.claims@[l] == c);
                }
            }
            assert(after.wf(contest_id));
            assert forall|i: int| 0 <= i < self.contests@.len() implies (#[trigger] self.contests@[i]).wf(i as u64) by {
                if i != cid as int {
                    assert(self.contests@[i] == old(self).contests@[i]);
                }
            }
        }
    }

    /// A program whose counter is not initialized yet.
    pub fn new() -> (r: NftContest)
        ensures
            r.wf(),
            !r.counter.is_initialized,
            r.contests@.len() == 0,
    {
        NftContest { counter: Counter { is_initialized: false, contest_count: 0 }, contests: Vec::new() }
    }
}

} // verus!
