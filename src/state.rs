use vstd::prelude::*;
use crate::common::ErrorCode;

verus! {

/// An authenticated caller identity: a 32-byte ledger key, held as four
/// 64-bit words.
#[derive(Clone, Copy, Debug, PartialEq, Eq, Structural)]
pub struct PrincipalId {
    pub w0: u64,
    pub w1: u64,
    pub w2: u64,
    pub w3: u64,
}

/// Who may authorize a transfer out of a vault.
#[derive(Clone, Copy, Debug, PartialEq, Eq, Structural)]
pub enum Authority {
    /// The principal that opened the vault, before delegation.
    Depositor(PrincipalId),
    /// The signer derived for this program: only settlement can move funds.
    ProgramSigner,
}

/// What a vault holds, and for whom it was opened.
#[derive(Clone, Copy, Debug, PartialEq, Eq, Structural)]
pub enum VaultKind {
    /// The prize pool of a contest.
    Prize,
    /// The NFT that the given artist submitted.
    Nft(PrincipalId),
}

/// A custody account, addressed by its kind and its contest.
#[derive(Clone, Copy, Debug, PartialEq, Eq, Structural)]
pub struct Vault {
    pub kind: VaultKind,
    pub contest_id: u64,
    pub authority: Authority,
}

impl Vault {
    /// A vault controlled by the principal that deposits into it.
    pub fn open(kind: VaultKind, contest_id: u64, depositor: PrincipalId) -> (v: Vault)
        ensures
            v == (Vault { kind, contest_id, authority: Authority::Depositor(depositor) }),
    {
        Vault { kind, contest_id, authority: Authority::Depositor(depositor) }
    }

    /// Hands control of the vault to the program's signer. This is the only
    /// change an authority ever sees, and it cannot be undone.
    pub fn delegate(&mut self)
        requires
            old(self).authority is Depositor,
        ensures
            *final(self) == (Vault { authority: Authority::ProgramSigner, ..*old(self) }),
    {
        self.authority = Authority::ProgramSigner;
    }

    /// The vault of the given kind and contest, after delegation.
    pub open spec fn delegated(kind: VaultKind, contest_id: u64) -> Vault {
        Vault { kind, contest_id, authority: Authority::ProgramSigner }
    }
}

/// The singleton that hands out contest identifiers.
#[derive(Clone, Copy, Debug, PartialEq, Eq, Structural)]
pub struct Counter {
    pub is_initialized: bool,
    pub contest_count: u64,
}

impl Counter {
    /// Hands out the next contest identifier and advances the counter.
    pub fn next_contest_id(&mut self) -> (r: Result<u64, ErrorCode>)
        ensures
            !old(self).is_initialized ==> r == Err::<u64, ErrorCode>(ErrorCode::CounterNotInitialized)
                && *final(self) == *old(self),
            old(self).is_initialized && old(self).contest_count == u64::MAX ==> r == Err::<u64, ErrorCode>(
                ErrorCode::ArithmeticOverflow,
            ) && *final(self) == *old(self),
            old(self).is_initialized && old(self).contest_count < u64::MAX ==> r == Ok::<u64, ErrorCode>(
                old(self).contest_count,
            ) && *final(self) == (Counter { is_initialized: true, contest_count: (old(self).contest_count + 1) as u64 }),
    {
        if !self.is_initialized {
            return Err(ErrorCode::CounterNotInitialized);
        }
        if self.contest_count == u64::MAX {
            return Err(ErrorCode::ArithmeticOverflow);
        }
        let id = self.contest_count;
        self.contest_count = id + 1;
        Ok(id)
    }
}

/// One contest: its terms, its schedule and its vote tally.
pub struct Contest {
    pub contest_id: u64,
    pub contest_owner: PrincipalId,
    pub prize_amount: u64,
    pub percentage_to_artist: u8,
    pub submit_start_at: u64,
    pub submit_end_at: u64,
    pub vote_start_at: u64,
    pub vote_end_at: u64,
    pub title_of_contest: Vec<u8>,
    pub link_to_project: Vec<u8>,
    pub artwork_count: u64,
    /// Votes received, indexed by artwork identifier.
    pub artworks_vote_counter: Vec<u64>,
    pub prize_vault: Vault,
}

/// The windows are ordered as a contest requires.
pub open spec fn schedule_ok(submit_start_at: u64, submit_end_at: u64, vote_start_at: u64, vote_end_at: u64) -> bool {
    &&& submit_start_at <= submit_end_at
    &&& vote_start_at <= vote_end_at
    &&& submit_start_at <= vote_start_at
}

impl Contest {
    pub open spec fn tally(self) -> Seq<u64> {
        self.artworks_vote_counter@
    }

    /// Everything but the submissions and the tally is the same in both.
    pub open spec fn same_terms(self, o: Contest) -> bool {
        &&& self.contest_id == o.contest_id
        &&& self.contest_owner == o.contest_owner
        &&& self.prize_amount == o.prize_amount
        &&& self.percentage_to_artist == o.percentage_to_artist
        &&& self.submit_start_at == o.submit_start_at
        &&& self.submit_end_at == o.submit_end_at
        &&& self.vote_start_at == o.vote_start_at
        &&& self.vote_end_at == o.vote_end_at
        &&& self.title_of_contest@ == o.title_of_contest@
        &&& self.link_to_project@ == o.link_to_project@
        &&& self.prize_vault == o.prize_vault
    }

    pub open spec fn wf(self) -> bool {
        &&& self.tally().len() == self.artwork_count
        &&& self.percentage_to_artist <= 100
        &&& schedule_ok(self.submit_start_at, self.submit_end_at, self.vote_start_at, self.vote_end_at)
        &&& self.prize_vault == Vault::delegated(VaultKind::Prize, self.contest_id)
    }
}

/// A submission: the artwork with identifier `artwork_id` of its contest.
#[derive(Clone, Copy, Debug, PartialEq, Eq, Structural)]
pub struct Artwork {
    pub artwork_id: u64,
    pub associated_contest_id: u64,
    pub artist_key: PrincipalId,
    /// The artist's token account that the NFT came from.
    pub artwork_token_account: PrincipalId,
    pub nft_vault: Vault,
}

/// A cast vote.
#[derive(Clone, Copy, Debug, PartialEq, Eq, Structural)]
pub struct VoteData {
    pub voter_key: PrincipalId,
    pub voted_artwork_id: u64,
}

/// The role in which a principal collects from a contest.
#[derive(Clone, Copy, Debug, PartialEq, Eq, Structural)]
pub enum ClaimRole {
    Artist,
    Voter,
    ContestOwner,
}

/// A claim that has been paid out.
#[derive(Clone, Copy, Debug, PartialEq, Eq, Structural)]
pub struct Claim {
    pub role: ClaimRole,
    pub claimant: PrincipalId,
}

/// What a successful claim asks the host to move: `amount` units out of
/// `vault` to `recipient`.
#[derive(Clone, Copy, Debug, PartialEq, Eq, Structural)]
pub struct Release {
    pub vault: Vault,
    pub recipient: PrincipalId,
    pub amount: u64,
}

} // verus!
