use nft_contest::common::ErrorCode;
use nft_contest::instructions::claim_by_artist::ClaimByArtist;
use nft_contest::instructions::claim_by_contest_owner::ClaimByContestOwner;
use nft_contest::instructions::claim_by_voter::ClaimByVoter;
use nft_contest::instructions::initialize::Initialize;
use nft_contest::instructions::launch::Launch;
use nft_contest::instructions::submit::Submit;
use nft_contest::instructions::vote::Vote;
use nft_contest::registry::NftContest;
use nft_contest::settlement::{artist_payout, voter_payout, winning_artwork};
use nft_contest::state::{Authority, Contest, Counter, PrincipalId, Release, Vault, VaultKind};
use nft_contest::{claim_by_artist, claim_by_contest_owner, claim_by_voter, initialize, launch, submit, vote};

const SUBMIT_START: u64 = 10;
const SUBMIT_END: u64 = 20;
const VOTE_START: u64 = 15;
const VOTE_END: u64 = 30;
const DURING_SUBMISSION: u64 = 12;
const DURING_VOTING: u64 = 25;
const AFTER_VOTING: u64 = 31;

fn key(n: u64) -> PrincipalId {
    PrincipalId { w0: n, w1: 0, w2: 0, w3: 0 }
}

fn owner() -> PrincipalId {
    key(1000)
}

fn initialized() -> NftContest {
    let mut s = NftContest::new();
    initialize(&mut s, Initialize { program_owner: key(999) }).unwrap();
    s
}

fn launch_with(s: &mut NftContest, prize: u64, pct: u8) -> Result<u64, ErrorCode> {
    launch(
        s,
        Launch { contest_owner: owner(), prize_token_amount: prize },
        prize,
        pct,
        SUBMIT_START,
        SUBMIT_END,
        VOTE_START,
        VOTE_END,
        b"spring".to_vec(),
        b"https://example.org".to_vec(),
    )
}

fn submit_by(s: &mut NftContest, contest_id: u64, artist: PrincipalId) -> Result<u64, ErrorCode> {
    submit(
        s,
        Submit { artist, contest_id, artwork_token_account: key(artist.w0 + 500), artwork_token_amount: 1 },
        DURING_SUBMISSION,
    )
}

fn vote_by(s: &mut NftContest, contest_id: u64, voter: PrincipalId, artwork: u64) -> Result<(), ErrorCode> {
    vote(s, Vote { voter, contest_id }, artwork, DURING_VOTING)
}

fn contest_with_tally(prize: u64, pct: u8, tally: Vec<u64>) -> Contest {
    Contest {
        contest_id: 0,
        contest_owner: owner(),
        prize_amount: prize,
        percentage_to_artist: pct,
        submit_start_at: SUBMIT_START,
        submit_end_at: SUBMIT_END,
        vote_start_at: VOTE_START,
        vote_end_at: VOTE_END,
        title_of_contest: Vec::new(),
        link_to_project: Vec::new(),
        artwork_count: tally.len() as u64,
        artworks_vote_counter: tally,
        prize_vault: Vault { kind: VaultKind::Prize, contest_id: 0, authority: Authority::ProgramSigner },
    }
}

/// Contest 0 with prize 1000 and 30% to the artist; artists 1 and 2 submit
/// artworks 0 and 1; voters 11, 12, 13 back artwork 1 and voter 14 artwork 0.
fn played_contest() -> NftContest {
    let mut s = initialized();
    assert_eq!(launch_with(&mut s, 1000, 30), Ok(0));
    assert_eq!(submit_by(&mut s, 0, key(1)), Ok(0));
    assert_eq!(submit_by(&mut s, 0, key(2)), Ok(1));
    for v in [11u64, 12, 13] {
        assert_eq!(vote_by(&mut s, 0, key(v), 1), Ok(()));
    }
    assert_eq!(vote_by(&mut s, 0, key(14), 0), Ok(()));
    s
}

#[test]
fn winner_is_first_maximum() {
    let c = contest_with_tally(1000, 30, vec![3, 5, 5, 2]);
    assert_eq!(winning_artwork(&c), Ok((1, 5)));
}

#[test]
fn winner_of_single_artwork_without_votes_is_zero() {
    let c = contest_with_tally(1000, 30, vec![0]);
    assert_eq!(winning_artwork(&c), Ok((0, 0)));
}

#[test]
fn winner_of_empty_tally_is_refused() {
    let c = contest_with_tally(1000, 30, vec![]);
    assert_eq!(winning_artwork(&c), Err(ErrorCode::NoSubmissions));
}

#[test]
fn payouts_of_full_scenario() {
    let mut s = played_contest();
    assert_eq!(s.contests[0].contest.artworks_vote_counter, vec![1, 3]);
    assert_eq!(winning_artwork(&s.contests[0].contest), Ok((1, 3)));
    assert_eq!(artist_payout(&s.contests[0].contest), Ok(300));
    assert_eq!(voter_payout(&s.contests[0].contest, 3), Ok(233));

    let prize_vault = Vault { kind: VaultKind::Prize, contest_id: 0, authority: Authority::ProgramSigner };
    let paid = claim_by_artist(&mut s, ClaimByArtist { artist: key(2), contest_id: 0, artwork_id: 1 }, AFTER_VOTING);
    assert_eq!(paid, Ok(Release { vault: prize_vault, recipient: key(2), amount: 300 }));
    for v in [11u64, 12, 13] {
        let paid = claim_by_voter(&mut s, ClaimByVoter { voter: key(v), contest_id: 0, artwork_id: 1 }, AFTER_VOTING);
        assert_eq!(paid, Ok(Release { vault: prize_vault, recipient: key(v), amount: 233 }));
    }
    let nft = claim_by_contest_owner(
        &mut s,
        ClaimByContestOwner { contest_owner: owner(), contest_id: 0, artwork_id: 1 },
        AFTER_VOTING,
    );
    let nft_vault = Vault { kind: VaultKind::Nft(key(2)), contest_id: 0, authority: Authority::ProgramSigner };
    assert_eq!(nft, Ok(Release { vault: nft_vault, recipient: owner(), amount: 1 }));
}

#[test]
fn payouts_stay_within_prize() {
    let c = contest_with_tally(1000, 30, vec![3]);
    let artist = artist_payout(&c).unwrap();
    let voter = voter_payout(&c, 3).unwrap();
    assert_eq!(artist + voter * 3, 999);
    assert!(artist + voter * 3 <= 1000);
    let c = contest_with_tally(7, 33, vec![1]);
    assert_eq!(artist_payout(&c), Ok(2));
    assert_eq!(voter_payout(&c, 2), Ok(2));
}

#[test]
fn payouts_at_share_bounds() {
    let all = contest_with_tally(1000, 100, vec![1]);
    assert_eq!(artist_payout(&all), Ok(1000));
    assert_eq!(voter_payout(&all, 1), Ok(0));
    let none = contest_with_tally(1000, 0, vec![1]);
    assert_eq!(artist_payout(&none), Ok(0));
    assert_eq!(voter_payout(&none, 4), Ok(250));
}

#[test]
fn payouts_refuse_overflow() {
    let c = contest_with_tally(u64::MAX, 30, vec![1]);
    assert_eq!(artist_payout(&c), Err(ErrorCode::ArithmeticOverflow));
    assert_eq!(voter_payout(&c, 1), Err(ErrorCode::ArithmeticOverflow));
}

#[test]
fn voter_payout_without_votes_is_refused() {
    let c = contest_with_tally(1000, 30, vec![0]);
    assert_eq!(voter_payout(&c, 0), Err(ErrorCode::NoVotesForWinner));
}

#[test]
fn voter_payout_refuses_share_above_hundred() {
    let c = contest_with_tally(1000, 101, vec![1]);
    assert_eq!(voter_payout(&c, 1), Err(ErrorCode::InvalidPercentage));
}

#[test]
fn claims_without_submissions_fail() {
    let mut s = initialized();
    assert_eq!(launch_with(&mut s, 1000, 30), Ok(0));
    let a = claim_by_artist(&mut s, ClaimByArtist { artist: key(1), contest_id: 0, artwork_id: 0 }, AFTER_VOTING);
    assert_eq!(a, Err(ErrorCode::NoSubmissions));
    let v = claim_by_voter(&mut s, ClaimByVoter { voter: key(11), contest_id: 0, artwork_id: 0 }, AFTER_VOTING);
    assert_eq!(v, Err(ErrorCode::NoSubmissions));
    let o = claim_by_contest_owner(
        &mut s,
        ClaimByContestOwner { contest_owner: owner(), contest_id: 0, artwork_id: 0 },
        AFTER_VOTING,
    );
    assert_eq!(o, Err(ErrorCode::NoSubmissions));
}

#[test]
fn artist_claims_once() {
    let mut s = played_contest();
    let ctx = ClaimByArtist { artist: key(2), contest_id: 0, artwork_id: 1 };
    assert!(claim_by_artist(&mut s, ctx, AFTER_VOTING).is_ok());
    assert_eq!(claim_by_artist(&mut s, ctx, AFTER_VOTING), Err(ErrorCode::AlreadyClaimed));
}

#[test]
fn voter_and_owner_claim_once() {
    let mut s = played_contest();
    let v = ClaimByVoter { voter: key(12), contest_id: 0, artwork_id: 1 };
    assert!(claim_by_voter(&mut s, v, AFTER_VOTING).is_ok());
    assert_eq!(claim_by_voter(&mut s, v, AFTER_VOTING), Err(ErrorCode::AlreadyClaimed));
    let o = ClaimByContestOwner { contest_owner: owner(), contest_id: 0, artwork_id: 1 };
    assert!(claim_by_contest_owner(&mut s, o, AFTER_VOTING).is_ok());
    assert_eq!(claim_by_contest_owner(&mut s, o, AFTER_VOTING), Err(ErrorCode::AlreadyClaimed));
}

#[test]
fn counter_initializes_once() {
    let mut s = NftContest::new();
    assert_eq!(initialize(&mut s, Initialize { program_owner: key(999) }), Ok(()));
    assert_eq!(
        initialize(&mut s, Initialize { program_owner: key(999) }),
        Err(ErrorCode::CounterAlreadyInitialized)
    );
}

#[test]
fn launch_needs_initialized_counter() {
    let mut s = NftContest::new();
    assert_eq!(launch_with(&mut s, 1000, 30), Err(ErrorCode::CounterNotInitialized));
    assert_eq!(s.contests.len(), 0);
}

#[test]
fn launch_assigns_increasing_ids() {
    let mut s = initialized();
    assert_eq!(launch_with(&mut s, 1000, 30), Ok(0));
    assert_eq!(launch_with(&mut s, 500, 50), Ok(1));
    assert_eq!(s.counter.contest_count, 2);
    let c = &s.contests[1].contest;
    assert_eq!(c.contest_id, 1);
    assert_eq!(c.prize_amount, 500);
    assert_eq!(c.percentage_to_artist, 50);
    assert_eq!(c.artwork_count, 0);
    assert!(c.artworks_vote_counter.is_empty());
    assert_eq!(c.title_of_contest, b"spring".to_vec());
    assert_eq!(c.prize_vault.authority, Authority::ProgramSigner);
}

#[test]
fn launch_checks_schedule() {
    let mut s = initialized();
    let ctx = Launch { contest_owner: owner(), prize_token_amount: 1000 };
    assert_eq!(launch(&mut s, ctx, 1000, 30, 20, 10, 30, 40, vec![], vec![]), Err(ErrorCode::InvalidSchedule));
    assert_eq!(launch(&mut s, ctx, 1000, 30, 10, 20, 40, 30, vec![], vec![]), Err(ErrorCode::InvalidSchedule));
    assert_eq!(launch(&mut s, ctx, 1000, 30, 10, 20, 5, 30, vec![], vec![]), Err(ErrorCode::InvalidSchedule));
    assert_eq!(launch(&mut s, ctx, 1000, 30, 10, 10, 10, 10, vec![], vec![]), Ok(0));
}

#[test]
fn launch_checks_percentage() {
    let mut s = initialized();
    assert_eq!(launch_with(&mut s, 1000, 101), Err(ErrorCode::InvalidPercentage));
    assert_eq!(launch_with(&mut s, 1000, 100), Ok(0));
}

#[test]
fn launch_checks_owner_balance() {
    let mut s = initialized();
    let ctx = Launch { contest_owner: owner(), prize_token_amount: 999 };
    let r = launch(&mut s, ctx, 1000, 30, SUBMIT_START, SUBMIT_END, VOTE_START, VOTE_END, vec![], vec![]);
    assert_eq!(r, Err(ErrorCode::InsufficientFunds));
    assert_eq!(s.counter.contest_count, 0);
}

#[test]
fn submit_appends_to_tally() {
    let mut s = initialized();
    launch_with(&mut s, 1000, 30).unwrap();
    for n in 0..3u64 {
        assert_eq!(submit_by(&mut s, 0, key(n + 1)), Ok(n));
        let c = &s.contests[0].contest;
        assert_eq!(c.artworks_vote_counter.len() as u64, c.artwork_count);
    }
    let art = s.contests[0].artworks[2];
    assert_eq!(art.artwork_id, 2);
    assert_eq!(art.artist_key, key(3));
    assert_eq!(art.artwork_token_account, key(503));
    assert_eq!(art.nft_vault, Vault { kind: VaultKind::Nft(key(3)), contest_id: 0, authority: Authority::ProgramSigner });
}

#[test]
fn second_submission_is_refused() {
    let mut s = initialized();
    launch_with(&mut s, 1000, 30).unwrap();
    assert_eq!(submit_by(&mut s, 0, key(1)), Ok(0));
    assert_eq!(submit_by(&mut s, 0, key(1)), Err(ErrorCode::DuplicateSubmission));
    let late = Submit { artist: key(1), contest_id: 0, artwork_token_account: key(501), artwork_token_amount: 1 };
    assert_eq!(submit(&mut s, late, 100), Err(ErrorCode::DuplicateSubmission));
    assert_eq!(s.contests[0].contest.artwork_count, 1);
}

#[test]
fn submit_checks_contest_nft_and_window() {
    let mut s = initialized();
    launch_with(&mut s, 1000, 30).unwrap();
    assert_eq!(submit_by(&mut s, 1, key(1)), Err(ErrorCode::UnknownContest));
    let empty = Submit { artist: key(1), contest_id: 0, artwork_token_account: key(501), artwork_token_amount: 0 };
    assert_eq!(submit(&mut s, empty, DURING_SUBMISSION), Err(ErrorCode::NftNotHeld));
    let ok = Submit { artist: key(1), contest_id: 0, artwork_token_account: key(501), artwork_token_amount: 1 };
    assert_eq!(submit(&mut s, ok, SUBMIT_START - 1), Err(ErrorCode::SubmissionClosed));
    assert_eq!(submit(&mut s, ok, SUBMIT_END + 1), Err(ErrorCode::SubmissionClosed));
    assert_eq!(submit(&mut s, ok, SUBMIT_END), Ok(0));
}

#[test]
fn second_vote_is_refused() {
    let mut s = initialized();
    launch_with(&mut s, 1000, 30).unwrap();
    submit_by(&mut s, 0, key(1)).unwrap();
    submit_by(&mut s, 0, key(2)).unwrap();
    assert_eq!(vote_by(&mut s, 0, key(11), 0), Ok(()));
    assert_eq!(vote_by(&mut s, 0, key(11), 1), Err(ErrorCode::DuplicateVote));
    assert_eq!(vote_by(&mut s, 0, key(11), 0), Err(ErrorCode::DuplicateVote));
    assert_eq!(s.contests[0].contest.artworks_vote_counter, vec![1, 0]);
    assert_eq!(s.contests[0].votes.len(), 1);
}

#[test]
fn vote_checks_contest_artwork_and_window() {
    let mut s = initialized();
    launch_with(&mut s, 1000, 30).unwrap();
    submit_by(&mut s, 0, key(1)).unwrap();
    assert_eq!(vote_by(&mut s, 3, key(11), 0), Err(ErrorCode::UnknownContest));
    assert_eq!(vote_by(&mut s, 0, key(11), 1), Err(ErrorCode::InvalidArtwork));
    let ctx = Vote { voter: key(11), contest_id: 0 };
    assert_eq!(vote(&mut s, ctx, 0, VOTE_START - 1), Err(ErrorCode::VotingClosed));
    assert_eq!(vote(&mut s, ctx, 0, VOTE_END + 1), Err(ErrorCode::VotingClosed));
    assert_eq!(vote(&mut s, ctx, 0, VOTE_END), Ok(()));
}

#[test]
fn claims_wait_for_voting_to_end() {
    let mut s = played_contest();
    let a = ClaimByArtist { artist: key(2), contest_id: 0, artwork_id: 1 };
    assert_eq!(claim_by_artist(&mut s, a, VOTE_END), Err(ErrorCode::VotingNotEnded));
    let u = ClaimByArtist { artist: key(2), contest_id: 5, artwork_id: 1 };
    assert_eq!(claim_by_artist(&mut s, u, AFTER_VOTING), Err(ErrorCode::UnknownContest));
}

#[test]
fn artist_claim_checks_artist_and_winner() {
    let mut s = played_contest();
    let wrong_artist = ClaimByArtist { artist: key(1), contest_id: 0, artwork_id: 1 };
    assert_eq!(claim_by_artist(&mut s, wrong_artist, AFTER_VOTING), Err(ErrorCode::NotArtist));
    let loser = ClaimByArtist { artist: key(1), contest_id: 0, artwork_id: 0 };
    assert_eq!(claim_by_artist(&mut s, loser, AFTER_VOTING), Err(ErrorCode::NotWinner));
    let missing = ClaimByArtist { artist: key(1), contest_id: 0, artwork_id: 7 };
    assert_eq!(claim_by_artist(&mut s, missing, AFTER_VOTING), Err(ErrorCode::InvalidArtwork));
}

#[test]
fn artist_claim_refuses_overflowing_payout() {
    let mut s = initialized();
    launch_with(&mut s, u64::MAX, 30).unwrap();
    submit_by(&mut s, 0, key(1)).unwrap();
    let ctx = ClaimByArtist { artist: key(1), contest_id: 0, artwork_id: 0 };
    assert_eq!(claim_by_artist(&mut s, ctx, AFTER_VOTING), Err(ErrorCode::ArithmeticOverflow));
    assert!(s.contests[0].claims.is_empty());
}

#[test]
fn voter_claim_checks_vote_and_winner() {
    let mut s = played_contest();
    let stranger = ClaimByVoter { voter: key(77), contest_id: 0, artwork_id: 1 };
    assert_eq!(claim_by_voter(&mut s, stranger, AFTER_VOTING), Err(ErrorCode::VoteNotFound));
    let mismatch = ClaimByVoter { voter: key(11), contest_id: 0, artwork_id: 0 };
    assert_eq!(claim_by_voter(&mut s, mismatch, AFTER_VOTING), Err(ErrorCode::VoteMismatch));
    let loser = ClaimByVoter { voter: key(14), contest_id: 0, artwork_id: 0 };
    assert_eq!(claim_by_voter(&mut s, loser, AFTER_VOTING), Err(ErrorCode::NotWinner));
}

#[test]
fn owner_claim_checks_owner_and_winner() {
    let mut s = played_contest();
    let intruder = ClaimByContestOwner { contest_owner: key(1), contest_id: 0, artwork_id: 1 };
    assert_eq!(claim_by_contest_owner(&mut s, intruder, AFTER_VOTING), Err(ErrorCode::NotContestOwner));
    let loser = ClaimByContestOwner { contest_owner: owner(), contest_id: 0, artwork_id: 0 };
    assert_eq!(claim_by_contest_owner(&mut s, loser, AFTER_VOTING), Err(ErrorCode::NotWinner));
    let missing = ClaimByContestOwner { contest_owner: owner(), contest_id: 0, artwork_id: 9 };
    assert_eq!(claim_by_contest_owner(&mut s, missing, AFTER_VOTING), Err(ErrorCode::InvalidArtwork));
}

#[test]
fn tied_contest_goes_to_earlier_artwork() {
    let mut s = initialized();
    launch_with(&mut s, 1000, 30).unwrap();
    submit_by(&mut s, 0, key(1)).unwrap();
    submit_by(&mut s, 0, key(2)).unwrap();
    vote_by(&mut s, 0, key(11), 1).unwrap();
    vote_by(&mut s, 0, key(12), 0).unwrap();
    let later = ClaimByArtist { artist: key(2), contest_id: 0, artwork_id: 1 };
    assert_eq!(claim_by_artist(&mut s, later, AFTER_VOTING), Err(ErrorCode::NotWinner));
    let earlier = ClaimByArtist { artist: key(1), contest_id: 0, artwork_id: 0 };
    assert!(claim_by_artist(&mut s, earlier, AFTER_VOTING).is_ok());
}

#[test]
fn vault_delegation_hands_control_to_program() {
    let mut v = Vault::open(VaultKind::Prize, 4, owner());
    assert_eq!(v.authority, Authority::Depositor(owner()));
    v.delegate();
    assert_eq!(v, Vault { kind: VaultKind::Prize, contest_id: 4, authority: Authority::ProgramSigner });
}

#[test]
fn counter_hands_out_ids_in_order() {
    let mut c = Counter { is_initialized: false, contest_count: 0 };
    assert_eq!(c.next_contest_id(), Err(ErrorCode::CounterNotInitialized));
    c.is_initialized = true;
    assert_eq!(c.next_contest_id(), Ok(0));
    assert_eq!(c.next_contest_id(), Ok(1));
    assert_eq!(c.contest_count, 2);
    let mut full = Counter { is_initialized: true, contest_count: u64::MAX };
    assert_eq!(full.next_contest_id(), Err(ErrorCode::ArithmeticOverflow));
    assert_eq!(full.contest_count, u64::MAX);
}
