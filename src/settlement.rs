use vstd::prelude::*;
use vstd::arithmetic::div_mod::{lemma_fundamental_div_mod, lemma_remainder};
use vstd::arithmetic::mul::lemma_mul_is_distributive_add;
use crate::common::ErrorCode;
use crate::state::Contest;

verus! {

/// `w` is the winning position of tally `t`: it holds a maximal count, and
/// every earlier position holds strictly less, so earlier artworks win ties.
pub open spec fn is_first_max(t: Seq<u64>, w: int) -> bool {
    &&& 0 <= w < t.len()
    &&& forall|j: int| 0 <= j < t.len() ==> t[j] <= t[w]
    &&& forall|j: int| 0 <= j < w ==> t[j] < t[w]
}

/// The artist's share of a prize: `floor(prize * pct / 100)`.
pub open spec fn artist_share(prize: int, pct: int) -> int {
    prize * pct / 100
}

/// One voter's share when `n` voters backed the winner:
/// `floor(floor(prize * (100 - pct) / 100) / n)`.
pub open spec fn voter_share(prize: int, pct: int, n: int) -> int {
    prize * (100 - pct) / 100 / n
}

/// Finds the winning artwork of a contest and its vote count, scanning the
/// tally from the first artwork on; a contest without submissions has none.
pub fn winning_artwork(contest: &Contest) -> (r: Result<(u64, u64), ErrorCode>)
    ensures
        contest.tally().len() == 0 ==> r == Err::<(u64, u64), ErrorCode>(ErrorCode::NoSubmissions),
        contest.tally().len() > 0 ==> (r matches Ok((w, c)) && is_first_max(contest.tally(), w as int)
            && c == contest.tally()[w as int]),
{
    let tally = &contest.artworks_vote_counter;
    if tally.len() == 0 {
        return Err(ErrorCode::NoSubmissions);
    }
    let mut winner: usize = 0;
    let mut best: u64 = tally[0];
    let mut i: usize = 1;
    while i < tally.len()
        invariant
            1 <= i <= tally@.len(),
            winner < i,
            best == tally@[winner as int],
            forall|j: int| 0 <= j < i ==> tally@[j] <= best,
            forall|j: int| 0 <= j < winner ==> tally@[j] < best,
        decreases tally@.len() - i,
    {
        if tally[i] > best {
            best = tally[i];
            winner = i;
        }
        i += 1;
    }
    Ok((winner as u64, best))
}

/// The winning artist's payout: `floor(prize_amount * artist_share_pct / 100)`.
pub fn artist_payout(contest: &Contest) -> (r: Result<u64, ErrorCode>)
    ensures
        contest.prize_amount * contest.percentage_to_artist > u64::MAX
            ==> r == Err::<u64, ErrorCode>(ErrorCode::ArithmeticOverflow),
        contest.prize_amount * contest.percentage_to_artist <= u64::MAX
            ==> r == Ok::<u64, ErrorCode>(
            artist_share(contest.prize_amount as int, contest.percentage_to_artist as int) as u64,
        ),
{
    match contest.prize_amount.checked_mul(contest.percentage_to_artist as u64) {
        None => Err(ErrorCode::ArithmeticOverflow),
        Some(p) => Ok(p / 100),
    }
}

/// The payout of one voter who backed the winner, when the winner received
/// `winner_vote_count` votes. A share above one hundred percent is refused,
/// then a product that overflows, then a winner without votes.
pub fn voter_payout(contest: &Contest, winner_vote_count: u64) -> (r: Result<u64, ErrorCode>)
    ensures
        contest.percentage_to_artist > 100 ==> r == Err::<u64, ErrorCode>(ErrorCode::InvalidPercentage),
        contest.percentage_to_artist <= 100 && contest.prize_amount * (100 - contest.percentage_to_artist)
            > u64::MAX ==> r == Err::<u64, ErrorCode>(ErrorCode::ArithmeticOverflow),
        contest.percentage_to_artist <= 100 && contest.prize_amount * (100 - contest.percentage_to_artist)
            <= u64::MAX && winner_vote_count == 0 ==> r == Err::<u64, ErrorCode>(
            ErrorCode::NoVotesForWinner,
        ),
        contest.percentage_to_artist <= 100 && contest.prize_amount * (100 - contest.percentage_to_artist)
            <= u64::MAX && winner_vote_count > 0 ==> r == Ok::<u64, ErrorCode>(
            voter_share(
                contest.prize_amount as int,
                contest.percentage_to_artist as int,
                winner_vote_count as int,
            ) as u64,
        ),
{
    if contest.percentage_to_artist > 100 {
        return Err(ErrorCode::InvalidPercentage);
    }
    let to_voters: u64 = (100 - contest.percentage_to_artist) as u64;
    match contest.prize_amount.checked_mul(to_voters) {
        None => Err(ErrorCode::ArithmeticOverflow),
        Some(p) => {
            if winner_vote_count == 0 {
                Err(ErrorCode::NoVotesForWinner)
            } else {
                Ok(p / 100 / winner_vote_count)
            }
        },
    }
}

/// Winner selection is deterministic: a tally has at most one winning
/// position.
pub proof fn lemma_winner_unique(t: Seq<u64>, a: int, b: int)
    requires
        is_first_max(t, a),
        is_first_max(t, b),
    ensures
        a == b,
{
    if a < b {
        assert(t[a] < t[b]);
        assert(t[b] <= t[a]);
    } else if b < a {
        assert(t[b] < t[a]);
        assert(t[a] <= t[b]);
    }
}

/// Paying the artist and each of the `n` voters who backed the winner never
/// takes more than the prize: rounding only ever keeps a remainder back.
pub proof fn lemma_payouts_within_prize(prize: u64, pct: u8, n: u64)
    requires
        pct <= 100,
        n >= 1,
    ensures
        artist_share(prize as int, pct as int) + voter_share(prize as int, pct as int, n as int) * n
            <= prize,
{
    let a = prize * pct;
    let b = prize * (100 - pct);
    assert(a + b == prize * 100) by {
        lemma_mul_is_distributive_add(prize as int, pct as int, 100 - pct);
    }
    let qb = b / 100;
    // the voters together take at most the voters' pool
    lemma_fundamental_div_mod(qb, n as int);
    lemma_remainder(qb, n as int);
    assert(qb / (n as int) * n <= qb) by (nonlinear_arith)
        requires
            qb == (n as int) * (qb / (n as int)) + qb % (n as int),
            0 <= qb % (n as int),
    ;
    // and the two pools together at most the prize
    lemma_fundamental_div_mod(a as int, 100);
    lemma_fundamental_div_mod(b as int, 100);
    lemma_remainder(a as int, 100);
    lemma_remainder(b as int, 100);
    assert(a / 100 + b / 100 <= prize as int) by (nonlinear_arith)
        requires
            a == 100 * (a / 100) + a % 100,
            b == 100 * (b / 100) + b % 100,
            0 <= a % 100,
            0 <= b % 100,
            a + b == prize * 100,
    ;
}

} // verus!
