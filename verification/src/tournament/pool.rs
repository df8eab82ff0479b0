//! Sums over a bet ledger and the pari-mutuel split.
//!
//! All stakes on a match form one pool. Once the winner is known, every wager
//! on the winner is paid its share of the whole pool, in proportion to its
//! stake among the winning stakes, rounded down. What rounding leaves over
//! stays in the pool.

use vstd::prelude::*;
use vstd::arithmetic::div_mod::{lemma_fundamental_div_mod, lemma_mod_bound, lemma_div_pos_is_pos};
use vstd::arithmetic::mul::{lemma_mul_is_distributive_add, lemma_mul_inequality, lemma_mul_is_commutative};
use crate::tournament::state::{BetEntry, BetEntryView};

verus! {

/// The sum of all stakes of a ledger.
pub open spec fn total_pool(ledger: Seq<BetEntryView>) -> nat
    decreases ledger.len(),
{
    if ledger.len() == 0 {
        0
    } else {
        total_pool(ledger.drop_last()) + ledger.last().amount as nat
    }
}

/// The sum of the stakes that a ledger holds on `player`.
pub open spec fn stake_on(ledger: Seq<BetEntryView>, player: Seq<char>) -> nat
    decreases ledger.len(),
{
    if ledger.len() == 0 {
        0
    } else if ledger.last().predicted == player {
        stake_on(ledger.drop_last(), player) + ledger.last().amount as nat
    } else {
        stake_on(ledger.drop_last(), player)
    }
}

/// What a winning wager of `amount` is paid from a pool of `pool`, when
/// `winning_stake` was wagered on the winner in all: its proportional share,
/// rounded down; nothing where nothing was wagered on the winner.
pub open spec fn payout_of(amount: nat, pool: nat, winning_stake: nat) -> nat {
    if winning_stake == 0 {
        0
    } else {
        (amount * pool) / winning_stake
    }
}

/// What rounding down takes from the share of a winning wager, in units of
/// `1 / winning_stake`.
pub open spec fn remainder_of(amount: nat, pool: nat, winning_stake: nat) -> nat {
    if winning_stake == 0 {
        0
    } else {
        (amount * pool) % winning_stake
    }
}

/// The sum of the payouts to the wagers of `ledger` on `winner`, each computed
/// against `pool` and `winning_stake`.
pub open spec fn payouts_sum(
    ledger: Seq<BetEntryView>,
    winner: Seq<char>,
    pool: nat,
    winning_stake: nat,
) -> nat
    decreases ledger.len(),
{
    if ledger.len() == 0 {
        0
    } else if ledger.last().predicted == winner {
        payouts_sum(ledger.drop_last(), winner, pool, winning_stake) + payout_of(
            ledger.last().amount as nat,
            pool,
            winning_stake,
        )
    } else {
        payouts_sum(ledger.drop_last(), winner, pool, winning_stake)
    }
}

/// Everything that settling `ledger` for `winner` pays out.
pub open spec fn total_payout(ledger: Seq<BetEntryView>, winner: Seq<char>) -> nat {
    payouts_sum(ledger, winner, total_pool(ledger), stake_on(ledger, winner))
}

/// Whether no winning wager of `ledger` loses anything to rounding.
pub open spec fn divides_evenly(ledger: Seq<BetEntryView>, winner: Seq<char>) -> bool {
    forall|i: int|
        0 <= i < ledger.len() && (#[trigger] ledger[i]).predicted == winner ==> remainder_of(
            ledger[i].amount as nat,
            total_pool(ledger),
            stake_on(ledger, winner),
        ) == 0
}

spec fn remainders_sum(
    ledger: Seq<BetEntryView>,
    winner: Seq<char>,
    pool: nat,
    winning_stake: nat,
) -> nat
    decreases ledger.len(),
{
    if ledger.len() == 0 {
        0
    } else if ledger.last().predicted == winner {
        remainders_sum(ledger.drop_last(), winner, pool, winning_stake) + remainder_of(
            ledger.last().amount as nat,
            pool,
            winning_stake,
        )
    } else {
        remainders_sum(ledger.drop_last(), winner, pool, winning_stake)
    }
}

/// The stake on one player is part of the pool.
pub proof fn lemma_stake_within_pool(ledger: Seq<BetEntryView>, player: Seq<char>)
    ensures
        stake_on(ledger, player) <= total_pool(ledger),
    decreases ledger.len(),
{
    if ledger.len() > 0 {
        lemma_stake_within_pool(ledger.drop_last(), player);
    }
}

/// A prefix of a ledger holds no more than the ledger, in all and on each player.
pub proof fn lemma_prefix_sums(ledger: Seq<BetEntryView>, player: Seq<char>, n: int)
    requires
        0 <= n <= ledger.len(),
    ensures
        total_pool(ledger.take(n)) <= total_pool(ledger),
        stake_on(ledger.take(n), player) <= stake_on(ledger, player),
    decreases ledger.len(),
{
    if n == ledger.len() {
        assert(ledger.take(n) =~= ledger);
    } else {
        assert(ledger.drop_last().take(n) =~= ledger.take(n));
        lemma_prefix_sums(ledger.drop_last(), player, n);
    }
}

/// Taking one more wager into a prefix adds its stake to the sums.
pub proof fn lemma_sums_step(ledger: Seq<BetEntryView>, player: Seq<char>, n: int)
    requires
        0 <= n < ledger.len(),
    ensures
        total_pool(ledger.take(n + 1)) == total_pool(ledger.take(n)) + ledger[n].amount,
        stake_on(ledger.take(n + 1), player) == stake_on(ledger.take(n), player) + (if ledger[n].predicted
            == player {
            ledger[n].amount as nat
        } else {
            0
        }),
{
    assert(ledger.take(n + 1).drop_last() =~= ledger.take(n));
}

/// Taking one more wager into a prefix adds its payout, if it won.
pub proof fn lemma_payouts_step(
    ledger: Seq<BetEntryView>,
    winner: Seq<char>,
    pool: nat,
    winning_stake: nat,
    n: int,
)
    requires
        0 <= n < ledger.len(),
    ensures
        payouts_sum(ledger.take(n + 1), winner, pool, winning_stake) == payouts_sum(
            ledger.take(n),
            winner,
            pool,
            winning_stake,
        ) + (if ledger[n].predicted == winner {
            payout_of(ledger[n].amount as nat, pool, winning_stake)
        } else {
            0
        }),
{
    assert(ledger.take(n + 1).drop_last() =~= ledger.take(n));
}

/// The payouts to a prefix of a ledger are part of the payouts to the ledger.
pub proof fn lemma_payouts_prefix(
    ledger: Seq<BetEntryView>,
    winner: Seq<char>,
    pool: nat,
    winning_stake: nat,
    n: int,
)
    requires
        0 <= n <= ledger.len(),
    ensures
        payouts_sum(ledger.take(n), winner, pool, winning_stake) <= payouts_sum(
            ledger,
            winner,
            pool,
            winning_stake,
        ),
    decreases ledger.len(),
{
    if n == ledger.len() {
        assert(ledger.take(n) =~= ledger);
    } else {
        assert(ledger.drop_last().take(n) =~= ledger.take(n));
        lemma_payouts_prefix(ledger.drop_last(), winner, pool, winning_stake, n);
    }
}

proof fn lemma_share_splits(amount: nat, pool: nat, winning_stake: nat)
    requires
        winning_stake > 0,
    ensures
        winning_stake * payout_of(amount, pool, winning_stake) + remainder_of(
            amount,
            pool,
            winning_stake,
        ) == pool * amount,
        remainder_of(amount, pool, winning_stake) < winning_stake,
{
    let x = (amount * pool) as int;
    let d = winning_stake as int;
    lemma_fundamental_div_mod(x, d);
    lemma_mod_bound(x, d);
    lemma_mul_is_commutative(amount as int, pool as int);
    assert(0 <= x / d) by {
        if x > 0 {
            lemma_div_pos_is_pos(x, d);
        }
    }
}

proof fn lemma_payouts_account(
    ledger: Seq<BetEntryView>,
    winner: Seq<char>,
    pool: nat,
    winning_stake: nat,
)
    requires
        winning_stake > 0,
    ensures
        winning_stake * payouts_sum(ledger, winner, pool, winning_stake) + remainders_sum(
            ledger,
            winner,
            pool,
            winning_stake,
        ) == pool * stake_on(ledger, winner),
    decreases ledger.len(),
{
    if ledger.len() == 0 {
        assert(winning_stake * 0 == 0);
        assert(pool * 0 == 0);
    } else {
        let rest = ledger.drop_last();
        lemma_payouts_account(rest, winner, pool, winning_stake);
        if ledger.last().predicted == winner {
            let a = ledger.last().amount as nat;
            lemma_share_splits(a, pool, winning_stake);
            lemma_mul_is_distributive_add(
                winning_stake as int,
                payouts_sum(rest, winner, pool, winning_stake) as int,
                payout_of(a, pool, winning_stake) as int,
            );
            lemma_mul_is_distributive_add(
                pool as int,
                stake_on(rest, winner) as int,
                a as int,
            );
        }
    }
}

proof fn lemma_remainders_vanish(
    ledger: Seq<BetEntryView>,
    winner: Seq<char>,
    pool: nat,
    winning_stake: nat,
)
    ensures
        remainders_sum(ledger, winner, pool, winning_stake) == 0 <==> (forall|i: int|
            0 <= i < ledger.len() && (#[trigger] ledger[i]).predicted == winner ==> remainder_of(
                ledger[i].amount as nat,
                pool,
                winning_stake,
            ) == 0),
    decreases ledger.len(),
{
    if ledger.len() > 0 {
        let rest = ledger.drop_last();
        lemma_remainders_vanish(rest, winner, pool, winning_stake);
        assert(forall|i: int| 0 <= i < rest.len() ==> rest[i] == ledger[i]);
        if remainders_sum(ledger, winner, pool, winning_stake) == 0 {
            assert forall|i: int|
                0 <= i < ledger.len() && (#[trigger] ledger[i]).predicted == winner implies remainder_of(
                ledger[i].amount as nat,
                pool,
                winning_stake,
            ) == 0 by {
                if i < rest.len() {
                    assert(rest[i].predicted == winner);
                }
            }
        }
        if (forall|i: int|
            0 <= i < ledger.len() && (#[trigger] ledger[i]).predicted == winner ==> remainder_of(
                ledger[i].amount as nat,
                pool,
                winning_stake,
            ) == 0) {
            assert forall|i: int|
                0 <= i < rest.len() && (#[trigger] rest[i]).predicted == winner implies remainder_of(
                rest[i].amount as nat,
                pool,
                winning_stake,
            ) == 0 by {
                assert(ledger[i].predicted == winner);
            }
            if ledger.last().predicted == winner {
                assert(ledger[ledger.len() - 1].predicted == winner);
            }
        }
    }
}

/// Settlement never pays out more than the pool holds. Where anything was
/// wagered on the winner, it pays out the whole pool exactly when no winning
/// wager loses anything to rounding.
pub proof fn lemma_payouts_within_pool(ledger: Seq<BetEntryView>, winner: Seq<char>)
    ensures
        total_payout(ledger, winner) <= total_pool(ledger),
        stake_on(ledger, winner) > 0 ==> (total_payout(ledger, winner) == total_pool(ledger)
            <==> divides_evenly(ledger, winner)),
{
    let pool = total_pool(ledger);
    let stake = stake_on(ledger, winner);
    if stake == 0 {
        lemma_payouts_without_stake(ledger, winner, pool);
    } else {
        lemma_payouts_account(ledger, winner, pool, stake);
        lemma_remainders_vanish(ledger, winner, pool, stake);
        let paid = payouts_sum(ledger, winner, pool, stake);
        let lost = remainders_sum(ledger, winner, pool, stake);
        assert(stake * paid + lost == pool * stake);
        lemma_mul_is_commutative(pool as int, stake as int);
        assert(paid <= pool) by {
            if paid > pool {
                lemma_mul_inequality(pool as int + 1, paid as int, stake as int);
                lemma_mul_is_commutative(paid as int, stake as int);
                lemma_mul_is_distributive_add(stake as int, pool as int, 1);
                lemma_mul_is_commutative(pool as int + 1, stake as int);
            }
        }
        if paid == pool {
            assert(lost == 0);
        }
        if lost == 0 {
            assert(stake * paid == stake * pool);
            assert(paid == pool) by {
                if paid < pool {
                    lemma_mul_inequality(paid as int + 1, pool as int, stake as int);
                    lemma_mul_is_commutative(paid as int + 1, stake as int);
                    lemma_mul_is_distributive_add(stake as int, paid as int, 1);
                    lemma_mul_is_commutative(pool as int, stake as int);
                }
            }
        }
    }
}

/// Nothing is paid out where nothing was wagered on the winner.
pub proof fn lemma_payouts_without_stake(ledger: Seq<BetEntryView>, winner: Seq<char>, pool: nat)
    ensures
        payouts_sum(ledger, winner, pool, 0) == 0,
    decreases ledger.len(),
{
    if ledger.len() > 0 {
        lemma_payouts_without_stake(ledger.drop_last(), winner, pool);
    }
}

/// The sum of all stakes of a ledger.
pub fn total_stake(entries: &Vec<BetEntry>) -> (total: u64)
    requires
        total_pool(entries.deep_view()) <= u64::MAX,
    ensures
        total == total_pool(entries.deep_view()),
{
    let ghost ledger = entries.deep_view();
    let mut total: u64 = 0;
    let mut i: usize = 0;
    while i < entries.len()
        invariant
            i <= entries.len(),
            ledger == entries.deep_view(),
            total == total_pool(ledger.take(i as int)),
            total_pool(ledger) <= u64::MAX,
        decreases entries.len() - i,
    {
        proof {
            lemma_sums_step(ledger, Seq::empty(), i as int);
            lemma_prefix_sums(ledger, Seq::empty(), i as int + 1);
        }
        total = total + entries[i].amount;
        i += 1;
    }
    assert(ledger.take(i as int) =~= ledger);
    total
}

/// The sum of the stakes that a ledger holds on `player`.
pub fn stake_on_player(entries: &Vec<BetEntry>, player: &String) -> (stake: u64)
    requires
        total_pool(entries.deep_view()) <= u64::MAX,
    ensures
        stake == stake_on(entries.deep_view(), player@),
{
    let ghost ledger = entries.deep_view();
    let mut stake: u64 = 0;
    let mut i: usize = 0;
    proof {
        lemma_stake_within_pool(ledger, player@);
    }
    while i < entries.len()
        invariant
            i <= entries.len(),
            ledger == entries.deep_view(),
            stake == stake_on(ledger.take(i as int), player@),
            stake_on(ledger, player@) <= u64::MAX,
        decreases entries.len() - i,
    {
        proof {
            lemma_sums_step(ledger, player@, i as int);
            lemma_prefix_sums(ledger, player@, i as int + 1);
        }
        if entries[i].predicted == *player {
            stake = stake + entries[i].amount;
        }
        i += 1;
    }
    assert(ledger.take(i as int) =~= ledger);
    stake
}

/// Whether the stakes of a ledger add up to no more than a stake can hold.
pub fn pool_fits(entries: &Vec<BetEntry>) -> (fits: bool)
    ensures
        fits == (total_pool(entries.deep_view()) <= u64::MAX),
{
    let ghost ledger = entries.deep_view();
    let mut total: u64 = 0;
    let mut i: usize = 0;
    while i < entries.len()
        invariant
            i <= entries.len(),
            ledger == entries.deep_view(),
            total == total_pool(ledger.take(i as int)),
        decreases entries.len() - i,
    {
        proof {
            lemma_sums_step(ledger, Seq::empty(), i as int);
            lemma_prefix_sums(ledger, Seq::empty(), i as int + 1);
        }
        if entries[i].amount > u64::MAX - total {
            return false;
        }
        total = total + entries[i].amount;
        i += 1;
    }
    assert(ledger.take(i as int) =~= ledger);
    true
}

/// Everything that settling a ledger for `winner` pays out.
pub fn payout_total(entries: &Vec<BetEntry>, winner: &String) -> (total: u64)
    requires
        total_pool(entries.deep_view()) <= u64::MAX,
    ensures
        total == total_payout(entries.deep_view(), winner@),
{
    let ghost ledger = entries.deep_view();
    let pool_total = total_stake(entries);
    let total_winner = stake_on_player(entries, winner);
    let ghost pool = pool_total as nat;
    let ghost stake = total_winner as nat;
    proof {
        lemma_payouts_within_pool(ledger, winner@);
        lemma_payouts_without_stake(ledger, winner@, pool);
        assert(ledger.take(0) =~= Seq::<BetEntryView>::empty());
    }
    if total_winner == 0 {
        return 0;
    }
    let mut paid: u64 = 0;
    let mut i: usize = 0;
    while i < entries.len()
        invariant
            i <= entries.len(),
            ledger == entries.deep_view(),
            pool == total_pool(ledger),
            pool == pool_total,
            stake == stake_on(ledger, winner@),
            stake == total_winner,
            stake > 0,
            payouts_sum(ledger, winner@, pool, stake) <= pool,
            paid == payouts_sum(ledger.take(i as int), winner@, pool, stake),
        decreases entries.len() - i,
    {
        proof {
            lemma_payouts_step(ledger, winner@, pool, stake, i as int);
            lemma_payouts_prefix(ledger, winner@, pool, stake, i as int + 1);
            lemma_sums_step(ledger, winner@, i as int);
            lemma_prefix_sums(ledger, winner@, i as int + 1);
            assert(ledger[i as int] == entries[i as int]@);
        }
        if entries[i].predicted == *winner {
            proof {
                lemma_share_within_pool(entries[i as int].amount as nat, pool, stake);
            }
            paid = paid + payout_share(entries[i].amount, pool_total, total_winner);
        }
        i += 1;
    }
    assert(ledger.take(i as int) =~= ledger);
    paid
}

/// The payout of one winning wager: its proportional share of the pool,
/// rounded down. The product is formed in twice the width of a stake.
pub fn payout_share(amount: u64, total_pool: u64, winning_stake: u64) -> (payout: u64)
    requires
        winning_stake > 0,
        payout_of(amount as nat, total_pool as nat, winning_stake as nat) <= u64::MAX,
    ensures
        payout == payout_of(amount as nat, total_pool as nat, winning_stake as nat),
        payout == (amount * total_pool) / (winning_stake as int),
{
    assert(amount * total_pool <= u64::MAX * u64::MAX) by (nonlinear_arith)
        requires
            amount <= u64::MAX,
            total_pool <= u64::MAX,
    ;
    let product: u128 = (amount as u128) * (total_pool as u128);
    let share: u128 = product / (winning_stake as u128);
    share as u64
}

/// A wager never wins more than the pool: the share of a stake that is part
/// of the winning stake is at most the pool.
pub proof fn lemma_share_within_pool(amount: nat, pool: nat, winning_stake: nat)
    requires
        amount <= winning_stake,
    ensures
        payout_of(amount, pool, winning_stake) <= pool,
{
    if winning_stake > 0 {
        lemma_share_splits(amount, pool, winning_stake);
        let q = payout_of(amount, pool, winning_stake);
        if q > pool {
            lemma_mul_inequality(pool as int + 1, q as int, winning_stake as int);
            lemma_mul_is_commutative(q as int, winning_stake as int);
            lemma_mul_is_commutative(pool as int + 1, winning_stake as int);
            lemma_mul_is_distributive_add(winning_stake as int, pool as int, 1);
            lemma_mul_inequality(amount as int, winning_stake as int, pool as int);
            lemma_mul_is_commutative(amount as int, pool as int);
            lemma_mul_is_commutative(winning_stake as int, pool as int);
        }
    }
}

} // verus!
