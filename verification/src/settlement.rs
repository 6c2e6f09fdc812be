//! The settlement engine: given the winning number and a batch of bets, how
//! much each bet won, one result per bet and in batch order.

use vstd::prelude::*;

use crate::bets::RouletteBet;
use crate::bets::RouletteBetResult;
use crate::bets::RouletteBetType;
use crate::bets::spec_win_value;
use crate::bets::wager_in_range;

verus! {

/// The colour code of a pocket: 0 for the eighteen red numbers, 1 for the
/// eighteen black ones, 2 for the zero, which is neither.
pub open spec fn colour_of(number: u8) -> u8 {
    if number == 0 {
        2
    } else if number == 1 || number == 3 || number == 5 || number == 7 || number == 9 || number
        == 12 || number == 14 || number == 16 || number == 18 || number == 19 || number == 21
        || number == 23 || number == 25 || number == 27 || number == 30 || number == 32 || number
        == 34 || number == 36 {
        0
    } else {
        1
    }
}

/// Whether a bet shape covers the winning number: the match predicate that
/// decides a hit, shape by shape.
pub open spec fn covers(bet_type: RouletteBetType, winning_number: u8) -> bool {
    match bet_type {
        RouletteBetType::Straight(v) => v == winning_number,
        RouletteBetType::Dozens(v) => winning_number > 0 && (winning_number - 1) / 12 == v - 1,
        RouletteBetType::Columns(v) => winning_number > 0 && winning_number % 3 == v % 3,
        RouletteBetType::EvenOdd(v) => winning_number % 2 == v,
        RouletteBetType::Highlow(v) => (v == 0 && 1 <= winning_number && winning_number <= 18) || (
        v == 1 && 19 <= winning_number && winning_number <= 36),
        RouletteBetType::Redblack(v) => v == colour_of(winning_number),
        RouletteBetType::Split(v) => v@.contains(winning_number),
        RouletteBetType::Street(v) => v@.contains(winning_number),
        RouletteBetType::Basket(v) => v@.contains(winning_number),
        RouletteBetType::Topline(v) => v@.contains(winning_number),
        RouletteBetType::Corner(v) => v@.contains(winning_number),
        RouletteBetType::Doubleline(v) => v@.contains(winning_number),
    }
}

/// What a bet wins against the winning number: its full payout on a hit,
/// nothing otherwise.
pub open spec fn win_amount(bet: RouletteBet, winning_number: u8) -> int {
    if covers(bet.bet_type, winning_number) {
        spec_win_value(bet)
    } else {
        0
    }
}

/// Whether a pocket number stands among the numbers a shape covers.
fn slice_covers(numbers: &[u8], winning_number: u8) -> (hit: bool)
    ensures
        hit == numbers@.contains(winning_number),
{
    let len = numbers.len();
    let mut i: usize = 0;
    while i < len
        invariant
            len == numbers@.len(),
            0 <= i <= len,
            !numbers@.take(i as int).contains(winning_number),
        decreases len - i,
    {
        if numbers[i] == winning_number {
            assert(numbers@.contains(winning_number));
            return true;
        }
        assert(numbers@.take(i + 1) == numbers@.take(i as int).push(numbers@[i as int]));
        i = i + 1;
    }
    assert(numbers@.take(len as int) == numbers@);
    false
}

/// The settlement engine: it decides each bet of a batch against the drawn
/// number and prices the winners.
pub struct RouletteEvaluator;

impl RouletteEvaluator {
    /// The colour code of a pocket: red 0, black 1, the zero its own code 2.
    pub fn get_number_colour(number: u8) -> (colour: u8)
        ensures
            colour == colour_of(number),
    {
        match number {
            0 => 2,
            1 | 3 | 5 | 7 | 9 | 12 | 14 | 16 | 18 | 19 | 21 | 23 | 25 | 27 | 30 | 32 | 34 | 36 => 0,
            _ => 1,
        }
    }

    /// Settles a batch: one result per bet, in batch order, each carrying its
    /// bet and what it won — the full payout on a hit, nothing otherwise.
    pub fn calculate_winnings(winning_number: u8, bets: &Vec<RouletteBet>) -> (results: Vec<
        RouletteBetResult,
    >)
        requires
            winning_number <= 36,
            forall|i: int| 0 <= i < bets@.len() ==> wager_in_range(bets@[i]),
        ensures
            results@.len() == bets@.len(),
            forall|i: int|
                0 <= i < bets@.len() ==> results@[i].bet == bets@[i] && results@[i].win
                    == win_amount(bets@[i], winning_number),
    {
        let mut results: Vec<RouletteBetResult> = Vec::new();
        let colour = Self::get_number_colour(winning_number);
        let len = bets.len();
        let mut idx: usize = 0;
        while idx < len
            invariant
                len == bets@.len(),
                0 <= idx <= len,
                winning_number <= 36,
                colour == colour_of(winning_number),
                forall|i: int| 0 <= i < bets@.len() ==> wager_in_range(bets@[i]),
                results@.len() == idx,
                forall|i: int|
                    0 <= i < idx ==> results@[i].bet == bets@[i] && results@[i].win == win_amount(
                        bets@[i],
                        winning_number,
                    ),
            decreases len - idx,
        {
            let bet = bets[idx];
            let hit: bool = match bet.bet_type {
                // Just match the number.
                RouletteBetType::Straight(v) => v == winning_number,
                // The zero falls in no dozen; otherwise the dozens group of
                // the winning number must be the one chosen.
                RouletteBetType::Dozens(v) => winning_number > 0 && v >= 1 && (winning_number - 1)
                    / 12 == v - 1,
                // The zero stands in no column; otherwise the columns agree
                // modulo three.
                RouletteBetType::Columns(v) => winning_number > 0 && winning_number % 3 == v % 3,
                // Even pockets match flag 0, odd ones flag 1.
                RouletteBetType::EvenOdd(v) => winning_number % 2 == v,
                // Low is 1 to 18, high 19 to 36; the zero is neither.
                RouletteBetType::Highlow(v) => (v == 0 && winning_number >= 1 && winning_number
                    <= 18) || (v == 1 && winning_number >= 19 && winning_number <= 36),
                // Match on colour; the zero's own colour matches no flag.
                RouletteBetType::Redblack(v) => v == colour,
                // For all the spread shapes, the winning number must stand
                // among the chosen pockets.
                RouletteBetType::Split(v) => slice_covers(v.as_slice(), winning_number),
                RouletteBetType::Street(v) => slice_covers(v.as_slice(), winning_number),
                RouletteBetType::Basket(v) => slice_covers(v.as_slice(), winning_number),
                RouletteBetType::Topline(v) => slice_covers(v.as_slice(), winning_number),
                RouletteBetType::Corner(v) => slice_covers(v.as_slice(), winning_number),
                RouletteBetType::Doubleline(v) => slice_covers(v.as_slice(), winning_number),
            };
            assert(hit == covers(bet.bet_type, winning_number));
            let win: u64 = if hit {
                bet.win_value()
            } else {
                0
            };
            results.push(RouletteBetResult::new(bet, win));
            idx = idx + 1;
        }
        results
    }
}

/// The count of pockets from 1 up to `upto` whose colour code is `colour`.
pub open spec fn count_colour(colour: u8, upto: int) -> int
    decreases upto,
{
    if upto <= 0 {
        0
    } else {
        count_colour(colour, upto - 1) + if colour_of(upto as u8) == colour {
            1int
        } else {
            0int
        }
    }
}

/// Every pocket carries one of the three colour codes, the zero alone carries
/// code 2, and the thirty-six other pockets split evenly: eighteen red and
/// eighteen black.
pub proof fn lemma_colour_classification()
    ensures
        forall|n: u8| n <= 36 ==> colour_of(n) == 0 || colour_of(n) == 1 || colour_of(n) == 2,
        colour_of(0) == 2,
        forall|n: u8| 1 <= n <= 36 ==> colour_of(n) == 0 || colour_of(n) == 1,
        count_colour(0, 36) == 18,
        count_colour(1, 36) == 18,
{
    reveal_with_fuel(count_colour, 38);
    assert(count_colour(0, 36) == 18);
    assert(count_colour(1, 36) == 18);
}

} // verus!
