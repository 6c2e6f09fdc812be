//! The table itself: it owns the spin history and the minimum stake, admits
//! or refuses a batch of bets, draws the winning number and settles the batch.

use vstd::prelude::*;

use crate::bets::PlaceBetError;
use crate::bets::RouletteBet;
use crate::bets::RouletteBetResult;
use crate::bets::RouletteBetType;
use crate::bets::stake_factor;
use crate::bets::wager_in_range;
use crate::settlement::RouletteEvaluator;
use crate::settlement::win_amount;
use crate::validity::shape_legal;

verus! {

/// The error, if any, that admission raises against one bet: an illegal shape,
/// or, for a legal shape, a wager under the table's minimum for it.
pub open spec fn bet_error(min_bet_size: u64, bet: RouletteBet) -> Option<PlaceBetError> {
    if !shape_legal(bet.bet_type) {
        Some(PlaceBetError::InvalidBetOption(bet))
    } else if bet.wager < min_bet_size * stake_factor(bet.bet_type) {
        Some(
            PlaceBetError::MinBetNotSatisfied(
                bet,
                (min_bet_size * stake_factor(bet.bet_type)) as u64,
            ),
        )
    } else {
        None
    }
}

/// Every admission error a batch of bets raises, one per offending bet, in
/// batch order. Admission never stops at the first problem.
pub open spec fn bet_errors(min_bet_size: u64, bets: Seq<RouletteBet>) -> Seq<PlaceBetError>
    decreases bets.len(),
{
    if bets.len() == 0 {
        Seq::empty()
    } else {
        let rest = bet_errors(min_bet_size, bets.drop_last());
        match bet_error(min_bet_size, bets.last()) {
            Some(e) => rest.push(e),
            None => rest,
        }
    }
}

/// The roulette table: the history of drawn numbers, append-only and in draw
/// order, and the table-wide minimum stake unit.
#[derive(Debug, Clone)]
pub struct Roulette {
    pub history: Vec<u8>,
    pub min_bet_size: u64,
}

impl Roulette {
    /// Every number the wheel has drawn lies on it.
    pub open spec fn wf(self) -> bool {
        forall|i: int| 0 <= i < self.history@.len() ==> self.history@[i] <= 36
    }

    /// A fresh table: no spins yet, minimum stake of one unit.
    pub fn new() -> (table: Self)
        ensures
            table.history@ == Seq::<u8>::empty(),
            table.min_bet_size == 1u64,
            table.wf(),
    {
        Self { history: Vec::new(), min_bet_size: 1 }
    }

    /// The numbers drawn so far, oldest first.
    pub fn history(&self) -> (history: &[u8])
        ensures
            history@ == self.history@,
    {
        self.history.as_slice()
    }

    /// One spin of the wheel. Admits the whole batch or none of it: if any
    /// bet is refused, every admission error comes back, the wheel does not
    /// turn and the history stays as it was. Otherwise the winning number is
    /// drawn, appended to the history, and the batch settled against it.
    pub fn spin(&mut self, bets: &Vec<RouletteBet>) -> (outcome: Result<
        (u8, Vec<RouletteBetResult>),
        Vec<PlaceBetError>,
    >)
        requires
            forall|i: int| 0 <= i < bets@.len() ==> wager_in_range(bets@[i]),
        ensures
            outcome is Ok <==> bet_errors(old(self).min_bet_size, bets@).len() == 0,
            bets@.len() == 0 ==> outcome is Ok,
            final(self).min_bet_size == old(self).min_bet_size,
            old(self).wf() ==> final(self).wf(),
            match outcome {
                Ok((winning_number, results)) => {
                    &&& winning_number <= 36
                    &&& final(self).history@ == old(self).history@.push(winning_number)
                    &&& results@.len() == bets@.len()
                    &&& forall|i: int|
                        0 <= i < bets@.len() ==> results@[i].bet == bets@[i] && results@[i].win
                            == win_amount(bets@[i], winning_number)
                },
                Err(errors) => {
                    &&& *final(self) == *old(self)
                    &&& errors@ == bet_errors(old(self).min_bet_size, bets@)
                },
            },
    {
        match self.validate_bets(bets) {
            Ok(()) => {},
            Err(errors) => {
                return Err(errors);
            },
        }

        // spin
        let number = draw_winning_number();
        self.history.push(number);

        Ok((number, RouletteEvaluator::calculate_winnings(number, bets)))
    }

    /// Admission of a whole batch: collects every error, one per offending
    /// bet, in batch order, and never stops at the first.
    fn validate_bets(&self, bets: &Vec<RouletteBet>) -> (outcome: Result<(), Vec<PlaceBetError>>)
        ensures
            match outcome {
                Ok(()) => bet_errors(self.min_bet_size, bets@).len() == 0,
                Err(errors) => {
                    &&& errors@ == bet_errors(self.min_bet_size, bets@)
                    &&& errors@.len() > 0
                },
            },
    {
        let mut errors: Vec<PlaceBetError> = Vec::new();

        let len = bets.len();
        let mut idx: usize = 0;
        while idx < len
            invariant
                len == bets@.len(),
                0 <= idx <= len,
                errors@ == bet_errors(self.min_bet_size, bets@.take(idx as int)),
            decreases len - idx,
        {
            let bet = bets[idx];
            if !Self::validate_bet_option(bet.bet_type()) {
                errors.push(PlaceBetError::InvalidBetOption(bet));
            } else if !self.validate_bet_size(&bet) {
                errors.push(
                    PlaceBetError::MinBetNotSatisfied(
                        bet,
                        self.min_bet_size * Self::min_bet_for_option(bet.bet_type()),
                    ),
                );
            }
            proof {
                assert(bets@.take(idx + 1).drop_last() == bets@.take(idx as int));
                assert(bets@.take(idx + 1).last() == bets@[idx as int]);
            }
            idx = idx + 1;
        }
        proof {
            assert(bets@.take(len as int) == bets@);
        }

        if errors.len() == 0 {
            Ok(())
        } else {
            Err(errors)
        }
    }

    /// The per-shape factor on the table minimum; one for every shape today.
    fn min_bet_for_option(bet_type: RouletteBetType) -> (factor: u64)
        ensures
            factor == stake_factor(bet_type),
    {
        match bet_type {
            RouletteBetType::Straight(_) => 1,
            RouletteBetType::Split(_) => 1,
            RouletteBetType::Street(_) => 1,
            RouletteBetType::Basket(_) => 1,
            RouletteBetType::Topline(_) => 1,
            RouletteBetType::Corner(_) => 1,
            RouletteBetType::Doubleline(_) => 1,
            RouletteBetType::Dozens(_) => 1,
            RouletteBetType::Columns(_) => 1,
            RouletteBetType::EvenOdd(_) => 1,
            RouletteBetType::Highlow(_) => 1,
            RouletteBetType::Redblack(_) => 1,
        }
    }

    /// Whether a bet's wager meets the table minimum scaled by its shape's
    /// factor.
    fn validate_bet_size(&self, bet: &RouletteBet) -> (enough: bool)
        ensures
            enough == (bet.wager >= self.min_bet_size * stake_factor(bet.bet_type)),
    {
        self.min_bet_size * Self::min_bet_for_option(bet.bet_type()) <= bet.wager()
    }
}

/// A history extended by one drawn number keeps every earlier entry in place,
/// grows by exactly one, and ends on that number. With spin's contract, the
/// history after a run of successful spins is their winning numbers in draw
/// order, one per spin.
pub proof fn lemma_history_growth(history: Seq<u8>, winning_number: u8)
    ensures
        history.push(winning_number).len() == history.len() + 1,
        history.push(winning_number).last() == winning_number,
        forall|i: int| 0 <= i < history.len() ==> history.push(winning_number)[i] == history[i],
{
}

/// Relies on rand::random_range: the sample lies within the given range, here
/// the pockets 0 to 36 of the wheel.
#[verifier::external_body]
fn draw_winning_number() -> (number: u8)
    ensures
        number <= 36,
{
    rand::random_range(0u8..=36)
}

} // verus!
