//! The bet catalog: the closed set of bet shapes on a European table, the
//! wager placed on one of them, and the fixed payout multiplier of each shape.

use vstd::prelude::*;

verus! {

/// The kind of wager placed on the felt, with the pocket numbers or group
/// index it covers. Pocket numbers run from 0 to 36, 0 being the single zero.
/// Array-valued shapes expect their numbers in strictly ascending order; the
/// validator relies on that order and does not sort.
#[derive(Debug, Clone, Copy)]
pub enum RouletteBetType {
    /// A single pocket number.
    Straight(u8),
    /// Two adjacent pockets.
    Split([u8; 2]),
    /// The three pockets of one row.
    Street([u8; 3]),
    /// Either 0,1,2 or 0,2,3.
    Basket([u8; 3]),
    /// Exactly 0,1,2,3.
    Topline([u8; 4]),
    /// Four pockets meeting at a corner.
    Corner([u8; 4]),
    /// Two rows of three pockets each.
    Doubleline([u8; 6]),
    /// 1 for 1-12, 2 for 13-24, 3 for 25-36.
    Dozens(u8),
    /// The column holding the given number among 1, 2, 3.
    Columns(u8),
    /// 0 for even, 1 for odd.
    EvenOdd(u8),
    /// 0 for 1-18, 1 for 19-36.
    Highlow(u8),
    /// 0 for red, 1 for black.
    Redblack(u8),
}

/// The fixed payout multiplier of each shape: a winning bet pays the wager
/// scaled by this factor.
pub open spec fn payout_multiplier(bet_type: RouletteBetType) -> u64 {
    match bet_type {
        RouletteBetType::Straight(_) => 36,
        RouletteBetType::Split(_) => 18,
        RouletteBetType::Street(_) => 12,
        RouletteBetType::Basket(_) => 12,
        RouletteBetType::Topline(_) => 9,
        RouletteBetType::Corner(_) => 9,
        RouletteBetType::Doubleline(_) => 6,
        RouletteBetType::Dozens(_) => 3,
        RouletteBetType::Columns(_) => 3,
        RouletteBetType::EvenOdd(_) => 2,
        RouletteBetType::Highlow(_) => 2,
        RouletteBetType::Redblack(_) => 2,
    }
}

/// The per-shape factor on the table-wide minimum stake. It is 1 for every
/// shape today; it exists so per-shape minimums can diverge later without
/// changing callers.
pub open spec fn stake_factor(bet_type: RouletteBetType) -> u64 {
    match bet_type {
        RouletteBetType::Straight(_) => 1,
        RouletteBetType::Split(_) => 1,
        RouletteBetType::Street(_) => 1,
        RouletteBetType::Basket(_) => 1,
        RouletteBetType::Topline(_) => 1,
        RouletteBetType::Corner(_) => 1,
        RouletteBetType::Doubleline(_) => 1,
        RouletteBetType::Dozens(_) => 1,
        RouletteBetType::Columns(_) => 1,
        RouletteBetType::EvenOdd(_) => 1,
        RouletteBetType::Highlow(_) => 1,
        RouletteBetType::Redblack(_) => 1,
    }
}

/// A bet: a shape and a non-negative wager on it.
#[derive(Debug, Clone, Copy)]
pub struct RouletteBet {
    pub bet_type: RouletteBetType,
    pub wager: u64,
}

/// The full payout of a bet, were it to win: wager times the shape's
/// multiplier, as an unbounded integer.
pub open spec fn spec_win_value(bet: RouletteBet) -> int {
    bet.wager * payout_multiplier(bet.bet_type)
}

/// The machine bound on a bet: its full payout fits in the wager's type.
pub open spec fn wager_in_range(bet: RouletteBet) -> bool {
    spec_win_value(bet) <= u64::MAX
}

impl RouletteBet {
    pub fn new(bet_type: RouletteBetType, wager: u64) -> (bet: Self)
        ensures
            bet.bet_type == bet_type,
            bet.wager == wager,
    {
        Self { bet_type, wager }
    }

    /// The amount paid out if this bet wins: the wager scaled by the shape's
    /// fixed multiplier.
    pub fn win_value(&self) -> (amount: u64)
        requires
            wager_in_range(*self),
        ensures
            amount == spec_win_value(*self),
    {
        let multiplier: u64 = match self.bet_type {
            RouletteBetType::Straight(_) => 36,
            RouletteBetType::Split(_) => 18,
            RouletteBetType::Street(_) => 12,
            RouletteBetType::Basket(_) => 12,
            RouletteBetType::Topline(_) => 9,
            RouletteBetType::Corner(_) => 9,
            RouletteBetType::Doubleline(_) => 6,
            RouletteBetType::Dozens(_) => 3,
            RouletteBetType::Columns(_) => 3,
            RouletteBetType::EvenOdd(_) => 2,
            RouletteBetType::Highlow(_) => 2,
            RouletteBetType::Redblack(_) => 2,
        };
        self.wager * multiplier
    }

    pub fn bet_type(&self) -> (bet_type: RouletteBetType)
        ensures
            bet_type == self.bet_type,
    {
        self.bet_type
    }

    pub fn wager(&self) -> (wager: u64)
        ensures
            wager == self.wager,
    {
        self.wager
    }
}

/// Each shape pays the wager scaled by its own fixed multiplier:
/// a straight 36-fold, a split 18-fold, a street or basket 12-fold, a topline
/// or corner 9-fold, a double line 6-fold, dozens and columns 3-fold, and the
/// even-money shapes 2-fold.
pub proof fn lemma_win_value_by_shape(bet: RouletteBet)
    ensures
        bet.bet_type is Straight ==> spec_win_value(bet) == 36 * bet.wager,
        bet.bet_type is Split ==> spec_win_value(bet) == 18 * bet.wager,
        bet.bet_type is Street ==> spec_win_value(bet) == 12 * bet.wager,
        bet.bet_type is Basket ==> spec_win_value(bet) == 12 * bet.wager,
        bet.bet_type is Topline ==> spec_win_value(bet) == 9 * bet.wager,
        bet.bet_type is Corner ==> spec_win_value(bet) == 9 * bet.wager,
        bet.bet_type is Doubleline ==> spec_win_value(bet) == 6 * bet.wager,
        bet.bet_type is Dozens ==> spec_win_value(bet) == 3 * bet.wager,
        bet.bet_type is Columns ==> spec_win_value(bet) == 3 * bet.wager,
        bet.bet_type is EvenOdd ==> spec_win_value(bet) == 2 * bet.wager,
        bet.bet_type is Highlow ==> spec_win_value(bet) == 2 * bet.wager,
        bet.bet_type is Redblack ==> spec_win_value(bet) == 2 * bet.wager,
{
    match bet.bet_type {
        RouletteBetType::Straight(_) => assert(payout_multiplier(bet.bet_type) == 36),
        RouletteBetType::Split(_) => assert(payout_multiplier(bet.bet_type) == 18),
        RouletteBetType::Street(_) => assert(payout_multiplier(bet.bet_type) == 12),
        RouletteBetType::Basket(_) => assert(payout_multiplier(bet.bet_type) == 12),
        RouletteBetType::Topline(_) => assert(payout_multiplier(bet.bet_type) == 9),
        RouletteBetType::Corner(_) => assert(payout_multiplier(bet.bet_type) == 9),
        RouletteBetType::Doubleline(_) => assert(payout_multiplier(bet.bet_type) == 6),
        RouletteBetType::Dozens(_) => assert(payout_multiplier(bet.bet_type) == 3),
        RouletteBetType::Columns(_) => assert(payout_multiplier(bet.bet_type) == 3),
        RouletteBetType::EvenOdd(_) => assert(payout_multiplier(bet.bet_type) == 2),
        RouletteBetType::Highlow(_) => assert(payout_multiplier(bet.bet_type) == 2),
        RouletteBetType::Redblack(_) => assert(payout_multiplier(bet.bet_type) == 2),
    }
}

/// The outcome of one bet after a spin: the bet itself and the amount it won,
/// 0 when it lost.
#[derive(Debug, Clone, Copy)]
pub struct RouletteBetResult {
    pub bet: RouletteBet,
    pub win: u64,
}

impl RouletteBetResult {
    pub fn new(bet: RouletteBet, win: u64) -> (result: Self)
        ensures
            result.bet == bet,
            result.win == win,
    {
        Self { bet, win }
    }

    pub fn bet(&self) -> (bet: RouletteBet)
        ensures
            bet == self.bet,
    {
        self.bet
    }

    pub fn win(&self) -> (win: u64)
        ensures
            win == self.win,
    {
        self.win
    }
}

/// Why a batch of bets was refused before the wheel was spun.
#[derive(Debug, Clone, Copy)]
pub enum PlaceBetError {
    /// The bet's shape fails structural legality.
    InvalidBetOption(RouletteBet),
    /// Reserved for a future per-option ceiling; no rule produces it today.
    MaxBetOnOption(RouletteBet, u64),
    /// The wager is below the computed minimum, which is carried along.
    MinBetNotSatisfied(RouletteBet, u64),
}

} // verus!
