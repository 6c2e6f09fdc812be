//! The bet validator: structural legality of a shape on the 3-column,
//! 12-row (plus zero) layout of the felt.

use vstd::prelude::*;

use crate::bets::RouletteBetType;
use crate::table::Roulette;

verus! {

/// A split on `a` and `b` is legal where the two pockets touch on the felt.
/// The clauses mirror the table layout exactly as the validator groups them:
/// the duplicate-and-range guard gates only the zero splits, while the main
/// grid and the bottom row stand as disjuncts of their own.
pub open spec fn split_rule(a: u8, b: u8) -> bool {
    ||| (a != b && a <= 35 && b <= 36 && b > a) && (a == 0 && (b == 1 || b == 2 || b == 3))
    ||| (a > 0 && a <= 33) && (((b % 3 == 0 && b - a == 1) || b - a == 3) || ((a % 3 == 1 && b - a
        == 1) || b - a == 3))
    ||| a >= 34 && b - a == 1
}

/// A street on `a`, `b`, `c` is legal when `a` starts a row of the grid and
/// the other two pockets follow it.
pub open spec fn street_rule(a: u8, b: u8, c: u8) -> bool {
    a > 0 && a <= 34 && (a - 1) % 3 == 0 && b - a == 1 && c - b == 1
}

/// A corner on `a`, `b`, `c`, `d` is legal when `a` sits outside the right
/// column and the others close the square of two rows by two columns.
pub open spec fn corner_rule(a: u8, b: u8, c: u8, d: u8) -> bool {
    a > 0 && a % 3 != 0 && b - a == 1 && d - c == 1 && d - b == 3 && c - a == 3
}

/// Structural legality of a bet shape: whether its numbers form a valid
/// adjacency group on the felt, its numbers taken in ascending order.
pub open spec fn shape_legal(bet_type: RouletteBetType) -> bool {
    match bet_type {
        RouletteBetType::Straight(v) => v <= 36,
        RouletteBetType::Split(v) => split_rule(v[0], v[1]),
        RouletteBetType::Street(v) => street_rule(v[0], v[1], v[2]),
        RouletteBetType::Basket(v) => v[0] == 0 && ((v[1] == 1 && v[2] == 2) || (v[1] == 2 && v[2]
            == 3)),
        RouletteBetType::Topline(v) => v[0] == 0 && v[1] == 1 && v[2] == 2 && v[3] == 3,
        RouletteBetType::Corner(v) => corner_rule(v[0], v[1], v[2], v[3]),
        RouletteBetType::Doubleline(v) => street_rule(v[0], v[1], v[2]) && street_rule(
            v[3],
            v[4],
            v[5],
        ),
        RouletteBetType::Dozens(v) => 1 <= v && v <= 3,
        RouletteBetType::Columns(v) => 1 <= v && v <= 3,
        RouletteBetType::EvenOdd(v) => v <= 1,
        RouletteBetType::Highlow(v) => v <= 1,
        RouletteBetType::Redblack(v) => v <= 1,
    }
}

/// One row of three: `a` starts a row and `b`, `c` follow it. The differences
/// are taken over widened values so they cannot underflow on unsorted input.
fn street_legal(a: u8, b: u8, c: u8) -> (legal: bool)
    ensures
        legal == street_rule(a, b, c),
{
    a > 0 && a <= 34 && (a - 1) % 3 == 0 && b as u16 == a as u16 + 1 && c as u16 == b as u16 + 1
}

impl Roulette {
    /// Decides whether a bet shape is structurally legal and can be played.
    /// The numbers of an array-valued shape are expected in ascending order.
    pub fn validate_bet_option(bet_type: RouletteBetType) -> (legal: bool)
        ensures
            legal == shape_legal(bet_type),
    {
        match bet_type {
            // Any pocket on the wheel, the zero included.
            RouletteBetType::Straight(v) => v <= 36,
            RouletteBetType::Split(v) => {
                let a = v[0];
                let b = v[1];
                let one_apart = b as u16 == a as u16 + 1;
                let three_apart = b as u16 == a as u16 + 3;
                // duplicate and range check, gating the zero splits: zero can
                // only be combined with 1, 2, 3
                ((a != b && (a <= 35 && b <= 36) && b > a) && (a == 0 && (b == 1 || b == 2 || b
                    == 3)))
                // numbers 1 to 33: neighbours on the main grid, right edge,
                // left edge and the vertical case
                || ((a > 0 && a <= 33) && (((b % 3 == 0 && one_apart) || three_apart) || ((a % 3
                    == 1 && one_apart) || three_apart)))
                // bottom edge (34, 35, 36)
                || (a >= 34 && one_apart)
            },
            RouletteBetType::Street(v) => street_legal(v[0], v[1], v[2]),
            // The two three-pocket groups touching the zero.
            RouletteBetType::Basket(v) => v[0] == 0 && ((v[1] == 1 && v[2] == 2) || (v[1] == 2
                && v[2] == 3)),
            // Always exactly 0, 1, 2, 3.
            RouletteBetType::Topline(v) => v[0] == 0 && v[1] == 1 && v[2] == 2 && v[3] == 3,
            // Cannot start on the right column; two adjacent rows by two
            // adjacent columns.
            RouletteBetType::Corner(v) => {
                let a = v[0];
                let b = v[1];
                let c = v[2];
                let d = v[3];
                a > 0 && a % 3 != 0 && b as u16 == a as u16 + 1 && d as u16 == c as u16 + 1 && d
                    as u16 == b as u16 + 3 && c as u16 == a as u16 + 3
            },
            // Two streets back to back.
            RouletteBetType::Doubleline(v) => street_legal(v[0], v[1], v[2]) && street_legal(
                v[3],
                v[4],
                v[5],
            ),
            // Only the three groups exist.
            RouletteBetType::Dozens(v) => 1 <= v && v <= 3,
            RouletteBetType::Columns(v) => 1 <= v && v <= 3,
            // Only the flags 0 and 1 exist.
            RouletteBetType::EvenOdd(v) => v <= 1,
            RouletteBetType::Highlow(v) => v <= 1,
            RouletteBetType::Redblack(v) => v <= 1,
        }
    }
}

/// A straight bet is legal exactly on the pockets of the wheel, 0 to 36.
pub proof fn lemma_straight_legal_range(n: u8)
    ensures
        shape_legal(RouletteBetType::Straight(n)) <==> n <= 36,
{
}

/// A dozens or columns bet is legal exactly for the group indexes 1, 2, 3.
pub proof fn lemma_group_index_legal(i: u8)
    ensures
        shape_legal(RouletteBetType::Dozens(i)) <==> 1 <= i <= 3,
        shape_legal(RouletteBetType::Columns(i)) <==> 1 <= i <= 3,
{
}

/// A street of three consecutive pockets is legal exactly when its first
/// pocket starts one of the twelve rows: it is at least 1, at most 34, and
/// one past a multiple of three.
pub proof fn lemma_street_legal_rows(a: u8, v: [u8; 3])
    requires
        v[0] == a,
        v[1] == a + 1,
        v[2] == a + 2,
    ensures
        shape_legal(RouletteBetType::Street(v)) <==> (1 <= a <= 34 && (a - 1) % 3 == 0),
{
}

/// The validator is a pure function of the shape: any two results that its
/// contract allows on the same shape agree.
pub proof fn lemma_validation_deterministic(bet_type: RouletteBetType, first: bool, second: bool)
    requires
        first == shape_legal(bet_type),
        second == shape_legal(bet_type),
    ensures
        first == second,
{
}

} // verus!
