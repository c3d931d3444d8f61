//! The face value of a die, random draws of it, and where its pips are drawn.

use rand::Rng;
use vstd::prelude::*;

verus! {

/// A value that a die has landed on.
#[derive(Debug, Copy, Clone, PartialEq, Eq, Structural)]
pub struct Score(pub u8);

/// Side of the square grid that pips are placed on.
pub const GRID: u8 = 9;

/// Pip cells (column, row) on the 9 by 9 grid for each face from 0 to 6.
pub open spec fn pip_layout(v: u8) -> Seq<(u8, u8)> {
    if v == 0 {
        seq![]
    } else if v == 1 {
        seq![(4u8, 4u8)]
    } else if v == 2 {
        seq![(4u8, 3u8), (4u8, 5u8)]
    } else if v == 3 {
        seq![(4u8, 2u8), (4u8, 4u8), (4u8, 6u8)]
    } else if v == 4 {
        seq![(2u8, 2u8), (2u8, 6u8), (6u8, 2u8), (6u8, 6u8)]
    } else if v == 5 {
        seq![(2u8, 2u8), (2u8, 6u8), (6u8, 2u8), (6u8, 6u8), (4u8, 4u8)]
    } else {
        seq![(2u8, 2u8), (2u8, 4u8), (2u8, 6u8), (6u8, 2u8), (6u8, 4u8), (6u8, 6u8)]
    }
}

/// Where a draw `n` from a range one shorter lands once the value `old` is
/// stepped over: draws at or above `old` move up by one.
pub open spec fn skip_over(old: u8, n: u8) -> int {
    if n >= old {
        n + 1
    } else {
        n as int
    }
}

/// Some draw from `[low, hi - 1)` is stepped over `old` onto `v`.
pub open spec fn reached_by_draw(old: u8, low: u8, hi: u8, v: u8) -> bool {
    exists|n: u8| low <= n < hi - 1 && #[trigger] skip_over(old, n) == v
}

/// Relies on rand's `thread_rng().gen_range(low, high)`: a value in
/// `[low, high)`. It panics when `low >= high`, which `requires` leaves out.
#[verifier::external_body]
fn draw_in_range(low: u8, high: u8) -> (r: u8)
    requires
        low < high,
    ensures
        low <= r < high,
{
    rand::thread_rng().gen_range(low, high)
}

impl Score {
    /// Create a new score with the given value.
    pub fn new(score: u8) -> (r: Self)
        ensures
            r.0 == score,
    {
        Self(score)
    }

    /// Locations of the pips of this face on the 9 by 9 grid, used in painting.
    /// Only faces 0 to 6 have a layout.
    pub fn points(self) -> (r: Vec<(u8, u8)>)
        requires
            self.0 <= 6,
        ensures
            r@ == pip_layout(self.0),
    {
        let r = match self.0 {
            0 => vec![],
            1 => vec![(4, 4)],
            2 => vec![(4, 3), (4, 5)],
            3 => vec![(4, 2), (4, 4), (4, 6)],
            4 => vec![(2, 2), (2, 6), (6, 2), (6, 6)],
            5 => vec![(2, 2), (2, 6), (6, 2), (6, 6), (4, 4)],
            _ => vec![(2, 2), (2, 4), (2, 6), (6, 2), (6, 4), (6, 6)],
        };
        assert(r@ =~= pip_layout(self.0));
        r
    }

    /// Create a Score with a random value between 1 and 6, for a six-sided die.
    pub fn random_die() -> (r: Self)
        ensures
            1 <= r.0 <= 6,
    {
        Self::random(1, 7)
    }

    /// Create a Score with a random value in `[low, hi)`.
    pub fn random(low: u8, hi: u8) -> (r: Self)
        requires
            low < hi,
        ensures
            low <= r.0 < hi,
    {
        Self(draw_in_range(low, hi))
    }

    /// Create a Score with a random value between 1 and 6 that differs from this one.
    pub fn different_random_die(self) -> (r: Self)
        requires
            1 <= self.0 <= 6,
        ensures
            1 <= r.0 <= 6,
            r.0 != self.0,
    {
        self.different_random(1, 7)
    }

    /// Create a Score with a random value in `[low, hi)` that differs from this one.
    ///
    /// A value is drawn from a range one shorter, `[low, hi - 1)`, and then
    /// stepped over this score (see `skip`), so each of the other values is
    /// reached by exactly one draw.
    pub fn different_random(self, low: u8, hi: u8) -> (r: Self)
        requires
            low <= self.0 <= hi,
            low + 1 < hi,
        ensures
            low <= r.0 < hi,
            r.0 != self.0,
    {
        let n = draw_in_range(low, hi - 1);
        self.skip(n)
    }

    /// Step a draw `n` over this score: `n` itself below it, `n + 1` from it on.
    pub fn skip(self, n: u8) -> (r: Self)
        requires
            n < 255,
        ensures
            r.0 == skip_over(self.0, n),
    {
        Self(if n >= self.0 { n + 1 } else { n })
    }
}

impl From<u8> for Score {
    fn from(val: u8) -> (r: Self)
        ensures
            r.0 == val,
    {
        Self(val)
    }
}

impl vstd::std_specs::convert::FromSpecImpl<u8> for Score {
    open spec fn obeys_from_spec() -> bool {
        true
    }

    open spec fn from_spec(v: u8) -> Self {
        Score(v)
    }
}

impl From<Score> for u8 {
    fn from(val: Score) -> (r: Self)
        ensures
            r == val.0,
    {
        val.0
    }
}

impl vstd::std_specs::convert::FromSpecImpl<Score> for u8 {
    open spec fn obeys_from_spec() -> bool {
        true
    }

    open spec fn from_spec(v: Score) -> Self {
        v.0
    }
}

/// Every face from 0 to 6 has as many pips as its value, and each pip lies
/// inside the 9 by 9 grid.
pub proof fn lemma_pip_layout(v: u8)
    requires
        v <= 6,
    ensures
        pip_layout(v).len() == v,
        forall|i: int| 0 <= i < pip_layout(v).len() ==> {
            &&& #[trigger] pip_layout(v)[i].0 < GRID
            &&& pip_layout(v)[i].1 < GRID
        },
{
}

/// Stepping over `old` maps the draws `[low, hi - 1)` one to one onto the
/// values of `[low, hi)` other than `old`: a uniform draw stays uniform over
/// the values that remain.
pub proof fn lemma_skip_over_bijective(old: u8, low: u8, hi: u8)
    requires
        low <= old < hi,
        low + 1 < hi,
    ensures
        forall|n: u8| low <= n < hi - 1 ==> {
            &&& low <= #[trigger] skip_over(old, n) < hi
            &&& skip_over(old, n) != old
        },
        forall|n: u8, m: u8| #[trigger] skip_over(old, n) == #[trigger] skip_over(old, m) ==> n == m,
        forall|v: u8| low <= v < hi && v != old ==> #[trigger] reached_by_draw(old, low, hi, v),
{
    assert forall|v: u8| low <= v < hi && v != old implies #[trigger] reached_by_draw(old, low, hi, v) by {
        if v < old {
            assert(skip_over(old, v) == v);
        } else {
            let n = (v - 1) as u8;
            assert(skip_over(old, n) == v);
        }
    }
}

} // verus!
