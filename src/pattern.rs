use vstd::prelude::*;

verus! {

/// An arc of directions, from `start / denom` to `end / denom` of a full turn.
#[derive(Clone, Copy, Debug, PartialEq, Eq, Structural)]
pub struct TurnRange {
    pub start: i32,
    pub end: i32,
    pub denom: u32,
}

/// A direction as the fraction `num / den` of a full turn.
#[derive(Clone, Copy, Debug, PartialEq, Eq, Structural)]
pub struct Turn {
    pub num: i128,
    pub den: i128,
}

/// Numerator of the direction of bullet `i` of `count` spread over `range`:
/// the angle is `(i / count + start) * (end - start)` turns, with `start`
/// and `end` read as fractions of `denom`.
pub open spec fn spec_circle_num(i: int, count: int, range: TurnRange) -> int {
    (i * range.denom + range.start * count) * (range.end - range.start)
}

/// The common denominator of every direction of a circle pattern.
pub open spec fn spec_circle_den(count: int, range: TurnRange) -> int {
    count * range.denom * range.denom
}

/// The directions of the `count` bullets of a circle pattern over `range`,
/// in spawn order.
pub fn circle_turns(count: u32, range: TurnRange) -> (r: Vec<Turn>)
    requires
        range.denom > 0,
    ensures
        r@.len() == count,
        forall|i: int|
            0 <= i < count ==> (#[trigger] r@[i]).num == spec_circle_num(i, count as int, range)
                && r@[i].den == spec_circle_den(count as int, range),
{
    let n = count as i128;
    let d = range.denom as i128;
    let s = range.start as i128;
    let e = range.end as i128;
    assert(0 <= n * d <= 0xffff_ffff_0000_0000int * 2) by (nonlinear_arith)
        requires
            0 <= n <= 0xffff_ffff,
            0 <= d <= 0xffff_ffff,
    ;
    assert(0 <= n * d * d <= 0x1_0000_0000_0000_0000_0000_0000int) by (nonlinear_arith)
        requires
            0 <= n <= 0xffff_ffff,
            0 <= d <= 0xffff_ffff,
    ;
    let den = n * d * d;
    let mut r: Vec<Turn> = Vec::new();
    let mut i: u32 = 0;
    while i < count
        invariant
            i <= count,
            n == count,
            d == range.denom,
            s == range.start,
            e == range.end,
            den == spec_circle_den(count as int, range),
            r@.len() == i,
            forall|j: int|
                0 <= j < i ==> r@[j].num == spec_circle_num(j, count as int, range)
                    && r@[j].den == den,
        decreases count - i,
    {
        let k = i as i128;
        assert(0 <= k * d <= 0x1_0000_0000_0000_0000int) by (nonlinear_arith)
            requires
                0 <= k <= 0xffff_ffff,
                0 <= d <= 0xffff_ffff,
        ;
        assert(-0x1_0000_0000_0000_0000int <= s * n <= 0x1_0000_0000_0000_0000int)
            by (nonlinear_arith)
            requires
                0 <= n <= 0xffff_ffff,
                -0x8000_0000 <= s <= 0x7fff_ffff,
        ;
        let a = k * d + s * n;
        let b = e - s;
        assert(-0x1_0000_0000_0000_0000_0000_0000_0000int <= a * b
            <= 0x1_0000_0000_0000_0000_0000_0000_0000int) by (nonlinear_arith)
            requires
                -0x2_0000_0000_0000_0000int <= a <= 0x2_0000_0000_0000_0000int,
                -0x1_0000_0000int <= b <= 0x1_0000_0000int,
        ;
        let num = a * b;
        r.push(Turn { num, den });
        i = i + 1;
    }
    r
}

/// Neighbouring bullets of a circle pattern are spread evenly: each direction
/// is the one before it plus `(end - start) / (count * denom)` of a turn, and
/// the first points `start * (end - start) / denom²` of a turn round.
pub proof fn lemma_circle_evenly_spaced(count: int, range: TurnRange, i: int)
    requires
        0 <= i,
        i + 1 < count,
    ensures
        spec_circle_num(i + 1, count, range) - spec_circle_num(i, count, range)
            == range.denom * (range.end - range.start),
        spec_circle_den(count, range) == count * range.denom * range.denom,
        spec_circle_num(0, count, range) == range.start * count * (range.end - range.start),
{
    assert(spec_circle_num(i + 1, count, range) - spec_circle_num(i, count, range)
        == range.denom * (range.end - range.start)) by (nonlinear_arith);
    assert(spec_circle_num(0, count, range) == range.start * count * (range.end - range.start))
        by (nonlinear_arith);
}

/// The two volleys a group can fire.
#[derive(Clone, Copy, Debug, PartialEq, Eq, Structural)]
pub enum Volley {
    /// The player's narrow forward cone.
    PlayerCone,
    /// An enemy's slow ring all the way round.
    EnemyRing,
}

impl Volley {
    pub open spec fn spec_count(self) -> u32 {
        match self {
            Volley::PlayerCone => 5,
            Volley::EnemyRing => 7,
        }
    }

    pub open spec fn spec_range(self) -> TurnRange {
        match self {
            Volley::PlayerCone => TurnRange { start: -2i32, end: 0i32, denom: 5u32 },
            Volley::EnemyRing => TurnRange { start: 0i32, end: 1i32, denom: 1u32 },
        }
    }

    /// How many bullets the volley holds.
    pub fn count(&self) -> (r: u32)
        ensures
            r == self.spec_count(),
    {
        match self {
            Volley::PlayerCone => 5,
            Volley::EnemyRing => 7,
        }
    }

    /// The arc the volley covers.
    pub fn range(&self) -> (r: TurnRange)
        ensures
            r == self.spec_range(),
            r.denom > 0,
    {
        match self {
            Volley::PlayerCone => TurnRange { start: -2, end: 0, denom: 5 },
            Volley::EnemyRing => TurnRange { start: 0, end: 1, denom: 1 },
        }
    }

    /// The directions of the volley's bullets.
    pub fn turns(&self) -> (r: Vec<Turn>)
        ensures
            r@.len() == self.spec_count(),
            forall|i: int|
                0 <= i < self.spec_count() ==> (#[trigger] r@[i]).num == spec_circle_num(
                    i,
                    self.spec_count() as int,
                    self.spec_range(),
                ) && r@[i].den == spec_circle_den(self.spec_count() as int, self.spec_range()),
    {
        circle_turns(self.count(), self.range())
    }
}

} // verus!
