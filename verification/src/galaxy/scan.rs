use vstd::prelude::*;

use crate::galaxy::{PlanetInfo, SpaceCoord, SpaceUnit, StationInfo};

verus! {

/// The squared distance between two positions.
pub open spec fn dist2(a: SpaceCoord, b: SpaceCoord) -> int {
    (a.0 - b.0) * (a.0 - b.0) + (a.1 - b.1) * (a.1 - b.1) + (a.2 - b.2) * (a.2 - b.2)
}

/// A square is never negative, and is zero only for zero.
proof fn lemma_square(x: int)
    ensures
        x * x >= 0,
        x * x == 0 <==> x == 0,
{
    assert(x * x >= 0) by (nonlinear_arith);
    assert(x != 0 ==> x * x > 0) by (nonlinear_arith);
}

/// The square of a smaller gap is smaller.
proof fn lemma_square_grows(x: int, y: int)
    requires
        0 <= x < y,
    ensures
        x * x < y * y,
{
    assert(x * x < y * y) by (nonlinear_arith)
        requires
            0 <= x < y,
    ;
}

/// The absolute value of `x`.
pub open spec fn abs(x: int) -> int {
    if x < 0 {
        -x
    } else {
        x
    }
}

/// Two positions are at squared distance zero exactly when they are the same
/// position, in all three coordinates; the distance is the same both ways.
pub proof fn law_dist2_separates(a: SpaceCoord, b: SpaceCoord)
    ensures
        dist2(a, b) >= 0,
        dist2(a, b) == 0 <==> a == b,
        dist2(a, b) == dist2(b, a),
{
    lemma_square(a.0 - b.0);
    lemma_square(a.1 - b.1);
    lemma_square(a.2 - b.2);
    assert((a.0 - b.0) * (a.0 - b.0) == (b.0 - a.0) * (b.0 - a.0)) by (nonlinear_arith);
    assert((a.1 - b.1) * (a.1 - b.1) == (b.1 - a.1) * (b.1 - a.1)) by (nonlinear_arith);
    assert((a.2 - b.2) * (a.2 - b.2) == (b.2 - a.2) * (b.2 - a.2)) by (nonlinear_arith);
}

/// Along each of the three axes, a position farther from `a` is at a
/// greater distance from it: when `b` and `c` differ from each other in one
/// coordinate only, the one with the larger gap to `a` there is farther.
pub proof fn law_dist2_grows_along_each_axis(a: SpaceCoord, b: SpaceCoord, c: SpaceCoord)
    ensures
        b.1 == c.1 && b.2 == c.2 && abs(a.0 - b.0) < abs(a.0 - c.0) ==> dist2(a, b) < dist2(a, c),
        b.0 == c.0 && b.2 == c.2 && abs(a.1 - b.1) < abs(a.1 - c.1) ==> dist2(a, b) < dist2(a, c),
        b.0 == c.0 && b.1 == c.1 && abs(a.2 - b.2) < abs(a.2 - c.2) ==> dist2(a, b) < dist2(a, c),
{
    assert forall|x: int, y: int| abs(x) < abs(y) implies #[trigger] (x * x) < #[trigger] (y * y) by {
        lemma_square_grows(abs(x), abs(y));
        assert(abs(x) * abs(x) == x * x) by (nonlinear_arith);
        assert(abs(y) * abs(y) == y * y) by (nonlinear_arith);
    }
}

/// What a scan found around a position.
#[derive(Debug)]
pub struct ScanResult {
    pub planets: Vec<PlanetInfo>,
    pub stations: Vec<StationInfo>,
}

/// The gap between two coordinates.
fn gap(a: SpaceUnit, b: SpaceUnit) -> (d: u128)
    ensures
        d * d == (a - b) * (a - b),
        d < 0x1_0000_0000,
{
    let d = if a > b { (a - b) as u128 } else { (b - a) as u128 };
    assert(d * d == (a - b) * (a - b)) by (nonlinear_arith)
        requires
            d == a - b || d == b - a,
    ;
    d
}

/// The squared distance between two positions.
fn distance2(a: &SpaceCoord, b: &SpaceCoord) -> (d: u128)
    ensures
        d == dist2(*a, *b),
{
    let dx = gap(a.0, b.0);
    let dy = gap(a.1, b.1);
    let dz = gap(a.2, b.2);
    assert(dx * dx < 0x1_0000_0000_0000_0000) by (nonlinear_arith)
        requires
            dx < 0x1_0000_0000,
    ;
    assert(dy * dy < 0x1_0000_0000_0000_0000) by (nonlinear_arith)
        requires
            dy < 0x1_0000_0000,
    ;
    assert(dz * dz < 0x1_0000_0000_0000_0000) by (nonlinear_arith)
        requires
            dz < 0x1_0000_0000,
    ;
    dx * dx + dy * dy + dz * dz
}

impl ScanResult {
    /// A scan that found nothing.
    pub fn empty() -> (r: ScanResult)
        ensures
            r.planets@ == Seq::<PlanetInfo>::empty(),
            r.stations@ == Seq::<StationInfo>::empty(),
    {
        ScanResult { planets: Vec::new(), stations: Vec::new() }
    }

    /// The planet found nearest to `pos`; among planets at the same distance,
    /// the one found first. `None` when no planet was found.
    pub fn get_closest_planet(&self, pos: &SpaceCoord) -> (p: Option<PlanetInfo>)
        ensures
            self.planets@.len() == 0 ==> p is None,
            self.planets@.len() > 0 ==> exists|i: int|
                {
                    &&& 0 <= i < self.planets@.len()
                    &&& p == Some(self.planets@[i])
                    &&& forall|j: int|
                        0 <= j < self.planets@.len() ==> dist2(*pos, self.planets@[i].position)
                            <= dist2(*pos, #[trigger] self.planets@[j].position)
                    &&& forall|j: int|
                        0 <= j < i ==> dist2(*pos, self.planets@[i].position) < dist2(
                            *pos,
                            #[trigger] self.planets@[j].position,
                        )
                },
    {
        if self.planets.len() == 0 {
            return None;
        }
        let ghost ps = self.planets@;
        let mut best: usize = 0;
        let mut best_d = distance2(pos, &self.planets[0].position);
        let mut i: usize = 1;
        while i < self.planets.len()
            invariant
                ps == self.planets@,
                1 <= i <= ps.len(),
                best < i,
                best_d == dist2(*pos, ps[best as int].position),
                forall|j: int| 0 <= j < i ==> best_d <= dist2(*pos, #[trigger] ps[j].position),
                forall|j: int| 0 <= j < best ==> best_d < dist2(*pos, #[trigger] ps[j].position),
            decreases ps.len() - i,
        {
            let d = distance2(pos, &self.planets[i].position);
            if d < best_d {
                best = i;
                best_d = d;
            }
            i = i + 1;
        }
        Some(self.planets[best])
    }
}

} // verus!
