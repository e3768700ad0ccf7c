//! Compass directions and the discretisation of angles.
//!
//! Angles are counted in hundredths of a degree, anticlockwise from east on
//! screen (east is +x, north is -y).
use crate::fixed::round_div;
use vstd::prelude::*;

verus! {

/// One full turn, in hundredths of a degree.
pub const FULL_TURN: i64 = 36000;

/// Discrete orientations with respect to a point.
#[derive(Clone, Copy, Debug, PartialEq, Eq, Structural)]
pub enum ORIENTATION {
    North,
    NorthEast,
    East,
    SouthEast,
    South,
    SouthWest,
    West,
    NorthWest,
}

/// The orientation whose 45-degree segment holds `deg` taken modulo one turn;
/// each segment is closed at its lower bound and open at its upper bound.
pub open spec fn octant(deg: int) -> ORIENTATION {
    let d = deg % (FULL_TURN as int);
    if d < 2250 || d >= 33750 {
        ORIENTATION::East
    } else if d < 6750 {
        ORIENTATION::NorthEast
    } else if d < 11250 {
        ORIENTATION::North
    } else if d < 15750 {
        ORIENTATION::NorthWest
    } else if d < 20250 {
        ORIENTATION::West
    } else if d < 24750 {
        ORIENTATION::SouthWest
    } else if d < 29250 {
        ORIENTATION::South
    } else {
        ORIENTATION::SouthEast
    }
}

/// `deg` reduced into `[0, FULL_TURN)`.
fn normalize(deg: i64) -> (r: i64)
    ensures
        r == deg as int % (FULL_TURN as int),
        0 <= r < FULL_TURN,
{
    if deg >= 0 {
        (deg as u64 % 36000) as i64
    } else {
        let m: u128 = (0 - deg as i128) as u128 % 36000;
        if m == 0 {
            0
        } else {
            36000 - m as i64
        }
    }
}

impl ORIENTATION {
    /// Returns the orientation label of an angle (see `octant`).
    pub fn from_angle(deg: i64) -> (r: Option<ORIENTATION>)
        ensures
            r == Some(octant(deg as int)),
    {
        let d = normalize(deg);
        let o = if d < 2250 || d >= 33750 {
            ORIENTATION::East
        } else if d < 6750 {
            ORIENTATION::NorthEast
        } else if d < 11250 {
            ORIENTATION::North
        } else if d < 15750 {
            ORIENTATION::NorthWest
        } else if d < 20250 {
            ORIENTATION::West
        } else if d < 24750 {
            ORIENTATION::SouthWest
        } else if d < 29250 {
            ORIENTATION::South
        } else {
            ORIENTATION::SouthEast
        };
        Some(o)
    }
}

/// The segment angle that `map_angle` picks: the turn is cut into
/// `2 * segment_count` half-segments; an angle in half-segment `j` maps to
/// segment `(j + 1) / 2` of `segment_count`, and the last one wraps to 0.
pub open spec fn mapped_angle(deg: int, segment_count: int) -> int {
    if segment_count == 0 {
        0
    } else {
        let d = deg % (FULL_TURN as int);
        let j = d * 2 * segment_count / (FULL_TURN as int);
        let m = (j + 1) / 2;
        if m == segment_count {
            0
        } else {
            round_div(m * FULL_TURN, segment_count)
        }
    }
}

/// Divides the full turn into `segment_count` segments and maps the angle to
/// the angle of the nearest segment (hundredths of a degree).
pub fn map_angle(angle: i64, segment_count: usize) -> (r: i64)
    ensures
        r == mapped_angle(angle as int, segment_count as int),
        0 <= r <= FULL_TURN,
{
    if segment_count == 0 {
        return 0;
    }
    let d = normalize(angle);
    let n = segment_count as u128;
    assert(n <= 0x1_0000_0000_0000_0000) by {
        assert(segment_count <= usize::MAX);
    }
    proof {
        assert(d * 2 * n <= 36000 * 2 * 0x1_0000_0000_0000_0000) by (nonlinear_arith)
            requires
                0 <= d < 36000,
                1 <= n <= 0x1_0000_0000_0000_0000,
        ;
        assert(0 <= d * 2 * n) by (nonlinear_arith)
            requires
                0 <= d,
                n >= 1,
        ;
    }
    let j: u128 = (d as u128 * 2 * n) / 36000;
    proof {
        assert(j <= 2 * n) by (nonlinear_arith)
            requires
                j == (d * 2 * n) / 36000,
                0 <= d < 36000,
                n >= 1,
        ;
        assert(j < 2 * n) by (nonlinear_arith)
            requires
                j == (d * 2 * n) / 36000,
                0 <= d < 36000,
                n >= 1,
        ;
    }
    let m: u128 = (j + 1) / 2;
    if m == n {
        return 0;
    }
    let q: u128 = (2 * (m * 36000) + n) / (2 * n);
    proof {
        assert(m < n);
        assert(q <= 36000) by (nonlinear_arith)
            requires
                q == (2 * (m * 36000) + n) / (2 * n),
                m < n,
                n >= 1,
        ;
    }
    q as i64
}

} // verus!
