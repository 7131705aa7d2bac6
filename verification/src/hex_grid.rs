use vstd::prelude::*;

verus! {

/// Screen-pixel length of one hex cell's "radius"; every conversion between
/// cells and screen space shares this scale.
pub const HEX_SIZE: i32 = 60;

/// Fixed-point steps per axial unit of the world plane.
pub const POS_UNIT: i32 = 1000;

/// A point of the continuous world plane, in fixed-point coordinates.
///
/// One horizontal unit of the plane spans `HEX_SIZE` screen pixels and one
/// vertical unit spans `HEX_SIZE * sqrt(3)` screen pixels; a `WorldPos`
/// stores `POS_UNIT` steps per unit. In these axes every hex cell centre
/// falls on an exact lattice point, so the cell <-> position conversions
/// are free of irrational factors; only the rendering layer multiplies by
/// the `sqrt(3)` pixel scale when it draws.
#[derive(PartialEq, Eq, Structural, Copy, Clone, Default, Debug)]
pub struct WorldPos {
    pub x: i32,
    pub y: i32,
}

/// An axial hex-grid coordinate. A plain value, copied freely; equality is
/// structural.
#[derive(PartialEq, Eq, Structural, Copy, Clone, Default, Debug)]
pub struct HexCoord {
    pub q: i16,
    pub r: i16,
}

/// Quotient of `a / b` rounded to the nearest integer, ties away from zero.
pub open spec fn round_div(a: int, b: int) -> int
    recommends
        b > 0,
{
    if a >= 0 {
        (a + b / 2) / b
    } else {
        -((-a + b / 2) / b)
    }
}

/// Rounding an exact multiple of the divisor recovers the factor.
pub proof fn lemma_round_div_exact(k: int, b: int)
    requires
        b > 0,
    ensures
        round_div(k * b, b) == k,
{
    if k >= 0 {
        assert((b * k + b / 2) / b == k) by {
            vstd::arithmetic::div_mod::lemma_div_multiples_vanish_fancy(k, b / 2, b);
        }
        assert(k * b == b * k) by (nonlinear_arith);
    } else {
        assert((b * (-k) + b / 2) / b == -k) by {
            vstd::arithmetic::div_mod::lemma_div_multiples_vanish_fancy(-k, b / 2, b);
        }
        assert(k * b < 0 && -(k * b) == b * (-k)) by (nonlinear_arith)
            requires
                k < 0 && b > 0,
        ;
    }
}

fn round_div_i64(a: i64, b: i64) -> (result: i64)
    requires
        0 < b <= 100_000,
        -100_000_000_000 <= a <= 100_000_000_000,
    ensures
        result == round_div(a as int, b as int),
{
    if a >= 0 {
        (a + b / 2) / b
    } else {
        -((-a + b / 2) / b)
    }
}

impl HexCoord {
    /// A cell lies inside the world of the given radius iff both axial
    /// coordinates and their sum stay within the radius.
    pub open spec fn in_world(q: int, r: int, radius: int) -> bool {
        &&& -radius <= q <= radius
        &&& -radius <= r <= radius
        &&& -radius <= q + r <= radius
    }

    /// The cell `(q, r)` when it lies inside the world, and nothing
    /// otherwise.
    pub open spec fn new_spec(q: int, r: int, radius: int) -> Option<HexCoord> {
        if Self::in_world(q, r, radius) {
            Some((HexCoord { q: q as i16, r: r as i16 }))
        } else {
            None
        }
    }

    /// Builds the cell `(q, r)` validated against the world radius; a cell
    /// beyond the boundary yields `None` rather than an error.
    pub fn new(q: i16, r: i16, radius: i16) -> (result: Option<HexCoord>)
        ensures
            result == Self::new_spec(q as int, r as int, radius as int),
    {
        let qi: i32 = q as i32;
        let ri: i32 = r as i32;
        let rad: i32 = radius as i32;
        if -rad <= qi && qi <= rad && -rad <= ri && ri <= rad && -rad <= qi + ri && qi + ri <= rad
        {
            Some(HexCoord { q, r })
        } else {
            None
        }
    }

    /// Two cells are adjacent iff their axial delta is one of the six unit
    /// neighbour offsets; a cell is never adjacent to itself.
    pub open spec fn adjacent(a: HexCoord, b: HexCoord) -> bool {
        let dq = a.q - b.q;
        let dr = a.r - b.r;
        ||| (dq == 1 && dr == 0)
        ||| (dq == -1 && dr == 0)
        ||| (dq == 0 && dr == 1)
        ||| (dq == 0 && dr == -1)
        ||| (dq == 1 && dr == -1)
        ||| (dq == -1 && dr == 1)
    }

    pub fn is_adjacent(&self, other: &Self) -> (result: bool)
        ensures
            result == Self::adjacent(*self, *other),
    {
        let q_diff: i32 = self.q as i32 - other.q as i32;
        let r_diff: i32 = self.r as i32 - other.r as i32;
        match (q_diff, r_diff) {
            (1, 0) | (-1, 0) | (0, 1) | (0, -1) | (1, -1) | (-1, 1) => true,
            _ => false,
        }
    }

    /// Centre of this cell on the fixed-point world plane: the forward
    /// linear transform `q -> (3/2) q` and `(q, r) -> q/2 + r`, in
    /// `POS_UNIT` steps. Exact; no rounding.
    pub open spec fn to_pixel_spec(self) -> WorldPos {
        WorldPos { x: (1500 * self.q) as i32, y: (500 * self.q + 1000 * self.r) as i32 }
    }

    pub fn to_pixel(&self) -> (result: WorldPos)
        ensures
            result == self.to_pixel_spec(),
    {
        let x: i32 = 1500 * (self.q as i32);
        let y: i32 = 500 * (self.q as i32) + 1000 * (self.r as i32);
        WorldPos { x, y }
    }

    /// The cell a world-plane point falls in: the inverse linear transform
    /// of the cell-centre map with each axial component rounded to the
    /// nearest integer (ties away from zero), validated against the radius.
    pub open spec fn from_pixel_spec(pos: WorldPos, radius: int) -> Option<HexCoord> {
        let q = round_div(pos.x as int, 1500);
        let r = round_div(3 * pos.y - pos.x, 3000);
        Self::new_spec(q, r, radius)
    }

    /// Resolves a world-plane position to the cell it falls in, or `None`
    /// when that cell lies outside the world boundary.
    pub fn from_pixel(pos: WorldPos, radius: i16) -> (result: Option<HexCoord>)
        ensures
            result == Self::from_pixel_spec(pos, radius as int),
    {
        let q64: i64 = round_div_i64(pos.x as i64, 1500);
        let r64: i64 = round_div_i64(3 * (pos.y as i64) - pos.x as i64, 3000);
        let rad: i64 = radius as i64;
        if -rad <= q64 && q64 <= rad && -rad <= r64 && r64 <= rad && -rad <= q64 + r64 && q64
            + r64 <= rad {
            Some(HexCoord { q: q64 as i16, r: r64 as i16 })
        } else {
            None
        }
    }
}

/// Adjacency is symmetric, and no cell is adjacent to itself.
pub proof fn lemma_adjacency_symmetric(a: HexCoord, b: HexCoord)
    ensures
        HexCoord::adjacent(a, b) == HexCoord::adjacent(b, a),
        !HexCoord::adjacent(a, a),
{
}

/// Round trip: resolving the centre of any cell inside the world recovers
/// exactly that cell.
pub proof fn lemma_pixel_round_trip(h: HexCoord, radius: int)
    requires
        HexCoord::in_world(h.q as int, h.r as int, radius),
    ensures
        HexCoord::from_pixel_spec(h.to_pixel_spec(), radius) == Some(h),
{
    let x: int = 1500 * (h.q as int);
    let y: int = 500 * (h.q as int) + 1000 * (h.r as int);
    lemma_round_div_exact(h.q as int, 1500);
    lemma_round_div_exact(h.r as int, 3000);
    assert(x == (h.q as int) * 1500);
    assert(3 * y - x == (h.r as int) * 3000);
}

} // verus!
