//! Chromaticity points and color gamuts.
//!
//! A luminaire can only render colors inside its gamut, a triangle in the
//! CIE xy chromaticity plane. This module holds the point and triangle
//! types and the mapper that moves any requested point onto the triangle.

use vstd::prelude::*;

verus! {

/// A point in the CIE xy chromaticity plane, held in 16-bit fixed point:
/// a stored coordinate `c` stands for the real value `c / 65535`, so both
/// coordinates lie in the unit interval. This is exactly the resolution
/// that the wire format carries, so encoding a point is lossless.
#[derive(Clone, Copy, Debug, PartialEq, Eq, Structural)]
pub struct XY {
    pub x: u16,
    pub y: u16,
}

/// A named triangle of chromaticity points (red, green and blue primaries)
/// describing the set of colors a luminaire class can physically render.
#[derive(Clone, Copy, Debug, PartialEq, Eq, Structural)]
pub struct ColorGamut {
    pub red: XY,
    pub green: XY,
    pub blue: XY,
}

/// Twice the signed area of the triangle `(a, b, p)`: positive when `p`
/// lies to the left of the directed edge `a -> b`, negative to the right,
/// zero on the line through `a` and `b`.
pub open spec fn spec_cross(a: XY, b: XY, p: XY) -> int {
    (b.x - a.x) * (p.y - a.y) - (b.y - a.y) * (p.x - a.x)
}

/// The orientation test: `p` lies inside or on the triangle exactly when
/// the three edge cross products do not take both signs.
pub open spec fn spec_inside(g: ColorGamut, p: XY) -> bool {
    let d1 = spec_cross(g.red, g.green, p);
    let d2 = spec_cross(g.green, g.blue, p);
    let d3 = spec_cross(g.blue, g.red, p);
    !((d1 < 0 || d2 < 0 || d3 < 0) && (d1 > 0 || d2 > 0 || d3 > 0))
}

proof fn lemma_mul_bound_17(a: int, b: int)
    by (nonlinear_arith)
    requires
        -65535 <= a <= 65535,
        -65535 <= b <= 65535,
    ensures
        -0x1_0000_0000 < a * b < 0x1_0000_0000,
{
}

fn cross(a: XY, b: XY, p: XY) -> (r: i64)
    ensures
        r as int == spec_cross(a, b, p),
{
    let ux: i64 = b.x as i64 - a.x as i64;
    let uy: i64 = b.y as i64 - a.y as i64;
    let vx: i64 = p.x as i64 - a.x as i64;
    let vy: i64 = p.y as i64 - a.y as i64;
    proof {
        lemma_mul_bound_17(ux as int, vy as int);
        lemma_mul_bound_17(uy as int, vx as int);
    }
    ux * vy - uy * vx
}

impl ColorGamut {
    /// Whether `p` lies inside or on this triangle, by the same-sign
    /// orientation test against the three directed edges.
    pub fn inside(&self, p: XY) -> (r: bool)
        ensures
            r == spec_inside(*self, p),
    {
        let d1 = cross(self.red, self.green, p);
        let d2 = cross(self.green, self.blue, p);
        let d3 = cross(self.blue, self.red, p);
        !((d1 < 0 || d2 < 0 || d3 < 0) && (d1 > 0 || d2 > 0 || d3 > 0))
    }
}

/// Squared Euclidean distance between two points, in fixed-point units.
pub open spec fn spec_dist2(p: XY, q: XY) -> int {
    (p.x - q.x) * (p.x - q.x) + (p.y - q.y) * (p.y - q.y)
}

fn dist2(p: XY, q: XY) -> (r: i64)
    ensures
        r as int == spec_dist2(p, q),
        r >= 0,
{
    let dx: i64 = p.x as i64 - q.x as i64;
    let dy: i64 = p.y as i64 - q.y as i64;
    proof {
        lemma_mul_bound_17(dx as int, dx as int);
        lemma_mul_bound_17(dy as int, dy as int);
        assert(dx * dx >= 0) by (nonlinear_arith);
        assert(dy * dy >= 0) by (nonlinear_arith);
    }
    dx * dx + dy * dy
}

/// `n / d` rounded to the nearest integer, halves away from zero.
/// Meaningful for `d > 0`.
pub open spec fn spec_round_div(n: int, d: int) -> int {
    if n >= 0 {
        (2 * n + d) / (2 * d)
    } else {
        -((2 * (-n) + d) / (2 * d))
    }
}

proof fn lemma_div_exact_range(n: int, q: int, d: int)
    by (nonlinear_arith)
    requires
        0 < d,
        q * d <= n,
        n < (q + 1) * d,
    ensures
        n / d == q,
{
}

/// For `0 <= t <= d`, the rounded quotient `t * e / d` lies between
/// `0` and `e`, whichever order those take.
proof fn lemma_round_div_scale_bounds(t: int, e: int, d: int)
    requires
        0 < d,
        0 <= t <= d,
    ensures
        e >= 0 ==> 0 <= spec_round_div(t * e, d) <= e,
        e < 0 ==> e <= spec_round_div(t * e, d) <= 0,
{
    if e >= 0 {
        assert(0 <= t * e && t * e <= d * e) by (nonlinear_arith)
            requires
                0 <= t <= d,
                0 <= e,
        ;
        vstd::arithmetic::div_mod::lemma_div_pos_is_pos(2 * (t * e) + d, 2 * d);
        vstd::arithmetic::div_mod::lemma_div_is_ordered(2 * (t * e) + d, 2 * (d * e) + d, 2 * d);
        assert(e * (2 * d) <= 2 * (d * e) + d < (e + 1) * (2 * d)) by (nonlinear_arith)
            requires
                0 < d,
                0 <= e,
        ;
        lemma_div_exact_range(2 * (d * e) + d, e, 2 * d);
    } else {
        assert(t * (-e) == -(t * e) && 0 <= t * (-e) && t * (-e) <= d * (-e))
            by (nonlinear_arith)
            requires
                0 <= t <= d,
                e < 0,
        ;
        if t * e == 0 {
            lemma_div_exact_range(d, 0, 2 * d);
        }
        assert(spec_round_div(t * e, d) == -((2 * (t * (-e)) + d) / (2 * d)));
        vstd::arithmetic::div_mod::lemma_div_pos_is_pos(2 * (t * (-e)) + d, 2 * d);
        vstd::arithmetic::div_mod::lemma_div_is_ordered(
            2 * (t * (-e)) + d,
            2 * (d * (-e)) + d,
            2 * d,
        );
        assert((-e) * (2 * d) <= 2 * (d * (-e)) + d < ((-e) + 1) * (2 * d)) by (nonlinear_arith)
            requires
                0 < d,
                e < 0,
        ;
        lemma_div_exact_range(2 * (d * (-e)) + d, -e, 2 * d);
    }
}

fn round_div(n: i64, d: i64) -> (r: i64)
    requires
        0 < d,
        -0x1000_0000_0000_0000 < n < 0x1000_0000_0000_0000,
        d < 0x1000_0000_0000_0000,
    ensures
        r as int == spec_round_div(n as int, d as int),
{
    if n >= 0 {
        proof {
            vstd::arithmetic::div_mod::lemma_div_pos_is_pos(2 * (n as int) + d, 2 * (d as int));
            vstd::arithmetic::div_mod::lemma_div_is_ordered(
                2 * (n as int) + d,
                2 * (n as int) + 2 * (d as int),
                2 * (d as int),
            );
            vstd::arithmetic::div_mod::lemma_div_multiples_vanish(n as int + d as int, 2);
            assert((2 * (n as int) + 2 * (d as int)) == 2 * (n as int + d as int));
        }
        (2 * n + d) / (2 * d)
    } else {
        proof {
            vstd::arithmetic::div_mod::lemma_div_pos_is_pos(2 * (-n as int) + d, 2 * (d as int));
            vstd::arithmetic::div_mod::lemma_div_is_ordered(
                2 * (-n as int) + d,
                2 * (-n as int) + 2 * (d as int),
                2 * (d as int),
            );
            vstd::arithmetic::div_mod::lemma_div_multiples_vanish((-n as int) + d as int, 2);
            assert((2 * (-n as int) + 2 * (d as int)) == 2 * ((-n as int) + d as int));
        }
        -((2 * (-n) + d) / (2 * d))
    }
}

/// The point of the closed segment `a -> b` nearest to `p`, computed by
/// scalar projection onto the edge direction with the parameter clamped
/// to the segment, then rounded to the fixed-point grid. A degenerate
/// edge (both endpoints equal) yields `a`.
pub open spec fn spec_edge_point(a: XY, b: XY, p: XY) -> XY {
    let ex = b.x - a.x;
    let ey = b.y - a.y;
    let len2 = ex * ex + ey * ey;
    if len2 == 0 {
        a
    } else {
        let dot = (p.x - a.x) * ex + (p.y - a.y) * ey;
        let t = if dot < 0 { 0 } else if dot > len2 { len2 } else { dot };
        XY {
            x: (a.x + spec_round_div(t * ex, len2)) as u16,
            y: (a.y + spec_round_div(t * ey, len2)) as u16,
        }
    }
}

fn edge_point(a: XY, b: XY, p: XY) -> (r: XY)
    ensures
        r == spec_edge_point(a, b, p),
{
    let ex: i64 = b.x as i64 - a.x as i64;
    let ey: i64 = b.y as i64 - a.y as i64;
    proof {
        lemma_mul_bound_17(ex as int, ex as int);
        lemma_mul_bound_17(ey as int, ey as int);
        assert(ex * ex >= 0) by (nonlinear_arith);
        assert(ey * ey >= 0) by (nonlinear_arith);
    }
    let len2: i64 = ex * ex + ey * ey;
    if len2 == 0 {
        a
    } else {
        let dx: i64 = p.x as i64 - a.x as i64;
        let dy: i64 = p.y as i64 - a.y as i64;
        proof {
            lemma_mul_bound_17(dx as int, ex as int);
            lemma_mul_bound_17(dy as int, ey as int);
        }
        let dot: i64 = dx * ex + dy * ey;
        let t: i64 = if dot < 0 {
            0
        } else if dot > len2 {
            len2
        } else {
            dot
        };
        proof {
            assert(-0x2_0000_0000 * 0x10000 <= t * ex <= 0x2_0000_0000 * 0x10000)
                by (nonlinear_arith)
                requires
                    0 <= t <= 0x2_0000_0000,
                    -0x10000 <= ex <= 0x10000,
            ;
            assert(-0x2_0000_0000 * 0x10000 <= t * ey <= 0x2_0000_0000 * 0x10000)
                by (nonlinear_arith)
                requires
                    0 <= t <= 0x2_0000_0000,
                    -0x10000 <= ey <= 0x10000,
            ;
            lemma_round_div_scale_bounds(t as int, ex as int, len2 as int);
            lemma_round_div_scale_bounds(t as int, ey as int, len2 as int);
        }
        let rx: i64 = a.x as i64 + round_div(t * ex, len2);
        let ry: i64 = a.y as i64 + round_div(t * ey, len2);
        XY { x: rx as u16, y: ry as u16 }
    }
}

/// The candidate points the mapper chooses between for a point that lies
/// outside the triangle: the nearest grid point of each edge, and the
/// three vertices themselves.
pub open spec fn spec_candidates(g: ColorGamut, p: XY) -> Seq<XY> {
    seq![
        spec_edge_point(g.red, g.green, p),
        spec_edge_point(g.green, g.blue, p),
        spec_edge_point(g.blue, g.red, p),
        g.red,
        g.green,
        g.blue,
    ]
}

/// Fold over the candidates from index `i` on: a candidate replaces the
/// current choice only when it passes the orientation test and is
/// strictly nearer to `p`, so the earliest of equally near points wins.
/// The test matters because rounding an edge's nearest point to the
/// fixed-point grid can push it a hair outside the triangle; such a
/// candidate is skipped, and the vertices keep the choice nonempty.
pub open spec fn spec_best_from(g: ColorGamut, p: XY, cands: Seq<XY>, i: int, cur: XY) -> XY
    decreases cands.len() - i,
{
    if i < 0 || i >= cands.len() {
        cur
    } else {
        let c = cands[i];
        let next = if spec_inside(g, c) && spec_dist2(c, p) < spec_dist2(cur, p) {
            c
        } else {
            cur
        };
        spec_best_from(g, p, cands, i + 1, next)
    }
}

/// What the gamut mapper returns: the point itself when it already lies
/// inside or on the triangle, else the nearest admissible candidate,
/// starting from the red primary.
pub open spec fn spec_clamp(g: ColorGamut, p: XY) -> XY {
    if spec_inside(g, p) {
        p
    } else {
        spec_best_from(g, p, spec_candidates(g, p), 0, g.red)
    }
}

/// Each vertex of a triangle passes the triangle's own orientation test.
pub proof fn lemma_vertex_inside(g: ColorGamut)
    ensures
        spec_inside(g, g.red),
        spec_inside(g, g.green),
        spec_inside(g, g.blue),
{
    let rx = g.red.x as int;
    let ry = g.red.y as int;
    let gx = g.green.x as int;
    let gy = g.green.y as int;
    let bx = g.blue.x as int;
    let by = g.blue.y as int;
    assert((gx - rx) * (ry - ry) - (gy - ry) * (rx - rx) == 0) by (nonlinear_arith);
    assert((rx - bx) * (ry - by) - (ry - by) * (rx - bx) == 0) by (nonlinear_arith);
    assert((bx - gx) * (gy - gy) - (by - gy) * (gx - gx) == 0) by (nonlinear_arith);
    assert((gx - rx) * (gy - ry) - (gy - ry) * (gx - rx) == 0) by (nonlinear_arith);
    assert((bx - gx) * (by - gy) - (by - gy) * (bx - gx) == 0) by (nonlinear_arith);
    assert((rx - bx) * (by - by) - (ry - by) * (bx - bx) == 0) by (nonlinear_arith);
}

/// The fold never abandons an admissible current choice for an
/// inadmissible candidate, so its result stays inside the triangle.
proof fn lemma_best_from_inside(g: ColorGamut, p: XY, cands: Seq<XY>, i: int, cur: XY)
    requires
        spec_inside(g, cur),
    ensures
        spec_inside(g, spec_best_from(g, p, cands, i, cur)),
    decreases cands.len() - i,
{
    if !(i < 0 || i >= cands.len()) {
        let c = cands[i];
        let next = if spec_inside(g, c) && spec_dist2(c, p) < spec_dist2(cur, p) {
            c
        } else {
            cur
        };
        lemma_best_from_inside(g, p, cands, i + 1, next);
    }
}

/// Gamut containment: for any gamut triangle and any input point, the
/// clamped output lies within or exactly on the triangle, as judged by
/// the same orientation test the mapper uses internally.
pub proof fn lemma_clamp_in_gamut(g: ColorGamut, p: XY)
    ensures
        spec_inside(g, spec_clamp(g, p)),
{
    if !spec_inside(g, p) {
        lemma_vertex_inside(g);
        lemma_best_from_inside(g, p, spec_candidates(g, p), 0, g.red);
    }
}

impl ColorGamut {
    /// Maps `p` to a point this triangle can render: `p` itself when it
    /// already lies inside or on the triangle, else the nearest of the
    /// per-edge closest points and the vertices. Always succeeds, and the
    /// result always passes the orientation test.
    pub fn clamp(&self, p: XY) -> (r: XY)
        ensures
            r == spec_clamp(*self, p),
            spec_inside(*self, r),
            spec_inside(*self, p) ==> r == p,
    {
        if self.inside(p) {
            return p;
        }
        let cands: [XY; 6] = [
            edge_point(self.red, self.green, p),
            edge_point(self.green, self.blue, p),
            edge_point(self.blue, self.red, p),
            self.red,
            self.green,
            self.blue,
        ];
        proof {
            lemma_vertex_inside(*self);
        }
        let mut cur: XY = self.red;
        let mut idx: usize = 0;
        while idx < 6
            invariant
                0 <= idx <= 6,
                cands@ =~= spec_candidates(*self, p),
                spec_inside(*self, cur),
                spec_best_from(*self, p, spec_candidates(*self, p), 0, self.red)
                    == spec_best_from(*self, p, spec_candidates(*self, p), idx as int, cur),
            decreases 6 - idx,
        {
            let c = cands[idx];
            if self.inside(c) && dist2(c, p) < dist2(cur, p) {
                cur = c;
            }
            idx = idx + 1;
        }
        cur
    }
}

/// The "Gamut C" preset: red (0.6915, 0.3083), green (0.17, 0.7),
/// blue (0.1532, 0.0475), each coordinate rounded to the nearest
/// sixty-five-thousand-five-hundred-thirty-fifth.
pub open spec fn spec_gamut_c() -> ColorGamut {
    ColorGamut {
        red: XY { x: 45317, y: 20204 },
        green: XY { x: 11141, y: 45875 },
        blue: XY { x: 10040, y: 3113 },
    }
}

impl ColorGamut {
    /// The published "Gamut C" preset triangle.
    pub fn gamut_c() -> (g: ColorGamut)
        ensures
            g == spec_gamut_c(),
    {
        ColorGamut {
            red: XY { x: 45317, y: 20204 },
            green: XY { x: 11141, y: 45875 },
            blue: XY { x: 10040, y: 3113 },
        }
    }
}

} // verus!
