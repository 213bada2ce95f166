//! Overlap of a circle and an axis-aligned rectangle, and which axis of the
//! rectangle was struck.
use vstd::prelude::*;

verus! {

/// Which velocity component a collision reflects: `X` for a hit on the top
/// or bottom face, `Y` for a hit on a side, `XY` for a corner.
#[derive(Clone, Copy, Debug, PartialEq, Eq, Structural)]
pub enum HitBy {
    X,
    Y,
    XY,
}

#[derive(Clone, Copy, Debug, PartialEq, Eq, Structural)]
pub struct Circle {
    pub x: i64,
    pub y: i64,
    pub r: i64,
}

/// An axis-aligned rectangle given by its top-left corner and its size.
#[derive(Clone, Copy, Debug, PartialEq, Eq, Structural)]
pub struct Rect {
    pub x: i64,
    pub y: i64,
    pub w: i64,
    pub h: i64,
}

impl Rect {
    pub open spec fn left(self) -> int {
        self.x as int
    }

    pub open spec fn right(self) -> int {
        self.x + self.w
    }

    pub open spec fn top(self) -> int {
        self.y as int
    }

    pub open spec fn bottom(self) -> int {
        self.y + self.h
    }
}

pub open spec fn clamp(v: int, lo: int, hi: int) -> int {
    if v < lo {
        lo
    } else if v > hi {
        hi
    } else {
        v
    }
}

/// The circle and the rectangle overlap when the point of the rectangle
/// nearest to the centre lies strictly closer than the radius.
pub open spec fn overlap_spec(c: Circle, rect: Rect) -> bool {
    let dx = c.x - clamp(c.x as int, rect.left(), rect.right());
    let dy = c.y - clamp(c.y as int, rect.top(), rect.bottom());
    dx * dx + dy * dy < c.r * c.r
}

/// Centre strictly inside the horizontal span: top or bottom face; else
/// strictly inside the vertical span: a side; else a corner.
pub open spec fn classify_spec(c: Circle, rect: Rect) -> HitBy {
    if rect.left() < c.x < rect.right() {
        HitBy::X
    } else if rect.top() < c.y < rect.bottom() {
        HitBy::Y
    } else {
        HitBy::XY
    }
}

pub open spec fn hit_spec(c: Circle, rect: Rect) -> Option<HitBy> {
    if overlap_spec(c, rect) {
        Some(classify_spec(c, rect))
    } else {
        None
    }
}

fn clamp_i128(v: i128, lo: i128, hi: i128) -> (r: i128)
    ensures
        r == clamp(v as int, lo as int, hi as int),
{
    if v < lo {
        lo
    } else if v > hi {
        hi
    } else {
        v
    }
}

fn abs_i128(v: i128) -> (r: i128)
    requires
        v > i128::MIN,
    ensures
        r >= 0,
        r == v || r == -v,
{
    if v < 0 {
        -v
    } else {
        v
    }
}

/// Whether the circle and the rectangle overlap; touching is no overlap.
pub fn overlaps(c: &Circle, rect: &Rect) -> (res: bool)
    ensures
        res == overlap_spec(*c, *rect),
{
    let cx = c.x as i128;
    let cy = c.y as i128;
    let right = rect.x as i128 + rect.w as i128;
    let bottom = rect.y as i128 + rect.h as i128;
    let dx = cx - clamp_i128(cx, rect.x as i128, right);
    let dy = cy - clamp_i128(cy, rect.y as i128, bottom);
    let adx = abs_i128(dx);
    let ady = abs_i128(dy);
    let ar = abs_i128(c.r as i128);
    proof {
        assert(adx * adx == dx * dx) by (nonlinear_arith)
            requires
                adx == dx || adx == -dx,
        ;
        assert(ady * ady == dy * dy) by (nonlinear_arith)
            requires
                ady == dy || ady == -dy,
        ;
        assert(ar * ar == c.r * c.r) by (nonlinear_arith)
            requires
                ar == c.r || ar == -c.r,
        ;
    }
    if adx >= ar || ady >= ar {
        proof {
            assert(adx * adx + ady * ady >= ar * ar) by (nonlinear_arith)
                requires
                    adx >= ar || ady >= ar,
                    adx >= 0,
                    ady >= 0,
                    ar >= 0,
            ;
        }
        return false;
    }
    proof {
        assert(adx * adx < 0x4000_0000_0000_0000_0000_0000_0000_0000) by (nonlinear_arith)
            requires
                0 <= adx < ar,
                ar <= 0x8000_0000_0000_0000,
        ;
        assert(ady * ady < 0x4000_0000_0000_0000_0000_0000_0000_0000) by (nonlinear_arith)
            requires
                0 <= ady < ar,
                ar <= 0x8000_0000_0000_0000,
        ;
        assert(ar * ar <= 0x4000_0000_0000_0000_0000_0000_0000_0000) by (nonlinear_arith)
            requires
                0 <= ar <= 0x8000_0000_0000_0000,
        ;
    }
    adx * adx + ady * ady < ar * ar
}

/// Which face of the rectangle a circle centred at `c` strikes.
pub fn classify(c: &Circle, rect: &Rect) -> (res: HitBy)
    ensures
        res == classify_spec(*c, *rect),
{
    let right = rect.x as i128 + rect.w as i128;
    let bottom = rect.y as i128 + rect.h as i128;
    if (rect.x as i128) < (c.x as i128) && (c.x as i128) < right {
        HitBy::X
    } else if (rect.y as i128) < (c.y as i128) && (c.y as i128) < bottom {
        HitBy::Y
    } else {
        HitBy::XY
    }
}

/// `None` when the circle and the rectangle do not overlap, else the face
/// that was struck.
pub fn hit_test(c: &Circle, rect: &Rect) -> (res: Option<HitBy>)
    ensures
        res == hit_spec(*c, *rect),
{
    if overlaps(c, rect) {
        Some(classify(c, rect))
    } else {
        None
    }
}

/// A circle of positive radius that lies wholly inside the rectangle
/// overlaps it.
pub proof fn lemma_inside_overlaps(c: Circle, rect: Rect)
    requires
        c.r > 0,
        rect.left() <= c.x - c.r,
        c.x + c.r <= rect.right(),
        rect.top() <= c.y - c.r,
        c.y + c.r <= rect.bottom(),
    ensures
        overlap_spec(c, rect),
        hit_spec(c, rect) is Some,
{
    let dx = c.x - clamp(c.x as int, rect.left(), rect.right());
    let dy = c.y - clamp(c.y as int, rect.top(), rect.bottom());
    assert(dx == 0 && dy == 0);
    assert(c.r * c.r > 0) by (nonlinear_arith)
        requires
            c.r > 0,
    ;
    assert(dx * dx + dy * dy == 0) by (nonlinear_arith)
        requires
            dx == 0 && dy == 0,
    ;
}

/// A circle whose centre lies exactly one radius beyond an edge of the
/// rectangle, level with that edge, only touches it: no overlap.
pub proof fn lemma_touching_edge_excluded(c: Circle, rect: Rect)
    requires
        rect.w >= 0,
        rect.h >= 0,
        c.r >= 0,
        ({
            let on_x_span = rect.left() <= c.x <= rect.right();
            let on_y_span = rect.top() <= c.y <= rect.bottom();
            (on_y_span && (c.x == rect.right() + c.r || c.x == rect.left() - c.r)) || (on_x_span
                && (c.y == rect.bottom() + c.r || c.y == rect.top() - c.r))
        }),
    ensures
        !overlap_spec(c, rect),
        hit_spec(c, rect) is None,
{
    let dx = c.x - clamp(c.x as int, rect.left(), rect.right());
    let dy = c.y - clamp(c.y as int, rect.top(), rect.bottom());
    assert(dx * dx + dy * dy == c.r * c.r) by (nonlinear_arith)
        requires
            (dx == 0 && (dy == c.r || dy == -c.r)) || (dy == 0 && (dx == c.r || dx == -c.r)),
    ;
}

/// An overlapping circle whose centre lies outside both spans of the
/// rectangle struck a corner.
pub proof fn lemma_corner_hit(c: Circle, rect: Rect)
    requires
        overlap_spec(c, rect),
        c.x <= rect.left() || c.x >= rect.right(),
        c.y <= rect.top() || c.y >= rect.bottom(),
    ensures
        classify_spec(c, rect) == HitBy::XY,
        hit_spec(c, rect) == Some(HitBy::XY),
{
}

} // verus!
