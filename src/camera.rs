//! The 2D view transform each simulation owns.
//!
//! Positions and the zoom are fixed-point in units of `1 / UNIT`. A world
//! point `w` appears at screen offset `(w - position) * zoom` from the centre.

use crate::pellets::UNIT;
use vstd::prelude::*;

verus! {

/// Largest magnitude of a camera coordinate.
pub const POSITION_LIMIT: i64 = 1_000_000_000_000;

/// Smallest zoom: one hundredth.
pub const MIN_ZOOM: i64 = 10_000;

/// Largest zoom: a hundredfold.
pub const MAX_ZOOM: i64 = 100_000_000;

/// The view transform and the size of the viewport it draws into.
#[derive(Clone, Copy, Debug, PartialEq, Eq, Structural)]
pub struct Camera {
    pub position_x: i64,
    pub position_y: i64,
    pub zoom: i64,
    pub viewport_width: u32,
    pub viewport_height: u32,
}

pub open spec fn clamp_position(v: int) -> int {
    if v > POSITION_LIMIT {
        POSITION_LIMIT as int
    } else if v < -POSITION_LIMIT {
        -POSITION_LIMIT
    } else {
        v
    }
}

pub open spec fn clamp_zoom(z: int) -> int {
    if z > MAX_ZOOM {
        MAX_ZOOM as int
    } else if z < MIN_ZOOM {
        MIN_ZOOM as int
    } else {
        z
    }
}

/// The zoom after changing `zoom` by the fraction `delta`.
pub open spec fn zoomed(zoom: int, delta: int) -> int {
    clamp_zoom(zoom + zoom * delta / (UNIT as int))
}

/// The coordinate that keeps world point `cursor` at the same screen offset
/// when the zoom goes from `zoom` to `new_zoom`, rounded down.
pub open spec fn anchored(position: int, cursor: int, zoom: int, new_zoom: int) -> int {
    cursor - ((cursor - position) * zoom) / new_zoom
}

/// The camera's bounds on position and zoom.
pub open spec fn camera_in_bounds(c: Camera) -> bool {
    &&& -POSITION_LIMIT <= c.position_x <= POSITION_LIMIT
    &&& -POSITION_LIMIT <= c.position_y <= POSITION_LIMIT
    &&& MIN_ZOOM <= c.zoom <= MAX_ZOOM
}

/// `a / d` rounded down, for `d > 0`.
fn floor_div(a: i128, d: i128) -> (r: i128)
    requires
        d > 0,
        -0x4000_0000_0000_0000_0000_0000_0000_0000 < a < 0x4000_0000_0000_0000_0000_0000_0000_0000,
    ensures
        r == a / d,
{
    if a >= 0 {
        a / d
    } else {
        let q = (-a - 1) / d;
        proof {
            let b = -a - 1;
            vstd::arithmetic::div_mod::lemma_fundamental_div_mod(b, d as int);
            vstd::arithmetic::div_mod::lemma_fundamental_div_mod(a as int, d as int);
            let qa = (a as int) / (d as int);
            let ra = (a as int) % (d as int);
            let qb = b / (d as int);
            let rb = b % (d as int);
            assert(a == d * qa + ra && 0 <= ra < d);
            assert(b == d * qb + rb && 0 <= rb < d);
            assert(-qb - 1 == qa) by (nonlinear_arith)
                requires
                    a == d * qa + ra,
                    0 <= ra < d,
                    -a - 1 == d * qb + rb,
                    0 <= rb < d,
            ;
        }
        -q - 1
    }
}

proof fn lemma_floor_div_bounded(a: int, d: int, b: int)
    requires
        d >= 1,
        -b < a < b,
    ensures
        -b < a / d < b,
{
    vstd::arithmetic::div_mod::lemma_fundamental_div_mod(a, d);
    let q = a / d;
    let r = a % d;
    assert(-b < q < b) by (nonlinear_arith)
        requires
            a == d * q + r,
            0 <= r < d,
            d >= 1,
            -b < a < b,
    ;
}

fn clamp_to_limit(v: i128) -> (r: i64)
    ensures
        r == clamp_position(v as int),
{
    if v > POSITION_LIMIT as i128 {
        POSITION_LIMIT
    } else if v < -(POSITION_LIMIT as i128) {
        -POSITION_LIMIT
    } else {
        v as i64
    }
}

impl Camera {
    /// A camera at the origin with zoom one, drawing into a viewport of the
    /// given size.
    pub fn new(viewport_width: u32, viewport_height: u32) -> (r: Camera)
        ensures
            r.position_x == 0 && r.position_y == 0 && r.zoom == UNIT,
            r.viewport_width == viewport_width && r.viewport_height == viewport_height,
            camera_in_bounds(r),
    {
        Camera { position_x: 0, position_y: 0, zoom: UNIT, viewport_width, viewport_height }
    }

    /// Moves the view by `(delta_x, delta_y)` world units, within the bounds.
    pub fn pan(&mut self, delta_x: i64, delta_y: i64)
        requires
            camera_in_bounds(*old(self)),
        ensures
            camera_in_bounds(*final(self)),
            final(self).position_x == clamp_position(old(self).position_x + delta_x),
            final(self).position_y == clamp_position(old(self).position_y + delta_y),
            final(self).zoom == old(self).zoom,
            final(self).viewport_width == old(self).viewport_width,
            final(self).viewport_height == old(self).viewport_height,
    {
        self.position_x = clamp_to_limit(self.position_x as i128 + delta_x as i128);
        self.position_y = clamp_to_limit(self.position_y as i128 + delta_y as i128);
    }

    /// Changes the zoom by the fraction `delta` (`UNIT / 10` zooms in by a
    /// tenth), within the bounds, around the view centre.
    pub fn zoom_by(&mut self, delta: i64)
        requires
            camera_in_bounds(*old(self)),
        ensures
            camera_in_bounds(*final(self)),
            final(self).zoom == zoomed(old(self).zoom as int, delta as int),
            final(self).position_x == old(self).position_x,
            final(self).position_y == old(self).position_y,
            final(self).viewport_width == old(self).viewport_width,
            final(self).viewport_height == old(self).viewport_height,
    {
        self.zoom = self.next_zoom(delta);
    }

    fn next_zoom(&self, delta: i64) -> (r: i64)
        requires
            camera_in_bounds(*self),
        ensures
            r == zoomed(self.zoom as int, delta as int),
            MIN_ZOOM <= r <= MAX_ZOOM,
    {
        let z = self.zoom as i128;
        proof {
            assert(-0x8000_0000_0000_0000 <= delta < 0x8000_0000_0000_0000);
            assert(-0x0010_0000_0000_0000_0000_0000_0000 < (z * delta as int) < 0x0010_0000_0000_0000_0000_0000_0000)
                by (nonlinear_arith)
                requires
                    0 < z <= MAX_ZOOM,
                    -0x8000_0000_0000_0000 <= delta < 0x8000_0000_0000_0000,
            ;
        }
        let change = floor_div(z * delta as i128, UNIT as i128);
        proof {
            lemma_floor_div_bounded((z * delta) as int, UNIT as int, 0x0010_0000_0000_0000_0000_0000_0000);
        }
        let next = z + change;
        if next > MAX_ZOOM as i128 {
            MAX_ZOOM
        } else if next < MIN_ZOOM as i128 {
            MIN_ZOOM
        } else {
            next as i64
        }
    }

    /// Changes the zoom by the fraction `delta` and moves the view so that
    /// the world point `(cursor_x, cursor_y)` keeps its place on screen, up to
    /// rounding.
    pub fn zoom_to_cursor(&mut self, delta: i64, cursor_x: i64, cursor_y: i64)
        requires
            camera_in_bounds(*old(self)),
            -POSITION_LIMIT <= cursor_x <= POSITION_LIMIT,
            -POSITION_LIMIT <= cursor_y <= POSITION_LIMIT,
        ensures
            camera_in_bounds(*final(self)),
            final(self).zoom == zoomed(old(self).zoom as int, delta as int),
            final(self).position_x == clamp_position(
                anchored(
                    old(self).position_x as int,
                    cursor_x as int,
                    old(self).zoom as int,
                    final(self).zoom as int,
                ),
            ),
            final(self).position_y == clamp_position(
                anchored(
                    old(self).position_y as int,
                    cursor_y as int,
                    old(self).zoom as int,
                    final(self).zoom as int,
                ),
            ),
            final(self).viewport_width == old(self).viewport_width,
            final(self).viewport_height == old(self).viewport_height,
    {
        let old_zoom = self.zoom;
        let new_zoom = self.next_zoom(delta);
        let x = Self::anchor(self.position_x, cursor_x, old_zoom, new_zoom);
        let y = Self::anchor(self.position_y, cursor_y, old_zoom, new_zoom);
        self.zoom = new_zoom;
        self.position_x = x;
        self.position_y = y;
    }

    fn anchor(position: i64, cursor: i64, zoom: i64, new_zoom: i64) -> (r: i64)
        requires
            -POSITION_LIMIT <= position <= POSITION_LIMIT,
            -POSITION_LIMIT <= cursor <= POSITION_LIMIT,
            MIN_ZOOM <= zoom <= MAX_ZOOM,
            MIN_ZOOM <= new_zoom <= MAX_ZOOM,
        ensures
            r == clamp_position(anchored(position as int, cursor as int, zoom as int, new_zoom as int)),
    {
        let offset = cursor as i128 - position as i128;
        proof {
            assert(-0x0010_0000_0000_0000_0000_0000_0000 < offset * zoom < 0x0010_0000_0000_0000_0000_0000_0000)
                by (nonlinear_arith)
                requires
                    -2 * POSITION_LIMIT <= offset <= 2 * POSITION_LIMIT,
                    MIN_ZOOM <= zoom <= MAX_ZOOM,
            ;
        }
        let scaled = floor_div(offset * zoom as i128, new_zoom as i128);
        proof {
            lemma_floor_div_bounded((offset * zoom) as int, new_zoom as int, 0x0010_0000_0000_0000_0000_0000_0000);
        }
        clamp_to_limit(cursor as i128 - scaled)
    }

    /// Back to the origin with zoom one; the viewport is kept.
    pub fn reset(&mut self)
        ensures
            *final(self) == Camera::new_spec(old(self).viewport_width, old(self).viewport_height),
            camera_in_bounds(*final(self)),
    {
        *self = Camera::new(self.viewport_width, self.viewport_height);
    }

    pub open spec fn new_spec(viewport_width: u32, viewport_height: u32) -> Camera {
        Camera { position_x: 0, position_y: 0, zoom: UNIT, viewport_width, viewport_height }
    }

    /// Sets the viewport size.
    pub fn resize(&mut self, width: u32, height: u32)
        ensures
            *final(self) == (Camera { viewport_width: width, viewport_height: height, ..*old(self) }),
    {
        self.viewport_width = width;
        self.viewport_height = height;
    }
}

/// Zooming to a cursor keeps the cursor's world point in place on screen:
/// where the new position needs no clamping, the cursor's screen offset after
/// the zoom falls short of the offset before by less than one world unit at
/// the new zoom.
pub proof fn lemma_zoom_keeps_cursor(position: int, cursor: int, zoom: int, new_zoom: int)
    requires
        new_zoom > 0,
        clamp_position(anchored(position, cursor, zoom, new_zoom)) == anchored(
            position,
            cursor,
            zoom,
            new_zoom,
        ),
    ensures
        ({
            let before = (cursor - position) * zoom;
            let after = (cursor - anchored(position, cursor, zoom, new_zoom)) * new_zoom;
            0 <= before - after < new_zoom
        }),
{
    let a = (cursor - position) * zoom;
    vstd::arithmetic::div_mod::lemma_fundamental_div_mod(a, new_zoom);
    let q = a / new_zoom;
    assert(cursor - anchored(position, cursor, zoom, new_zoom) == q);
    assert(q * new_zoom == new_zoom * q) by (nonlinear_arith);
}

} // verus!
