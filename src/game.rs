use vstd::prelude::*;
use crate::geometry::{clamp, Rectangle};
use crate::gfx::{AnimatedSprite, Sprite, slice_grid, grid_cell};
use crate::events::{EventState, Key, pressed_spec};
use vstd::arithmetic::div_mod::{lemma_div_is_ordered, lemma_hoist_over_denominator, lemma_mod_multiples_vanish};

verus! {

/// Relies on rand::random: a value drawn from the thread-local generator.
/// Nothing is known of which value comes.
pub assume_specification<T>[ rand::random::<T> ]() -> (r: T)
    where
        rand::distributions::Standard: rand::distributions::Distribution<T>,
;

/// The ship's speed along one axis, in pixels per second.
pub const PLAYER_SPEED: u64 = 180;

/// The share of the straight speed kept on each axis when moving
/// diagonally, in thousandths: `1 / sqrt(2)` rounded down.
pub const DIAGONAL_PER_MILLE: u64 = 707;

pub const SHIP_W: u32 = 43;

pub const SHIP_H: u32 = 39;

/// The ship's sheet: three rows (up, level, down) of three columns
/// (steady, fast, slow).
pub const SHIP_COLS: u32 = 3;

pub const SHIP_FRAMES: u32 = 9;

/// The frame of a ship that neither climbs, dives, speeds up nor slows down.
pub const SHIP_LEVEL: usize = 3;

pub const ASTEROID_SIDE: u32 = 96;

pub const ASTEROID_WIDE: u32 = 21;

/// The asteroid's sheet holds 21 by 7 cells, the last four of them empty.
pub const ASTEROID_TOTAL: u32 = 143;

/// -1, 0 or 1: the way a pair of opposite keys points.
pub open spec fn axis(neg: bool, pos: bool) -> int {
    if neg == pos {
        0
    } else if neg {
        -1
    } else {
        1
    }
}

/// Positions are kept to a thousandth of a pixel, so that a slow mover
/// still gets somewhere over short frames.
pub const SUBPIXELS: u64 = 1000;

/// A position in thousandths of a pixel: whole pixels `px` and the
/// thousandths `frac` beyond them.
pub open spec fn fine_pos(px: int, frac: int) -> int {
    px * SUBPIXELS + frac
}

/// How far the ship goes along each axis it moves on, in `elapsed`
/// milliseconds, in thousandths of a pixel.
pub open spec fn step_len(elapsed: int, diagonal: bool) -> int {
    PLAYER_SPEED * elapsed * (if diagonal { DIAGONAL_PER_MILLE } else { 1000 }) / 1000
}

/// The sheet cell that shows a ship moving by `(dx, dy)`: the row from the
/// vertical way, the column from the horizontal one.
pub open spec fn ship_frame(dx: int, dy: int) -> int {
    let row = if dy < 0 { 0int } else if dy == 0 { 1int } else { 2int };
    let col = if dx == 0 { 0int } else if dx > 0 { 1int } else { 2int };
    3 * row + col
}

/// The player's ship: where it is and which cell of its sheet shows. Its
/// position is `rect.x` and `rect.y` pixels plus `frac_x` and `frac_y`
/// thousandths of a pixel.
#[derive(Clone, Copy, Debug, PartialEq, Eq, Structural)]
pub struct Ship {
    pub rect: Rectangle,
    pub frac_x: u16,
    pub frac_y: u16,
    pub frame: usize,
}

/// The part of a screen of `width` by `height` in which the ship may move:
/// the left seven tenths.
pub open spec fn ship_bounds_spec(width: u32, height: u32) -> Rectangle {
    Rectangle { x: 0, y: 0, w: (width * 7 / 10) as i64, h: height as i64 }
}

pub fn ship_bounds(width: u32, height: u32) -> (r: Rectangle)
    ensures
        r == ship_bounds_spec(width, height),
{
    Rectangle { x: 0, y: 0, w: (width as u64 * 7 / 10) as i64, h: height as i64 }
}

/// Cuts the ship's nine frames out of its sheet; fails when the sheet is
/// too small.
pub fn ship_sprites(sheet: &Sprite) -> (r: Option<Vec<Sprite>>)
    ensures
        r is Some <==> forall|i: int| 0 <= i < SHIP_FRAMES ==> (#[trigger] grid_cell(*sheet, i, SHIP_COLS as int, SHIP_W as int, SHIP_H as int)) is Some,
        r matches Some(v) ==> v@.len() == SHIP_FRAMES && forall|i: int| 0 <= i < SHIP_FRAMES ==> grid_cell(*sheet, i, SHIP_COLS as int, SHIP_W as int, SHIP_H as int) == Some(#[trigger] v@[i]),
{
    slice_grid(sheet, SHIP_COLS, SHIP_FRAMES, SHIP_W, SHIP_H)
}

fn clamp_fine(v: i128, lo: i128, hi: i128) -> (r: i128)
    requires
        lo <= hi,
    ensures
        r == clamp(v as int, lo as int, hi as int),
{
    if v < lo {
        lo
    } else if v > hi {
        hi
    } else {
        v
    }
}

/// Splits `p` thousandths of a pixel, known to lie from pixel `lo` to just
/// before pixel `hi + 1`, into whole pixels (rounded down) and thousandths.
fn split_fine(p: i128, lo: i64, hi: i64) -> (r: (i64, u16))
    requires
        lo <= hi,
        lo as int * SUBPIXELS as int <= p < (hi as int + 1) * SUBPIXELS as int,
    ensures
        r.0 == p as int / SUBPIXELS as int,
        r.1 == p as int % SUBPIXELS as int,
{
    let off: u128 = (p - lo as i128 * 1000) as u128;
    let q: u128 = off / 1000;
    let m: u128 = off % 1000;
    proof {
        let span = (hi - lo) as int;
        lemma_div_is_ordered(off as int, span * 1000 + 999, 1000);
        lemma_hoist_over_denominator(999, span, 1000);
        lemma_hoist_over_denominator(off as int, lo as int, 1000);
        lemma_mod_multiples_vanish(lo as int, off as int, 1000);
        assert(p == off + lo * 1000);
    }
    ((lo as i128 + q as i128) as i64, m as u16)
}

impl Ship {
    /// A level ship near the top-left corner.
    pub fn new() -> (r: Ship)
        ensures
            r.rect == (Rectangle { x: 64, y: 64, w: SHIP_W as i64, h: SHIP_H as i64 }),
            r.frac_x == 0 && r.frac_y == 0,
            r.frame == SHIP_LEVEL,
    {
        Ship {
            rect: Rectangle { x: 64, y: 64, w: SHIP_W as i64, h: SHIP_H as i64 },
            frac_x: 0,
            frac_y: 0,
            frame: SHIP_LEVEL,
        }
    }

    /// The ship after `elapsed` milliseconds with the arrow keys as `keys`
    /// holds them: moved along each axis whose keys do not cancel, slower on
    /// each when it moves on both, brought back inside `bounds`, and showing
    /// the frame for the way it moved.
    pub open spec fn moved_spec(self, up: bool, down: bool, left: bool, right: bool, elapsed: int, bounds: Rectangle) -> Ship {
        let ax = axis(left, right);
        let ay = axis(up, down);
        let d = step_len(elapsed, ax != 0 && ay != 0);
        let dx = ax * d;
        let dy = ay * d;
        let s = SUBPIXELS as int;
        let nx = clamp(fine_pos(self.rect.x as int, self.frac_x as int) + dx, bounds.left_spec() * s, (bounds.right_spec() - self.rect.w) * s);
        let ny = clamp(fine_pos(self.rect.y as int, self.frac_y as int) + dy, bounds.top_spec() * s, (bounds.bottom_spec() - self.rect.h) * s);
        Ship {
            rect: Rectangle { x: (nx / s) as i64, y: (ny / s) as i64, w: self.rect.w, h: self.rect.h },
            frac_x: (nx % s) as u16,
            frac_y: (ny % s) as u16,
            frame: ship_frame(dx, dy) as usize,
        }
    }

    /// Moves the ship for one frame of `elapsed` milliseconds. Fails, and
    /// leaves the ship as it was, when the ship does not fit in `bounds`.
    pub fn update(&mut self, keys: &EventState, elapsed: u64, bounds: Rectangle) -> (ok: bool)
        requires
            keys.wf(),
            old(self).rect.w >= 0,
            old(self).rect.h >= 0,
            bounds.right_spec() <= i64::MAX,
            bounds.bottom_spec() <= i64::MAX,
        ensures
            ok == (old(self).rect.w <= bounds.w && old(self).rect.h <= bounds.h),
            ok ==> *final(self) == old(self).moved_spec(
                keys@.down[Key::Up.slot_spec()],
                keys@.down[Key::Down.slot_spec()],
                keys@.down[Key::Left.slot_spec()],
                keys@.down[Key::Right.slot_spec()],
                elapsed as int,
                bounds,
            ),
            !ok ==> *final(self) == *old(self),
    {
        if self.rect.w > bounds.w || self.rect.h > bounds.h {
            return false;
        }
        let up = keys.is_down(Key::Up);
        let down = keys.is_down(Key::Down);
        let left = keys.is_down(Key::Left);
        let right = keys.is_down(Key::Right);
        let ax: i128 = if left == right { 0 } else if left { -1 } else { 1 };
        let ay: i128 = if up == down { 0 } else if up { -1 } else { 1 };
        let per_mille: u64 = if ax != 0 && ay != 0 { DIAGONAL_PER_MILLE } else { 1000 };
        assert(0 <= PLAYER_SPEED as int * elapsed as int * per_mille as int <= 180_000 * 0x1_0000_0000_0000_0000) by (nonlinear_arith)
            requires
                elapsed <= u64::MAX,
                per_mille <= 1000,
        ;
        let big: i128 = PLAYER_SPEED as i128 * elapsed as i128 * per_mille as i128;
        let d: i128 = big / 1000;
        assert(0 <= d <= big) by (nonlinear_arith)
            requires
                d == big / 1000,
                big >= 0,
        ;
        let dx: i128 = ax * d;
        let dy: i128 = ay * d;
        let x_hi: i64 = (bounds.right() - self.rect.w as i128) as i64;
        let y_hi: i64 = (bounds.bottom() - self.rect.h as i128) as i64;
        let nx: i128 = clamp_fine(self.rect.x as i128 * 1000 + self.frac_x as i128 + dx, bounds.x as i128 * 1000, x_hi as i128 * 1000);
        let ny: i128 = clamp_fine(self.rect.y as i128 * 1000 + self.frac_y as i128 + dy, bounds.y as i128 * 1000, y_hi as i128 * 1000);
        let (x, frac_x) = split_fine(nx, bounds.x, x_hi);
        let (y, frac_y) = split_fine(ny, bounds.y, y_hi);
        let row: usize = if dy < 0 { 0 } else if dy == 0 { 1 } else { 2 };
        let col: usize = if dx == 0 { 0 } else if dx > 0 { 1 } else { 2 };
        self.rect = Rectangle { x, y, w: self.rect.w, h: self.rect.h };
        self.frac_x = frac_x;
        self.frac_y = frac_y;
        self.frame = 3 * row + col;
        true
    }
}

/// A view is left on a frame where quitting was asked for, or where Escape
/// went down.
pub fn wants_quit(keys: &EventState) -> (r: bool)
    requires
        keys.wf(),
    ensures
        r == (keys@.quit || pressed_spec(keys@, Key::Escape)),
{
    keys.quit() || keys.pressed(Key::Escape)
}

/// A rock that drifts leftwards across the screen, spinning, and comes back
/// from the right edge at a new height and pace once it has left.
pub struct Asteroid {
    pub sprite: AnimatedSprite,
    pub rect: Rectangle,
    /// Thousandths of a pixel beyond `rect.x`.
    pub frac_x: u16,
    /// Pixels per second.
    pub vel: u64,
}

/// An asteroid's rate of spin for a draw: 10 to 30 frames per second, in
/// millihertz.
pub open spec fn spin_for(draw: u64) -> u64 {
    (10_000 + draw % 20_000) as u64
}

/// An asteroid's height for a draw: anywhere it fits on a screen `height`
/// pixels high, or the top when it does not fit.
pub open spec fn height_for(draw: u64, height: u32) -> i64 {
    if height > ASTEROID_SIDE {
        (draw % ((height - ASTEROID_SIDE) as u64)) as i64
    } else {
        0
    }
}

/// An asteroid's pace for a draw: 50 to 150 pixels per second.
pub open spec fn pace_for(draw: u64) -> u64 {
    (50 + draw % 100) as u64
}

impl Asteroid {
    pub open spec fn wf(&self) -> bool {
        &&& self.sprite.wf()
        &&& self.frac_x < SUBPIXELS
    }

    /// Where an asteroid just reset stands, with a spin and pace in range:
    /// at the right edge of a screen of `width` by `height`, at a height at
    /// which it fits, or at the top when it cannot fit.
    pub open spec fn fresh(&self, width: u32, height: u32) -> bool {
        &&& self.rect.x == width
        &&& self.frac_x == 0
        &&& self.rect.w == ASTEROID_SIDE && self.rect.h == ASTEROID_SIDE
        &&& 0 <= self.rect.y
        &&& height > ASTEROID_SIDE ==> self.rect.y < height - ASTEROID_SIDE
        &&& height <= ASTEROID_SIDE ==> self.rect.y == 0
        &&& 50 <= self.vel < 150
        &&& 10_000 <= self.sprite.fps < 30_000
    }

    /// Takes the asteroid back to the right edge of a screen of `width` by
    /// `height`, with the spin, height and pace that the draws give.
    pub fn reset_with(&mut self, width: u32, height: u32, spin: u64, place: u64, pace: u64)
        ensures
            final(self).sprite.fps == spin_for(spin),
            final(self).sprite.elapsed == old(self).sprite.elapsed,
            final(self).sprite.frames@ == old(self).sprite.frames@,
            final(self).rect == (Rectangle { x: width as i64, y: height_for(place, height), w: ASTEROID_SIDE as i64, h: ASTEROID_SIDE as i64 }),
            final(self).frac_x == 0,
            final(self).vel == pace_for(pace),
    {
        self.sprite.set_fps(10_000 + spin % 20_000);
        let y: i64 = if height > ASTEROID_SIDE {
            (place % ((height - ASTEROID_SIDE) as u64)) as i64
        } else {
            0
        };
        self.rect = Rectangle { x: width as i64, y, w: ASTEROID_SIDE as i64, h: ASTEROID_SIDE as i64 };
        self.frac_x = 0;
        self.vel = 50 + pace % 100;
    }

    /// Takes the asteroid back to the right edge of a screen of `width` by
    /// `height`, with a random spin, height and pace.
    pub fn reset(&mut self, width: u32, height: u32)
        ensures
            final(self).sprite.elapsed == old(self).sprite.elapsed,
            final(self).sprite.frames@ == old(self).sprite.frames@,
            final(self).fresh(width, height),
    {
        let spin: u64 = rand::random::<u64>();
        let place: u64 = rand::random::<u64>();
        let pace: u64 = rand::random::<u64>();
        self.reset_with(width, height, spin, place, pace);
    }

    /// A new asteroid, its frames cut from `sheet`, at the right edge of a
    /// screen of `width` by `height`. Fails when the sheet is too small.
    pub fn new(sheet: &Sprite, width: u32, height: u32) -> (r: Option<Asteroid>)
        ensures
            r is Some <==> forall|i: int| 0 <= i < ASTEROID_TOTAL ==> (#[trigger] grid_cell(*sheet, i, ASTEROID_WIDE as int, ASTEROID_SIDE as int, ASTEROID_SIDE as int)) is Some,
            r matches Some(a) ==> {
                &&& a.wf()
                &&& a.sprite.frames@.len() == ASTEROID_TOTAL
                &&& forall|i: int| 0 <= i < ASTEROID_TOTAL ==> grid_cell(*sheet, i, ASTEROID_WIDE as int, ASTEROID_SIDE as int, ASTEROID_SIDE as int) == Some(#[trigger] a.sprite.frames@[i])
                &&& a.sprite.elapsed == 0
                &&& a.fresh(width, height)
            },
    {
        match slice_grid(sheet, ASTEROID_WIDE, ASTEROID_TOTAL, ASTEROID_SIDE, ASTEROID_SIDE) {
            None => None,
            Some(frames) => {
                let sprite = AnimatedSprite::with_fps(frames, 1000);
                let mut a = Asteroid {
                    sprite,
                    rect: Rectangle { x: 0, y: 0, w: 0, h: 0 },
                    frac_x: 0,
                    vel: 0,
                };
                a.reset(width, height);
                Some(a)
            },
        }
    }

    /// Whether an asteroid at `p` thousandths of a pixel has left the
    /// screen on the left.
    pub open spec fn gone(p: int) -> bool {
        p <= -(ASTEROID_SIDE as int) * SUBPIXELS
    }

    /// Lets `dt` milliseconds pass: the asteroid drifts left at its pace and
    /// spins on; once it has left the screen it starts again from the right
    /// edge of a screen of `width` by `height`.
    pub fn update(&mut self, dt: u64, width: u32, height: u32)
        requires
            old(self).wf(),
            old(self).sprite.elapsed + dt <= u64::MAX,
        ensures
            final(self).wf(),
            final(self).sprite.elapsed == old(self).sprite.elapsed + dt,
            final(self).sprite.frames@ == old(self).sprite.frames@,
            ({
                let p = fine_pos(old(self).rect.x as int, old(self).frac_x as int) - dt * old(self).vel;
                if Self::gone(p) {
                    final(self).fresh(width, height)
                } else {
                    &&& final(self).rect == (Rectangle { x: (p / SUBPIXELS as int) as i64, ..old(self).rect })
                    &&& final(self).frac_x == p % SUBPIXELS as int
                    &&& final(self).vel == old(self).vel
                    &&& final(self).sprite.fps == old(self).sprite.fps
                }
            }),
    {
        assert(0 <= dt as int * self.vel as int <= u64::MAX as int * u64::MAX as int) by (nonlinear_arith)
            requires
                dt <= u64::MAX,
                self.vel <= u64::MAX,
        ;
        let drift: u128 = dt as u128 * self.vel as u128;
        let start: i128 = self.rect.x as i128 * 1000 + self.frac_x as i128;
        self.sprite.add_time(dt);
        // a drift this long takes any asteroid off the screen
        if drift > 0x1_0000_0000_0000_0000_0000_0000 || start - drift as i128 <= -(ASTEROID_SIDE as i128) * 1000 {
            self.reset(width, height);
        } else {
            let p: i128 = start - drift as i128;
            assert(-(ASTEROID_SIDE as int) <= self.rect.x) by (nonlinear_arith)
                requires
                    p == self.rect.x * 1000 + self.frac_x - drift,
                    self.frac_x < 1000,
                    drift >= 0,
                    p > -96000,
            ;
            let (x, frac_x) = split_fine(p, -(ASTEROID_SIDE as i64), self.rect.x);
            self.rect.x = x;
            self.frac_x = frac_x;
        }
    }
}

} // verus!
