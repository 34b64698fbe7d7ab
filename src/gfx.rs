use vstd::prelude::*;
use vstd::arithmetic::div_mod::{lemma_hoist_over_denominator, lemma_mod_add_multiples_vanish};
use crate::geometry::Rectangle;

verus! {

/// Milliseconds per second times millihertz per hertz: a time in milliseconds
/// multiplied by a rate in millihertz, divided by this, counts whole frames.
pub const FRAME_SCALE: u64 = 1_000_000;

/// A rectangular region of an image resource. The resource itself is held
/// by whoever draws; a sprite names it by `texture`.
#[derive(Clone, Copy, Debug, PartialEq, Eq, Structural)]
pub struct Sprite {
    pub texture: usize,
    pub src: Rectangle,
}

impl Sprite {
    /// The part of this sprite at offset `(x, y)` and of size `w` by `h`,
    /// relative to the sprite's own region; nothing when that part reaches
    /// outside the region.
    pub open spec fn sub_spec(self, x: int, y: int, w: int, h: int) -> Option<Sprite> {
        let nx = self.src.x + x;
        let ny = self.src.y + y;
        if self.src.left_spec() <= nx && nx + w <= self.src.right_spec() && self.src.top_spec()
            <= ny && ny + h <= self.src.bottom_spec() {
            Some(Sprite { texture: self.texture, src: Rectangle { x: nx as i64, y: ny as i64, w: w as i64, h: h as i64 } })
        } else {
            None
        }
    }

    /// The whole of a texture of the given size.
    pub fn new(texture: usize, width: u32, height: u32) -> (r: Sprite)
        ensures
            r.texture == texture,
            r.src == (Rectangle { x: 0, y: 0, w: width as i64, h: height as i64 }),
    {
        Sprite { texture, src: Rectangle { x: 0, y: 0, w: width as i64, h: height as i64 } }
    }

    fn sub(&self, x: i128, y: i128, w: i64, h: i64) -> (r: Option<Sprite>)
        requires
            -0x1_0000_0000_0000_0000_0000 <= x <= 0x1_0000_0000_0000_0000_0000,
            -0x1_0000_0000_0000_0000_0000 <= y <= 0x1_0000_0000_0000_0000_0000,
        ensures
            r == self.sub_spec(x as int, y as int, w as int, h as int),
    {
        let nx: i128 = self.src.x as i128 + x;
        let ny: i128 = self.src.y as i128 + y;
        if (self.src.left() as i128) <= nx && nx + (w as i128) <= self.src.right() && (
        self.src.top() as i128) <= ny && ny + (h as i128) <= self.src.bottom() {
            Some(Sprite { texture: self.texture, src: Rectangle { x: nx as i64, y: ny as i64, w, h } })
        } else {
            None
        }
    }

    /// The part of this sprite that `rect` marks out, relative to the
    /// sprite's own region; nothing when `rect` reaches outside the region.
    pub fn region(&self, rect: Rectangle) -> (r: Option<Sprite>)
        ensures
            r == self.sub_spec(rect.x as int, rect.y as int, rect.w as int, rect.h as int),
    {
        self.sub(rect.x as i128, rect.y as i128, rect.w, rect.h)
    }

    /// Width and height of the sprite's region.
    pub fn size(&self) -> (r: (i64, i64))
        ensures
            r == (self.src.w, self.src.h),
    {
        (self.src.w, self.src.h)
    }
}

/// The `i`th cell of a sheet laid out `cols` cells to a row, each `w` by `h`,
/// filled row by row from the top-left corner.
pub open spec fn grid_cell(sheet: Sprite, i: int, cols: int, w: int, h: int) -> Option<Sprite> {
    sheet.sub_spec(w * (i % cols), h * (i / cols), w, h)
}

/// Cuts `count` cells of `cell_w` by `cell_h` out of `sheet`, `cols` to a
/// row, row by row. Fails when a cell reaches outside the sheet.
pub fn slice_grid(sheet: &Sprite, cols: u32, count: u32, cell_w: u32, cell_h: u32) -> (r: Option<Vec<Sprite>>)
    requires
        cols > 0,
    ensures
        r is Some <==> forall|i: int| 0 <= i < count ==> (#[trigger] grid_cell(*sheet, i, cols as int, cell_w as int, cell_h as int)) is Some,
        r matches Some(v) ==> v@.len() == count && forall|i: int| 0 <= i < count ==> grid_cell(*sheet, i, cols as int, cell_w as int, cell_h as int) == Some(#[trigger] v@[i]),
{
    let mut cells: Vec<Sprite> = Vec::new();
    let mut i: u32 = 0;
    while i < count
        invariant
            cols > 0,
            i <= count,
            cells@.len() == i,
            forall|j: int| 0 <= j < i ==> grid_cell(*sheet, j, cols as int, cell_w as int, cell_h as int) == Some(#[trigger] cells@[j]),
        decreases count - i,
    {
        let col: u32 = i % cols;
        let row: u32 = i / cols;
        assert(0 <= cell_w as int * col as int <= 0x1_0000_0000_0000_0000) by (nonlinear_arith)
            requires
                cell_w <= u32::MAX,
                col <= u32::MAX,
        ;
        assert(0 <= cell_h as int * row as int <= 0x1_0000_0000_0000_0000) by (nonlinear_arith)
            requires
                cell_h <= u32::MAX,
                row <= u32::MAX,
        ;
        let x: i128 = cell_w as i128 * col as i128;
        let y: i128 = cell_h as i128 * row as i128;
        match sheet.sub(x, y, cell_w as i64, cell_h as i64) {
            Some(s) => {
                cells.push(s);
            },
            None => {
                assert(grid_cell(*sheet, i as int, cols as int, cell_w as int, cell_h as int) is None);
                return None;
            },
        }
        i = i + 1;
    }
    assert forall|j: int| 0 <= j < count implies (#[trigger] grid_cell(*sheet, j, cols as int, cell_w as int, cell_h as int)) is Some by {
        assert(grid_cell(*sheet, j, cols as int, cell_w as int, cell_h as int) == Some(cells@[j]));
    }
    Some(cells)
}

/// Which of `n` frames shows after `elapsed` milliseconds at `fps`
/// millihertz: `floor(elapsed * fps) mod n`, in seconds and hertz.
pub open spec fn frame_index(elapsed: nat, fps: nat, n: nat) -> nat
    recommends
        n > 0,
{
    ((elapsed * fps / FRAME_SCALE as nat) % n) as nat
}

/// A non-empty sequence of frames played at a rate, with the time that has
/// passed since it started. Time moves only by `add_time`.
pub struct AnimatedSprite {
    /// The frames, in playing order.
    pub frames: Vec<Sprite>,
    /// Frames per second, in millihertz (thousandths of a frame per second).
    pub fps: u64,
    /// Time played so far, in milliseconds.
    pub elapsed: u64,
}

impl AnimatedSprite {
    pub open spec fn wf(&self) -> bool {
        self.frames@.len() > 0
    }

    pub open spec fn index_spec(&self) -> nat {
        frame_index(self.elapsed as nat, self.fps as nat, self.frames@.len())
    }

    /// An animation of `frames` at `fps` millihertz, at its start.
    pub fn with_fps(frames: Vec<Sprite>, fps: u64) -> (r: AnimatedSprite)
        requires
            frames@.len() > 0,
        ensures
            r.wf(),
            r.frames@ == frames@,
            r.fps == fps,
            r.elapsed == 0,
    {
        AnimatedSprite { frames, fps, elapsed: 0 }
    }

    /// The number of frames.
    pub fn frame_count(&self) -> (r: usize)
        ensures
            r == self.frames@.len(),
    {
        self.frames.len()
    }

    /// Changes the rate. The time played is kept, so the animation goes on
    /// from where it is instead of jumping back to its first frame.
    pub fn set_fps(&mut self, fps: u64)
        ensures
            final(self).fps == fps,
            final(self).elapsed == old(self).elapsed,
            final(self).frames@ == old(self).frames@,
    {
        self.fps = fps;
    }

    /// Lets `dt` milliseconds of the animation pass.
    pub fn add_time(&mut self, dt: u64)
        requires
            old(self).elapsed + dt <= u64::MAX,
        ensures
            final(self).elapsed == old(self).elapsed + dt,
            final(self).fps == old(self).fps,
            final(self).frames@ == old(self).frames@,
    {
        self.elapsed = self.elapsed + dt;
    }

    /// The position of the frame that shows now.
    pub fn index(&self) -> (r: usize)
        requires
            self.wf(),
        ensures
            r == self.index_spec(),
            r < self.frames@.len(),
    {
        let e: u128 = self.elapsed as u128;
        let f: u128 = self.fps as u128;
        assert(e * f <= u128::MAX) by (nonlinear_arith)
            requires
                e <= u64::MAX,
                f <= u64::MAX,
        ;
        let n: usize = self.frames.len();
        let k: u128 = (e * f) / (FRAME_SCALE as u128);
        (k % (n as u128)) as usize
    }

    /// The frame that shows now.
    pub fn current(&self) -> (r: &Sprite)
        requires
            self.wf(),
        ensures
            *r == self.frames@[self.index_spec() as int],
    {
        let i: usize = self.index();
        &self.frames[i]
    }
}

/// The animation comes back to the same frame after each full cycle: adding
/// `period` milliseconds, where `period` is `n / fps` (`period * fps` equals
/// `n` frames' worth), never changes which frame shows.
pub proof fn lemma_frame_index_periodic(elapsed: nat, fps: nat, n: nat, period: nat)
    requires
        n > 0,
        period * fps == n * FRAME_SCALE,
    ensures
        frame_index(elapsed, fps, n) == frame_index(elapsed + period, fps, n),
{
    let s = FRAME_SCALE as nat;
    assert((elapsed + period) * fps == elapsed * fps + n * s) by (nonlinear_arith)
        requires
            period * fps == n * s,
    ;
    lemma_hoist_over_denominator((elapsed * fps) as int, n as int, s);
    let k = (elapsed * fps) as int / s as int;
    assert((elapsed + period) * fps / s == k + n);
    lemma_mod_add_multiples_vanish(k, n as int);
    assert((n + k) % (n as int) == k % (n as int));
}

} // verus!
