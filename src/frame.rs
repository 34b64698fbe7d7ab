use vstd::prelude::*;

verus! {

/// The target number of frames per second.
pub const FRAME_RATE: u64 = 60;

pub const MILLIS_PER_SECOND: u64 = 1000;

/// The fewest whole milliseconds between two frames: `ceil(1000 / 60)`.
pub const MIN_FRAME_GAP: u64 = 17;

/// A frame may start once `dt` milliseconds have passed since the last one
/// with `dt >= 1000 / 60`, the interval taken exactly.
pub open spec fn frame_due(dt: int) -> bool {
    dt * FRAME_RATE >= MILLIS_PER_SECOND
}

/// The shortest whole number of milliseconds after which the interval will
/// have passed, `dt` of it being gone already: `ceil(1000 / 60 - dt)`.
pub open spec fn wait_for(dt: int) -> int {
    (MILLIS_PER_SECOND - dt * FRAME_RATE + FRAME_RATE - 1) / FRAME_RATE as int
}

/// What the loop does on one look at the clock.
#[derive(Clone, Copy, Debug, PartialEq, Eq, Structural)]
pub enum Tick {
    /// Too early: sleep this many milliseconds and look again. Nothing is
    /// updated or presented.
    Wait(u64),
    /// Run one frame that covers `elapsed` milliseconds. When a second or
    /// more has passed since the last report, `report` holds the number of
    /// frames run since then, this one included.
    Frame { elapsed: u64, report: Option<u64> },
}

/// The frame loop's timing: when the last frame ran, when frames were last
/// counted out, and how many ran since then. Times are clock readings in
/// milliseconds.
pub struct FrameClock {
    pub before: u64,
    pub last_second: u64,
    pub frames: u64,
}

impl FrameClock {
    pub open spec fn wf(&self) -> bool {
        &&& self.last_second <= self.before
        &&& self.before - self.last_second < MILLIS_PER_SECOND
        &&& self.frames * MIN_FRAME_GAP <= self.before - self.last_second
    }

    /// The state before the first frame, the clock reading `now`.
    pub fn new(now: u64) -> (r: FrameClock)
        ensures
            r.wf(),
            r.before == now,
            r.last_second == now,
            r.frames == 0,
    {
        FrameClock { before: now, last_second: now, frames: 0 }
    }

    /// Decides what to do when the clock reads `now`. Before the interval has
    /// passed since the last frame it waits and changes nothing; otherwise a
    /// frame runs, covering all the time since the last one, and is counted.
    pub fn tick(&mut self, now: u64) -> (r: Tick)
        requires
            old(self).wf(),
            old(self).before <= now,
        ensures
            final(self).wf(),
            ({
                let dt = now - old(self).before;
                if !frame_due(dt) {
                    &&& r == Tick::Wait(wait_for(dt) as u64)
                    &&& wait_for(dt) >= 1
                    &&& *final(self) == *old(self)
                } else if now - old(self).last_second >= MILLIS_PER_SECOND {
                    &&& r == Tick::Frame { elapsed: dt as u64, report: Some((old(self).frames + 1) as u64) }
                    &&& final(self).before == now
                    &&& final(self).last_second == now
                    &&& final(self).frames == 0
                } else {
                    &&& r == Tick::Frame { elapsed: dt as u64, report: None }
                    &&& final(self).before == now
                    &&& final(self).last_second == old(self).last_second
                    &&& final(self).frames == old(self).frames + 1
                }
            }),
    {
        let dt: u64 = now - self.before;
        if dt < MIN_FRAME_GAP {
            assert(!frame_due(dt as int));
            return Tick::Wait((MILLIS_PER_SECOND - dt * FRAME_RATE + FRAME_RATE - 1) / FRAME_RATE);
        }
        self.before = now;
        let count: u64 = self.frames + 1;
        if now - self.last_second >= MILLIS_PER_SECOND {
            self.last_second = now;
            self.frames = 0;
            Tick::Frame { elapsed: dt, report: Some(count) }
        } else {
            self.frames = count;
            Tick::Frame { elapsed: dt, report: None }
        }
    }
}

/// What a view asks of the loop after it has run for a frame.
pub enum ViewAction<V> {
    /// Stay, and show what was drawn.
    Continue,
    /// Stop the loop; nothing more is drawn.
    Quit,
    /// Drop the current view; the one given runs from the next frame on.
    ChangeView(V),
}

/// The view that runs next frame, if any.
pub open spec fn next_view<V>(current: V, action: ViewAction<V>) -> Option<V> {
    match action {
        ViewAction::Continue => Some(current),
        ViewAction::Quit => None,
        ViewAction::ChangeView(v) => Some(v),
    }
}

/// Whether the frame that gave `action` is shown.
pub open spec fn presents<V>(action: ViewAction<V>) -> bool {
    action is Continue
}

/// Whether the frame that gave `action` is to be shown.
pub fn should_present<V>(action: &ViewAction<V>) -> (r: bool)
    ensures
        r == presents(*action),
{
    match action {
        ViewAction::Continue => true,
        _ => false,
    }
}

/// Acts on what the current view asked for: the view that runs next frame,
/// or nothing when the loop is to stop. The current view is consumed, so a
/// replaced view can never run again.
pub fn transition<V>(current: V, action: ViewAction<V>) -> (r: Option<V>)
    ensures
        r == next_view(current, action),
{
    match action {
        ViewAction::Continue => Some(current),
        ViewAction::Quit => None,
        ViewAction::ChangeView(v) => Some(v),
    }
}

/// A change of view hands the next frame to the new view, the frame that
/// asked for it is not shown, and a view that asks for nothing stays.
pub proof fn lemma_change_view_dispatches_new<V>(current: V, new_view: V)
    ensures
        next_view(current, ViewAction::ChangeView(new_view)) == Some(new_view),
        !presents(ViewAction::ChangeView(new_view)),
        next_view(current, ViewAction::Continue) == Some(current),
        presents(ViewAction::<V>::Continue),
        next_view(current, ViewAction::Quit) is None,
{
}

} // verus!
