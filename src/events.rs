use vstd::prelude::*;

verus! {

/// How many keys are tracked.
pub const KEY_COUNT: usize = 7;

/// The tracked keys.
#[derive(Clone, Copy, Debug, PartialEq, Eq, Structural)]
pub enum Key {
    Escape,
    Up,
    Down,
    Left,
    Right,
    Space,
    Enter,
}

impl Key {
    pub open spec fn slot_spec(self) -> int {
        match self {
            Key::Escape => 0,
            Key::Up => 1,
            Key::Down => 2,
            Key::Left => 3,
            Key::Right => 4,
            Key::Space => 5,
            Key::Enter => 6,
        }
    }

    /// The key's place in the state tables.
    pub fn slot(self) -> (r: usize)
        ensures
            r == self.slot_spec(),
            r < KEY_COUNT,
    {
        match self {
            Key::Escape => 0,
            Key::Up => 1,
            Key::Down => 2,
            Key::Left => 3,
            Key::Right => 4,
            Key::Space => 5,
            Key::Enter => 6,
        }
    }
}

/// One input event, as the backend's queue hands it over.
#[derive(Clone, Copy, Debug, PartialEq, Eq, Structural)]
pub enum InputEvent {
    KeyDown(Key),
    KeyUp(Key),
    /// The window was asked to close.
    Quit,
    /// Anything that does not concern the tracked state.
    Other,
}

/// What a state holds: for each key whether it is down now and whether it
/// was down at the refresh before, and whether quitting was asked for.
pub struct EventStateView {
    pub down: Seq<bool>,
    pub before: Seq<bool>,
    pub quit: bool,
}

/// The key table after one event.
pub open spec fn apply_event(down: Seq<bool>, e: InputEvent) -> Seq<bool> {
    match e {
        InputEvent::KeyDown(k) => down.update(k.slot_spec(), true),
        InputEvent::KeyUp(k) => down.update(k.slot_spec(), false),
        _ => down,
    }
}

/// The key table after the events, in the order given.
pub open spec fn apply_events(down: Seq<bool>, events: Seq<InputEvent>) -> Seq<bool>
    decreases events.len(),
{
    if events.len() == 0 {
        down
    } else {
        apply_event(apply_events(down, events.drop_last()), events.last())
    }
}

/// Whether the events hold a request to close the window.
pub open spec fn has_quit(events: Seq<InputEvent>) -> bool {
    exists|i: int| 0 <= i < events.len() && events[i] is Quit
}

/// The key went down between the previous refresh and the last one.
pub open spec fn pressed_spec(v: EventStateView, k: Key) -> bool {
    v.down[k.slot_spec()] && !v.before[k.slot_spec()]
}

/// The state after a refresh that drained `events` from a state `v`.
pub open spec fn next_state(v: EventStateView, events: Seq<InputEvent>) -> EventStateView {
    let down = apply_events(v.down, events);
    EventStateView {
        down,
        before: v.down,
        quit: has_quit(events) || (down[Key::Escape.slot_spec()] && !v.down[Key::Escape.slot_spec()]),
    }
}

/// The input as it stands for one frame: it changes only at `refresh`, once
/// per frame, so every read during a frame sees the same thing.
pub struct EventState {
    down: Vec<bool>,
    before: Vec<bool>,
    quit: bool,
}

impl View for EventState {
    type V = EventStateView;

    closed spec fn view(&self) -> EventStateView {
        EventStateView { down: self.down@, before: self.before@, quit: self.quit }
    }
}

impl EventState {
    pub closed spec fn wf(&self) -> bool {
        self.down@.len() == KEY_COUNT && self.before@.len() == KEY_COUNT
    }

    /// No key down, none pressed, no quit.
    pub fn new() -> (r: EventState)
        ensures
            r.wf(),
            r@.down.len() == KEY_COUNT && r@.before.len() == KEY_COUNT,
            r@.down == Seq::new(KEY_COUNT as nat, |i: int| false),
            r@.before == Seq::new(KEY_COUNT as nat, |i: int| false),
            !r@.quit,
    {
        let down: Vec<bool> = vec![false; KEY_COUNT];
        let before: Vec<bool> = vec![false; KEY_COUNT];
        let r = EventState { down, before, quit: false };
        assert(r@.down =~= Seq::new(KEY_COUNT as nat, |i: int| false));
        assert(r@.before =~= Seq::new(KEY_COUNT as nat, |i: int| false));
        r
    }

    /// Takes in the events that came since the last refresh, in order: the
    /// key table as it stood becomes the previous one, each key event sets
    /// its key, and quitting is asked for by a close request or by pressing
    /// Escape.
    pub fn refresh(&mut self, events: &Vec<InputEvent>)
        requires
            old(self).wf(),
        ensures
            final(self).wf(),
            final(self)@.down.len() == KEY_COUNT && final(self)@.before.len() == KEY_COUNT,
            final(self)@ == next_state(old(self)@, events@),
    {
        let mut down: Vec<bool> = self.down.clone();
        let mut quit: bool = false;
        let mut i: usize = 0;
        while i < events.len()
            invariant
                self.wf(),
                i <= events@.len(),
                down@.len() == KEY_COUNT,
                down@ == apply_events(self.down@, events@.take(i as int)),
                quit == has_quit(events@.take(i as int)),
            decreases events@.len() - i,
        {
            let e = events[i];
            assert(events@.take(i as int + 1).drop_last() =~= events@.take(i as int));
            match e {
                InputEvent::KeyDown(k) => {
                    down.set(k.slot(), true);
                },
                InputEvent::KeyUp(k) => {
                    down.set(k.slot(), false);
                },
                InputEvent::Quit => {
                    quit = true;
                },
                InputEvent::Other => {},
            }
            proof {
                let t = events@.take(i as int + 1);
                if has_quit(t) && !has_quit(events@.take(i as int)) {
                    let j = choose|j: int| 0 <= j < t.len() && t[j] is Quit;
                    assert(j == i);
                }
                if e is Quit {
                    assert(t[i as int] is Quit);
                }
            }
            i = i + 1;
        }
        assert(events@.take(events@.len() as int) =~= events@);
        let esc: usize = Key::Escape.slot();
        let escape_pressed: bool = down[esc] && !self.down[esc];
        let prev: Vec<bool> = self.down.clone();
        self.before = prev;
        self.down = down;
        self.quit = quit || escape_pressed;
    }

    /// Whether `k` is down now.
    pub fn is_down(&self, k: Key) -> (r: bool)
        requires
            self.wf(),
        ensures
            r == self@.down[k.slot_spec()],
    {
        self.down[k.slot()]
    }

    /// Whether `k` went down at the last refresh: it is down now and was not
    /// at the refresh before. A key held across refreshes is not pressed.
    pub fn pressed(&self, k: Key) -> (r: bool)
        requires
            self.wf(),
        ensures
            r == pressed_spec(self@, k),
    {
        self.down[k.slot()] && !self.before[k.slot()]
    }

    /// Whether quitting was asked for at the last refresh.
    pub fn quit(&self) -> (r: bool)
        ensures
            r == self@.quit,
    {
        self.quit
    }
}

/// A key counts as pressed on the one refresh at which it goes from up to
/// down, and on no other: not while it stays up, not while it stays down.
pub proof fn lemma_pressed_only_on_rising_edge(v: EventStateView, events: Seq<InputEvent>, k: Key)
    ensures
        pressed_spec(next_state(v, events), k) <==> (!v.down[k.slot_spec()] && next_state(
            v,
            events,
        ).down[k.slot_spec()]),
        v.down[k.slot_spec()] ==> !pressed_spec(next_state(v, events), k),
        !next_state(v, events).down[k.slot_spec()] ==> !pressed_spec(next_state(v, events), k),
{
}

} // verus!
