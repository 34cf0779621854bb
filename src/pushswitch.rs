use vstd::prelude::*;

verus! {

/// Pin of the button that cycles the sampling interval.
pub const INTERVAL_PIN: u32 = 20;

/// Pin of the button that starts and stops logging.
pub const START_STOP_PIN: u32 = 21;

/// Milliseconds after its first edge at which a press counts as settled.
pub const SETTLE_MS: u64 = 300;

/// One button: whether a debounced press waits to be read, and the time of
/// the first edge of a press that has not settled yet.
#[derive(Clone, Copy, Debug, PartialEq, Eq, Structural)]
pub struct ButtonState {
    pub event: bool,
    pub first_edge: Option<u64>,
}

pub struct PushSwitchView {
    pub interval: ButtonState,
    pub start_stop: ButtonState,
}

/// Whether a press whose first edge came at `first` has settled at `now`.
pub open spec fn settled(first: u64, now: u64) -> bool {
    now > first + SETTLE_MS
}

/// The pending first edge after a wake at `now`, before settling.
pub open spec fn armed(b: ButtonState, edge: bool, now: u64) -> Option<u64> {
    if edge && b.first_edge is None {
        Some(now)
    } else {
        b.first_edge
    }
}

/// Whether a wake at `now` turns the pending press into an event.
pub open spec fn fires(b: ButtonState, edge: bool, now: u64) -> bool {
    armed(b, edge, now) matches Some(t) && settled(t, now)
}

/// A button after one wake at `now`, with or without an edge of its own.
pub open spec fn wake_button(b: ButtonState, edge: bool, now: u64) -> ButtonState {
    if fires(b, edge, now) {
        ButtonState { event: true, first_edge: None }
    } else {
        ButtonState { event: b.event, first_edge: armed(b, edge, now) }
    }
}

/// A button after a run of wakes, each an edge flag and a time.
pub open spec fn run(b: ButtonState, wakes: Seq<(bool, u64)>) -> ButtonState
    decreases wakes.len(),
{
    if wakes.len() == 0 {
        b
    } else {
        run(wake_button(b, wakes[0].0, wakes[0].1), wakes.drop_first())
    }
}

/// How many events a run of wakes produces.
pub open spec fn events(b: ButtonState, wakes: Seq<(bool, u64)>) -> nat
    decreases wakes.len(),
{
    if wakes.len() == 0 {
        0
    } else {
        (if fires(b, wakes[0].0, wakes[0].1) {
            1nat
        } else {
            0nat
        }) + events(wake_button(b, wakes[0].0, wakes[0].1), wakes.drop_first())
    }
}

/// Debounce state of the two buttons.
pub struct PushSwitch {
    interval: ButtonState,
    start_stop: ButtonState,
}

impl View for PushSwitch {
    type V = PushSwitchView;

    closed spec fn view(&self) -> PushSwitchView {
        PushSwitchView { interval: self.interval, start_stop: self.start_stop }
    }
}

fn wake_one(b: ButtonState, edge: bool, now: u64) -> (r: ButtonState)
    ensures
        r == wake_button(b, edge, now),
{
    let first = if edge && b.first_edge.is_none() {
        Some(now)
    } else {
        b.first_edge
    };
    match first {
        Some(t) => {
            if now > t && now - t > SETTLE_MS {
                ButtonState { event: true, first_edge: None }
            } else {
                ButtonState { event: b.event, first_edge: first }
            }
        },
        None => ButtonState { event: b.event, first_edge: None },
    }
}

impl PushSwitch {
    pub fn new() -> (r: PushSwitch)
        ensures
            r@.interval == (ButtonState { event: false, first_edge: None }),
            r@.start_stop == (ButtonState { event: false, first_edge: None }),
    {
        let idle = ButtonState { event: false, first_edge: None };
        PushSwitch { interval: idle, start_stop: idle }
    }

    /// One wake of the debounce loop at `now` (milliseconds), after an edge
    /// on pin `edge` or after a timeout (`None`).
    pub fn on_wake(&mut self, edge: Option<u32>, now: u64)
        ensures
            final(self)@.interval == wake_button(old(self)@.interval, edge == Some(INTERVAL_PIN), now),
            final(self)@.start_stop == wake_button(old(self)@.start_stop, edge == Some(START_STOP_PIN), now),
    {
        let on_interval = match edge {
            Some(p) => p == INTERVAL_PIN,
            None => false,
        };
        let on_start_stop = match edge {
            Some(p) => p == START_STOP_PIN,
            None => false,
        };
        self.interval = wake_one(self.interval, on_interval, now);
        self.start_stop = wake_one(self.start_stop, on_start_stop, now);
    }

    /// Reads and clears the event of the button on pin `gpio`; other pins
    /// have no events.
    pub fn get_gpio_state(&mut self, gpio: u32) -> (r: bool)
        ensures
            gpio == INTERVAL_PIN ==> r == old(self)@.interval.event
                && final(self)@.interval == (ButtonState { event: false, ..old(self)@.interval })
                && final(self)@.start_stop == old(self)@.start_stop,
            gpio == START_STOP_PIN ==> r == old(self)@.start_stop.event
                && final(self)@.start_stop == (ButtonState { event: false, ..old(self)@.start_stop })
                && final(self)@.interval == old(self)@.interval,
            gpio != INTERVAL_PIN && gpio != START_STOP_PIN ==> !r && final(self)@ == old(self)@,
    {
        if gpio == INTERVAL_PIN {
            let ret = self.interval.event;
            self.interval.event = false;
            ret
        } else if gpio == START_STOP_PIN {
            let ret = self.start_stop.event;
            self.start_stop.event = false;
            ret
        } else {
            false
        }
    }
}

/// While a press is pending from `t0`, wakes that come no later than
/// `t0 + SETTLE_MS`, with or without further edges, produce no event and
/// keep the press pending.
pub proof fn lemma_bounce_is_absorbed(b: ButtonState, t0: u64, wakes: Seq<(bool, u64)>)
    requires
        b.first_edge == Some(t0),
        forall|i: int| 0 <= i < wakes.len() ==> wakes[i].1 <= t0 + SETTLE_MS,
    ensures
        events(b, wakes) == 0,
        run(b, wakes) == b,
    decreases wakes.len(),
{
    if wakes.len() > 0 {
        let rest = wakes.drop_first();
        assert(wake_button(b, wakes[0].0, wakes[0].1) == b);
        assert forall|i: int| 0 <= i < rest.len() implies rest[i].1 <= t0 + SETTLE_MS by {
            assert(rest[i] == wakes[i + 1]);
        }
        lemma_bounce_is_absorbed(b, t0, rest);
    }
}

/// A press is one event: an edge at `t0` on an idle button, any wakes up to
/// `t0 + SETTLE_MS` (further bouncing edges, or none while the button is
/// held), then one wake after `t0 + SETTLE_MS`, produce exactly one event,
/// which is then waiting to be read, with no press pending.
pub proof fn lemma_press_gives_one_event(
    b: ButtonState,
    t0: u64,
    bounce: Seq<(bool, u64)>,
    last: (bool, u64),
)
    requires
        b.first_edge is None,
        forall|i: int| 0 <= i < bounce.len() ==> bounce[i].1 <= t0 + SETTLE_MS,
        last.1 > t0 + SETTLE_MS,
    ensures
        events(b, seq![(true, t0)] + bounce + seq![last]) == 1,
        run(b, seq![(true, t0)] + bounce + seq![last]) == (ButtonState { event: true, first_edge: None }),
{
    let wakes = seq![(true, t0)] + bounce + seq![last];
    let pressed = ButtonState { event: b.event, first_edge: Some(t0) };
    assert(wake_button(b, true, t0) == pressed);
    let tail = bounce + seq![last];
    assert(wakes.drop_first() =~= tail);
    lemma_split_run(pressed, bounce, seq![last]);
    lemma_bounce_is_absorbed(pressed, t0, bounce);
    let done = ButtonState { event: true, first_edge: None };
    assert(wake_button(pressed, last.0, last.1) == done);
    assert(seq![last].drop_first() =~= Seq::<(bool, u64)>::empty());
    assert(seq![last][0] == last);
    assert(events(done, Seq::<(bool, u64)>::empty()) == 0);
    assert(run(done, Seq::<(bool, u64)>::empty()) == done);
    assert(events(pressed, seq![last]) == 1);
    assert(run(pressed, seq![last]) == done);
}

proof fn lemma_split_run(b: ButtonState, xs: Seq<(bool, u64)>, ys: Seq<(bool, u64)>)
    ensures
        events(b, xs + ys) == events(b, xs) + events(run(b, xs), ys),
        run(b, xs + ys) == run(run(b, xs), ys),
    decreases xs.len(),
{
    if xs.len() == 0 {
        assert(xs + ys =~= ys);
    } else {
        assert((xs + ys).drop_first() =~= xs.drop_first() + ys);
        lemma_split_run(wake_button(b, xs[0].0, xs[0].1), xs.drop_first(), ys);
    }
}

} // verus!
