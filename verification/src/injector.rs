//! The key-injection engine of the virtual-keyboard backend: it turns backend
//! requests into the events sent to the compositor, and drives key repeat.
//!
//! Time is given in nanoseconds since the backend started; event timestamps
//! are whole milliseconds of that time.

use vstd::prelude::*;
use crate::backend::{BackendRequest, ModifierState, modifiers_after, spec_xkb_mask};

verus! {

/// Linux evdev scancode of the key that a temporary character keymap binds
/// (XKB keycode 100).
pub const CHARACTER_SCANCODE: u32 = 92;

/// How long a key must be held before it starts repeating (400 ms), in nanoseconds.
pub const REPEAT_INITIAL_DELAY_NS: u64 = 400_000_000;

/// Time between two repeats of a held key (80 ms), in nanoseconds.
pub const REPEAT_INTERVAL_NS: u64 = 80_000_000;

/// An event for the compositor's virtual keyboard.
#[derive(Clone, Copy, Debug, PartialEq, Eq, Structural)]
pub enum WireEvent {
    /// Set the depressed modifier mask (latched, locked and group are 0).
    Modifiers(u32),
    /// A key event with its timestamp and evdev scancode.
    Key { time: u32, code: u32, pressed: bool },
    /// Upload a keymap that binds `CHARACTER_SCANCODE` to this character.
    /// When the upload fails, the events that follow it for the same request
    /// are dropped.
    UploadCharacterKeymap(char),
    /// Upload the default US keymap again.
    RestoreKeymap,
}

/// A key being repeated: its code, when it was last sent, and whether the
/// initial delay is over.
#[derive(Clone, Copy, Debug, PartialEq, Eq, Structural)]
pub struct Repeat {
    pub code: u32,
    pub last_ns: u64,
    pub initial_done: bool,
}

/// The backend's state: the modifiers it last set, and the key it repeats.
#[derive(Clone, Copy, Debug, PartialEq, Eq, Structural)]
pub struct KeyInjector {
    pub current_mods: ModifierState,
    pub repeat: Option<Repeat>,
}

/// The event timestamp of a time: whole milliseconds, wrapping at 2^32.
pub open spec fn spec_event_time(now_ns: u64) -> u32 {
    ((now_ns / 1_000_000) % 0x1_0000_0000) as u32
}

/// Time passed since `since`, zero when `now` is earlier.
pub open spec fn spec_elapsed(now_ns: u64, since_ns: u64) -> int {
    if now_ns >= since_ns { now_ns - since_ns } else { 0 }
}

/// A press and a release of a key at one time.
pub open spec fn spec_key_tap(time: u32, code: u32) -> Seq<WireEvent> {
    seq![WireEvent::Key { time, code, pressed: true }, WireEvent::Key { time, code, pressed: false }]
}

/// The new state and the events of handling one request at time `now_ns`.
pub open spec fn spec_handle_request(s: KeyInjector, req: BackendRequest, now_ns: u64) -> (KeyInjector, Seq<WireEvent>) {
    let time = spec_event_time(now_ns);
    match req {
        BackendRequest::Press(code) => (
            s,
            seq![WireEvent::Modifiers(spec_xkb_mask(s.current_mods)), WireEvent::Key { time, code, pressed: true }],
        ),
        BackendRequest::Release(code) => (s, seq![WireEvent::Key { time, code, pressed: false }]),
        BackendRequest::Modifiers(m) => (
            KeyInjector { current_mods: m, ..s },
            seq![WireEvent::Modifiers(spec_xkb_mask(m))],
        ),
        BackendRequest::Character(ch) => (
            s,
            seq![WireEvent::UploadCharacterKeymap(ch), WireEvent::Modifiers(0)]
                + spec_key_tap(time, CHARACTER_SCANCODE) + seq![WireEvent::RestoreKeymap],
        ),
        BackendRequest::StartRepeat(code) => (
            KeyInjector { repeat: Some(Repeat { code, last_ns: now_ns, initial_done: false }), ..s },
            seq![],
        ),
        BackendRequest::StopRepeat => (KeyInjector { repeat: None, ..s }, seq![]),
    }
}

/// The delay before the next repeat of `r`.
pub open spec fn spec_repeat_threshold(r: Repeat) -> u64 {
    if r.initial_done { REPEAT_INTERVAL_NS } else { REPEAT_INITIAL_DELAY_NS }
}

/// The new state and the events of checking the repeat at time `now_ns`: once
/// the delay is over, the held key is pressed and released again.
pub open spec fn spec_poll_repeat(s: KeyInjector, now_ns: u64) -> (KeyInjector, Seq<WireEvent>) {
    match s.repeat {
        Some(r) => if spec_elapsed(now_ns, r.last_ns) >= spec_repeat_threshold(r) {
            (
                KeyInjector { repeat: Some(Repeat { code: r.code, last_ns: now_ns, initial_done: true }), ..s },
                spec_key_tap(spec_event_time(now_ns), r.code),
            )
        } else {
            (s, seq![])
        },
        None => (s, seq![]),
    }
}

/// The state after handling a sequence of requests, all at time `now_ns`.
pub open spec fn spec_run_requests(s: KeyInjector, reqs: Seq<BackendRequest>, now_ns: u64) -> KeyInjector
    decreases reqs.len(),
{
    if reqs.len() == 0 {
        s
    } else {
        spec_handle_request(spec_run_requests(s, reqs.drop_last(), now_ns), reqs.last(), now_ns).0
    }
}

fn event_time(now_ns: u64) -> (t: u32)
    ensures
        t == spec_event_time(now_ns),
{
    ((now_ns / 1_000_000u64) % 0x1_0000_0000u64) as u32
}

impl KeyInjector {
    /// A backend with no modifier held and no key repeating.
    pub fn new() -> (s: KeyInjector)
        ensures
            s == (KeyInjector { current_mods: crate::backend::spec_no_modifiers(), repeat: None }),
    {
        KeyInjector { current_mods: ModifierState::none(), repeat: None }
    }

    /// Handle one request at time `now_ns` and return the events for the
    /// compositor. A press is preceded by the current modifier mask; a
    /// character without a physical key is typed through a temporary keymap.
    pub fn handle_request(&mut self, req: BackendRequest, now_ns: u64) -> (events: Vec<WireEvent>)
        ensures
            (*final(self), events@) == spec_handle_request(*old(self), req, now_ns),
    {
        let time = event_time(now_ns);
        match req {
            BackendRequest::Press(code) => {
                let mask = self.current_mods.to_xkb_mask();
                let events = vec![WireEvent::Modifiers(mask), WireEvent::Key { time, code, pressed: true }];
                assert(events@ =~= spec_handle_request(*old(self), req, now_ns).1);
                events
            },
            BackendRequest::Release(code) => {
                let events = vec![WireEvent::Key { time, code, pressed: false }];
                assert(events@ =~= spec_handle_request(*old(self), req, now_ns).1);
                events
            },
            BackendRequest::Modifiers(mods) => {
                self.current_mods = mods;
                let mask = self.current_mods.to_xkb_mask();
                let events = vec![WireEvent::Modifiers(mask)];
                assert(events@ =~= spec_handle_request(*old(self), req, now_ns).1);
                events
            },
            BackendRequest::Character(ch) => {
                let events = vec![
                    WireEvent::UploadCharacterKeymap(ch),
                    WireEvent::Modifiers(0),
                    WireEvent::Key { time, code: CHARACTER_SCANCODE, pressed: true },
                    WireEvent::Key { time, code: CHARACTER_SCANCODE, pressed: false },
                    WireEvent::RestoreKeymap,
                ];
                assert(events@ =~= spec_handle_request(*old(self), req, now_ns).1);
                events
            },
            BackendRequest::StartRepeat(code) => {
                self.repeat = Some(Repeat { code, last_ns: now_ns, initial_done: false });
                let events: Vec<WireEvent> = Vec::new();
                assert(events@ =~= Seq::<WireEvent>::empty());
                events
            },
            BackendRequest::StopRepeat => {
                self.repeat = None;
                let events: Vec<WireEvent> = Vec::new();
                assert(events@ =~= Seq::<WireEvent>::empty());
                events
            },
        }
    }

    /// Auto-repeat handling: after the initial delay, and then after every
    /// interval, emit a press/release pair for the held key.
    pub fn poll_repeat(&mut self, now_ns: u64) -> (events: Vec<WireEvent>)
        ensures
            (*final(self), events@) == spec_poll_repeat(*old(self), now_ns),
    {
        match self.repeat {
            Some(r) => {
                let threshold = if r.initial_done { REPEAT_INTERVAL_NS } else { REPEAT_INITIAL_DELAY_NS };
                let elapsed = if now_ns >= r.last_ns { now_ns - r.last_ns } else { 0 };
                if elapsed >= threshold {
                    let time = event_time(now_ns);
                    self.repeat = Some(Repeat { code: r.code, last_ns: now_ns, initial_done: true });
                    let events = vec![
                        WireEvent::Key { time, code: r.code, pressed: true },
                        WireEvent::Key { time, code: r.code, pressed: false },
                    ];
                    assert(events@ =~= spec_key_tap(time, r.code));
                    events
                } else {
                    let events: Vec<WireEvent> = Vec::new();
                    assert(events@ =~= Seq::<WireEvent>::empty());
                    events
                }
            },
            None => {
                let events: Vec<WireEvent> = Vec::new();
                assert(events@ =~= Seq::<WireEvent>::empty());
                events
            },
        }
    }
}

/// The backend's modifiers are those the requests last set: after a sequence
/// of requests, the engine holds the modifier state that `modifiers_after`
/// gives for it.
pub proof fn lemma_run_requests_modifiers(s: KeyInjector, reqs: Seq<BackendRequest>, now_ns: u64)
    ensures
        spec_run_requests(s, reqs, now_ns).current_mods == modifiers_after(s.current_mods, reqs),
    decreases reqs.len(),
{
    if reqs.len() > 0 {
        lemma_run_requests_modifiers(s, reqs.drop_last(), now_ns);
    }
}

/// A key is not repeated before the initial delay after its repeat started.
pub proof fn lemma_no_repeat_before_delay(s: KeyInjector, code: u32, start_ns: u64, now_ns: u64)
    requires
        now_ns < start_ns + REPEAT_INITIAL_DELAY_NS,
    ensures
        ({
            let started = spec_handle_request(s, BackendRequest::StartRepeat(code), start_ns).0;
            spec_poll_repeat(started, now_ns) == (started, Seq::<WireEvent>::empty())
        }),
{
}

/// Once the initial delay is over the held key is repeated, and from then on
/// it is repeated no more often than once per interval.
pub proof fn lemma_repeat_cadence(s: KeyInjector, code: u32, start_ns: u64, t1: u64, t2: u64)
    requires
        start_ns + REPEAT_INITIAL_DELAY_NS <= t1,
    ensures
        ({
            let started = spec_handle_request(s, BackendRequest::StartRepeat(code), start_ns).0;
            let (after1, events1) = spec_poll_repeat(started, t1);
            &&& events1 == spec_key_tap(spec_event_time(t1), code)
            &&& (t1 <= t2 < t1 + REPEAT_INTERVAL_NS ==> spec_poll_repeat(after1, t2).1 == Seq::<WireEvent>::empty())
            &&& (t1 + REPEAT_INTERVAL_NS <= t2 ==> spec_poll_repeat(after1, t2).1 == spec_key_tap(spec_event_time(t2), code))
        }),
{
}

/// After a repeat is stopped, nothing is repeated until one is started again.
pub proof fn lemma_stop_repeat_silences(s: KeyInjector, stop_ns: u64, now_ns: u64)
    ensures
        ({
            let stopped = spec_handle_request(s, BackendRequest::StopRepeat, stop_ns).0;
            spec_poll_repeat(stopped, now_ns) == (stopped, Seq::<WireEvent>::empty())
        }),
{
}

/// Whenever a repeat fires, the held key is pressed and released once at that
/// time, and from then on the repeat runs on the interval: the same key, timed
/// from now, with the initial delay over. A poll that does not fire changes
/// nothing.
pub proof fn lemma_repeat_fires_onto_interval(s: KeyInjector, now_ns: u64)
    requires
        s.repeat is Some,
    ensures
        ({
            let r = s.repeat->Some_0;
            let (after, events) = spec_poll_repeat(s, now_ns);
            &&& after.current_mods == s.current_mods
            &&& (events.len() > 0 ==> {
                &&& after.repeat == Some(Repeat { code: r.code, last_ns: now_ns, initial_done: true })
                &&& events == seq![
                    WireEvent::Key { time: spec_event_time(now_ns), code: r.code, pressed: true },
                    WireEvent::Key { time: spec_event_time(now_ns), code: r.code, pressed: false },
                ]
            })
            &&& (events.len() == 0 ==> after == s)
        }),
{
}

/// Once the initial delay is over, a repeat fires exactly when 80 ms have
/// passed since the last one, and it stays on the 80 ms interval after
/// firing.
pub proof fn lemma_repeat_steady_interval(s: KeyInjector, now_ns: u64)
    requires
        s.repeat is Some,
        s.repeat->Some_0.initial_done,
    ensures
        ({
            let r = s.repeat->Some_0;
            let (after, events) = spec_poll_repeat(s, now_ns);
            &&& (events.len() > 0 <==> now_ns >= r.last_ns + 80_000_000)
            &&& after.repeat is Some
            &&& after.repeat->Some_0.initial_done
            &&& after.repeat->Some_0.code == r.code
        }),
{
}

/// The state after polling the repeat at each of `times` in turn.
pub open spec fn polls_after(s: KeyInjector, times: Seq<u64>) -> KeyInjector
    decreases times.len(),
{
    if times.len() == 0 {
        s
    } else {
        spec_poll_repeat(polls_after(s, times.drop_last()), times.last()).0
    }
}

/// After the first repeat at `t1`, polling every 80 ms fires the held key at
/// each poll: the n-th following repeat comes at `t1 + n * 80 ms`, for every n.
pub proof fn lemma_repeat_every_interval(s: KeyInjector, code: u32, t1: u64, n: nat)
    requires
        s.repeat == Some(Repeat { code, last_ns: t1, initial_done: true }),
        t1 + (n + 1) * 80_000_000 <= u64::MAX,
    ensures
        ({
            let times = Seq::new(n, |k: int| (t1 + (k + 1) * 80_000_000) as u64);
            let after = polls_after(s, times);
            &&& after.repeat == Some(Repeat { code, last_ns: (t1 + n * 80_000_000) as u64, initial_done: true })
            &&& spec_poll_repeat(after, (t1 + (n + 1) * 80_000_000) as u64).1 == spec_key_tap(
                spec_event_time((t1 + (n + 1) * 80_000_000) as u64),
                code,
            )
        }),
    decreases n,
{
    let times = Seq::new(n, |k: int| (t1 + (k + 1) * 80_000_000) as u64);
    if n > 0 {
        lemma_repeat_every_interval(s, code, t1, (n - 1) as nat);
        let prev = Seq::new((n - 1) as nat, |k: int| (t1 + (k + 1) * 80_000_000) as u64);
        assert(times.drop_last() =~= prev);
        assert(times.last() == (t1 + n * 80_000_000) as u64);
    }
}

} // verus!
