//! Modifier state and the abstraction over the system input injection backend.

use vstd::prelude::*;

verus! {

/// XKB modifier bit for Shift.
pub const XKB_SHIFT_BIT: u32 = 1;

/// XKB modifier bit for Control.
pub const XKB_CONTROL_BIT: u32 = 4;

/// XKB modifier bit for Mod1 (Alt).
pub const XKB_ALT_BIT: u32 = 8;

/// XKB modifier bit for Mod4 (Super/Logo).
pub const XKB_LOGO_BIT: u32 = 64;

/// A modifier mask compatible with the XKB / Wayland `modifiers()` request.
#[derive(Clone, Copy, Debug, PartialEq, Eq, Structural)]
pub struct ModifierState {
    pub shift: bool,
    pub ctrl: bool,
    pub alt: bool,
    pub logo: bool,
}

/// The XKB mask of a modifier state: the sum of the bits of the held modifiers.
pub open spec fn spec_xkb_mask(m: ModifierState) -> u32 {
    ((if m.shift { XKB_SHIFT_BIT } else { 0u32 }) + (if m.ctrl { XKB_CONTROL_BIT } else { 0u32 })
        + (if m.alt { XKB_ALT_BIT } else { 0u32 }) + (if m.logo { XKB_LOGO_BIT } else { 0u32 })) as u32
}

/// The state with no modifier held.
pub open spec fn spec_no_modifiers() -> ModifierState {
    ModifierState { shift: false, ctrl: false, alt: false, logo: false }
}

/// The state where only Shift may be held.
pub open spec fn spec_shift_only(shift: bool) -> ModifierState {
    ModifierState { shift, ctrl: false, alt: false, logo: false }
}

impl Default for ModifierState {
    /// The state with no modifier held.
    fn default() -> (m: ModifierState)
        ensures
            m == spec_no_modifiers(),
    {
        ModifierState { shift: false, ctrl: false, alt: false, logo: false }
    }
}

impl ModifierState {
    /// The state with no modifier held.
    pub fn none() -> (m: ModifierState)
        ensures
            m == spec_no_modifiers(),
    {
        ModifierState { shift: false, ctrl: false, alt: false, logo: false }
    }

    /// The state where Shift is held exactly when `shift` is true, and no
    /// other modifier is held.
    pub fn shift_only(shift: bool) -> (m: ModifierState)
        ensures
            m == spec_shift_only(shift),
    {
        ModifierState { shift, ctrl: false, alt: false, logo: false }
    }

    /// Return the XKB modifier mask used by `zwp_virtual_keyboard_v1::modifiers`.
    pub fn to_xkb_mask(&self) -> (mask: u32)
        ensures
            mask == spec_xkb_mask(*self),
    {
        let mut mask = 0u32;
        if self.shift {
            mask |= 1u32 << 0u32;
        }
        if self.ctrl {
            mask |= 1u32 << 2u32;
        }
        if self.alt {
            mask |= 1u32 << 3u32;
        }
        if self.logo {
            mask |= 1u32 << 6u32;
        }
        proof {
            lemma_mask_bits(self.shift, self.ctrl, self.alt, self.logo);
        }
        mask
    }
}

/// The mask built with bitwise or equals the sum of the held modifier bits.
proof fn lemma_mask_bits(s: bool, c: bool, a: bool, l: bool)
    ensures
        ({
            let m0: u32 = if s { 0u32 | (1u32 << 0u32) } else { 0u32 };
            let m1: u32 = if c { m0 | (1u32 << 2u32) } else { m0 };
            let m2: u32 = if a { m1 | (1u32 << 3u32) } else { m1 };
            let m3: u32 = if l { m2 | (1u32 << 6u32) } else { m2 };
            m3 == spec_xkb_mask(ModifierState { shift: s, ctrl: c, alt: a, logo: l })
        }),
{
    assert(({
        let m0: u32 = if s { 0u32 | (1u32 << 0u32) } else { 0u32 };
        let m1: u32 = if c { m0 | (1u32 << 2u32) } else { m0 };
        let m2: u32 = if a { m1 | (1u32 << 3u32) } else { m1 };
        let m3: u32 = if l { m2 | (1u32 << 6u32) } else { m2 };
        m3 == ((if s { 1u32 } else { 0u32 }) + (if c { 4u32 } else { 0u32 }) + (if a { 8u32 } else { 0u32 }) + (if l { 64u32 } else { 0u32 })) as u32
    })) by (bit_vector);
}

/// Each modifier owns one bit of the mask: the mask has the Shift, Control,
/// Alt and Logo bits set exactly when the matching modifier is held, and no
/// other bit.
pub proof fn lemma_xkb_mask_bits(m: ModifierState)
    ensures
        (spec_xkb_mask(m) & XKB_SHIFT_BIT != 0) == m.shift,
        (spec_xkb_mask(m) & XKB_CONTROL_BIT != 0) == m.ctrl,
        (spec_xkb_mask(m) & XKB_ALT_BIT != 0) == m.alt,
        (spec_xkb_mask(m) & XKB_LOGO_BIT != 0) == m.logo,
        spec_xkb_mask(m) & !(XKB_SHIFT_BIT | XKB_CONTROL_BIT | XKB_ALT_BIT | XKB_LOGO_BIT) == 0,
{
    let s = m.shift;
    let c = m.ctrl;
    let a = m.alt;
    let l = m.logo;
    let x = spec_xkb_mask(m);
    assert(x == ((if s { 1u32 } else { 0u32 }) + (if c { 4u32 } else { 0u32 }) + (if a { 8u32 } else { 0u32 }) + (if l { 64u32 } else { 0u32 })) as u32);
    assert(x == ((if s { 1u32 } else { 0u32 }) + (if c { 4u32 } else { 0u32 }) + (if a { 8u32 } else { 0u32 }) + (if l { 64u32 } else { 0u32 })) as u32 ==> {
        &&& (x & 1u32 != 0) == s
        &&& (x & 4u32 != 0) == c
        &&& (x & 8u32 != 0) == a
        &&& (x & 64u32 != 0) == l
        &&& x & !(1u32 | 4u32 | 8u32 | 64u32) == 0
    }) by (bit_vector);
}

/// Two modifier states with the same XKB mask are the same state.
pub proof fn lemma_xkb_mask_injective(a: ModifierState, b: ModifierState)
    requires
        spec_xkb_mask(a) == spec_xkb_mask(b),
    ensures
        a == b,
{
    lemma_xkb_mask_bits(a);
    lemma_xkb_mask_bits(b);
}

/// A request to the input injection backend.
#[derive(Clone, Copy, Debug, PartialEq, Eq, Structural)]
pub enum BackendRequest {
    /// Inject a key press.
    Press(u32),
    /// Inject a key release.
    Release(u32),
    /// Change the modifier state.
    Modifiers(ModifierState),
    /// Inject a character that has no physical key.
    Character(char),
    /// Start auto-repeating a held key.
    StartRepeat(u32),
    /// Stop any active key repeat.
    StopRepeat,
}

/// Backend capable of injecting key events into the system.
///
/// A backend is seen through the requests it has been handed so far: each
/// method adds the request it carries out to the end of that history.
pub trait KeyboardBackend: Send + 'static {
    /// The requests this backend has been handed, oldest first.
    spec fn handled(&self) -> Seq<BackendRequest>;

    /// Inject a key press.
    fn press(&mut self, keycode: u32)
        ensures
            final(self).handled() == old(self).handled().push(BackendRequest::Press(keycode)),
    ;

    /// Inject a key release.
    fn release(&mut self, keycode: u32)
        ensures
            final(self).handled() == old(self).handled().push(BackendRequest::Release(keycode)),
    ;

    /// Notify the compositor that the modifier state has changed.
    fn set_modifiers(&mut self, modifiers: ModifierState)
        ensures
            final(self).handled() == old(self).handled().push(BackendRequest::Modifiers(modifiers)),
    ;

    /// Inject a character that has no direct physical key mapping by uploading a
    /// temporary keymap containing only that character.
    fn send_character(&mut self, ch: char)
        ensures
            final(self).handled() == old(self).handled().push(BackendRequest::Character(ch)),
    ;

    /// Start auto-repeating the given keycode while it is held down.
    fn start_repeat(&mut self, keycode: u32)
        ensures
            final(self).handled() == old(self).handled().push(BackendRequest::StartRepeat(keycode)),
    ;

    /// Stop any active key repeat.
    fn stop_repeat(&mut self)
        ensures
            final(self).handled() == old(self).handled().push(BackendRequest::StopRepeat),
    ;
}

/// Hand one request to a backend, through the method that carries it out.
pub fn apply_request<B: KeyboardBackend + ?Sized>(backend: &mut B, request: BackendRequest)
    ensures
        final(backend).handled() == old(backend).handled().push(request),
{
    match request {
        BackendRequest::Press(code) => backend.press(code),
        BackendRequest::Release(code) => backend.release(code),
        BackendRequest::Modifiers(m) => backend.set_modifiers(m),
        BackendRequest::Character(ch) => backend.send_character(ch),
        BackendRequest::StartRepeat(code) => backend.start_repeat(code),
        BackendRequest::StopRepeat => backend.stop_repeat(),
    }
}

/// Hand a sequence of requests to a backend, in order.
pub fn apply_requests<B: KeyboardBackend + ?Sized>(backend: &mut B, requests: &Vec<BackendRequest>)
    ensures
        final(backend).handled() == old(backend).handled() + requests@,
{
    let ghost start = backend.handled();
    let mut i: usize = 0;
    while i < requests.len()
        invariant
            0 <= i <= requests@.len(),
            backend.handled() == start + requests@.take(i as int),
        decreases requests@.len() - i,
    {
        apply_request(backend, requests[i]);
        i = i + 1;
        assert(backend.handled() =~= start + requests@.take(i as int));
    }
    assert(requests@.take(i as int) =~= requests@);
}

/// The modifier state a backend holds after carrying out `requests`, starting
/// from `start`: the last modifier change wins.
pub open spec fn modifiers_after(start: ModifierState, requests: Seq<BackendRequest>) -> ModifierState
    decreases requests.len(),
{
    if requests.len() == 0 {
        start
    } else {
        match requests.last() {
            BackendRequest::Modifiers(m) => m,
            _ => modifiers_after(start, requests.drop_last()),
        }
    }
}

/// Carrying out two sequences of requests one after the other leaves the
/// modifiers the second leaves when started from the state the first left.
pub proof fn lemma_modifiers_after_concat(start: ModifierState, a: Seq<BackendRequest>, b: Seq<BackendRequest>)
    ensures
        modifiers_after(start, a + b) == modifiers_after(modifiers_after(start, a), b),
    decreases b.len(),
{
    if b.len() == 0 {
        assert(a + b =~= a);
    } else {
        assert((a + b).drop_last() =~= a + b.drop_last());
        lemma_modifiers_after_concat(start, a, b.drop_last());
    }
}

#[verifier::external_type_specification]
#[verifier::external_body]
#[verifier::reject_recursive_types(T)]
pub struct ExSender<T>(std::sync::mpsc::Sender<T>);

/// A backend that forwards every request over a channel to the thread that
/// owns the compositor connection.
pub struct RequestSender {
    sender: std::sync::mpsc::Sender<BackendRequest>,
    sent: Ghost<Seq<BackendRequest>>,
}

impl RequestSender {
    /// A backend that forwards over `sender` and has been handed nothing yet.
    pub fn new(sender: std::sync::mpsc::Sender<BackendRequest>) -> (s: RequestSender)
        ensures
            s.handled() == Seq::<BackendRequest>::empty(),
    {
        RequestSender { sender, sent: Ghost(Seq::empty()) }
    }

    /// Calls std's `Sender::send` with `request`, which hands it to the
    /// receiving thread; the history of handed requests grows by it.
    /// Whether it arrives depends on that thread still running, so the
    /// outcome of the send is not stated, and is dropped.
    #[verifier::external_body]
    fn forward(&mut self, request: BackendRequest)
        ensures
            final(self).handled() == old(self).handled().push(request),
    {
        let _ = self.sender.send(request);
    }
}

impl KeyboardBackend for RequestSender {
    closed spec fn handled(&self) -> Seq<BackendRequest> {
        self.sent@
    }

    fn press(&mut self, keycode: u32) {
        self.forward(BackendRequest::Press(keycode));
    }

    fn release(&mut self, keycode: u32) {
        self.forward(BackendRequest::Release(keycode));
    }

    fn set_modifiers(&mut self, modifiers: ModifierState) {
        self.forward(BackendRequest::Modifiers(modifiers));
    }

    fn send_character(&mut self, ch: char) {
        self.forward(BackendRequest::Character(ch));
    }

    fn start_repeat(&mut self, keycode: u32) {
        self.forward(BackendRequest::StartRepeat(keycode));
    }

    fn stop_repeat(&mut self) {
        self.forward(BackendRequest::StopRepeat);
    }
}

} // verus!
