//! What each key action asks of the injection backend, and how it changes the
//! keyboard's state.

use vstd::prelude::*;
use crate::backend::{BackendRequest, ModifierState, lemma_modifiers_after_concat, modifiers_after, spec_shift_only};
use crate::keycodes::{lemma_digit_codes, lemma_letter_case_same_key, lemma_needs_shift_exactly, spec_to_ascii_uppercase, KEY_BACKSPACE, KEY_ENTER, KEY_SPACE, char_needs_shift, char_to_event_code, is_ascii_uppercase, spec_char_needs_shift, spec_char_to_event_code, spec_is_ascii_uppercase};
use crate::layout::{ActionView, KeyAction};
use crate::state::{KeyboardState, TouchPhase};

verus! {

broadcast use vstd::string::group_string_axioms;

/// Press and release a physical key.
pub open spec fn spec_physical_key(code: u32) -> Seq<BackendRequest> {
    seq![BackendRequest::Press(code), BackendRequest::Release(code)]
}

/// Whether typing `ch` needs Shift held on the US layout.
pub open spec fn spec_needs_shift(ch: char) -> bool {
    spec_is_ascii_uppercase(ch) || spec_char_needs_shift(ch)
}

/// The requests that type `ch` when the keyboard's shift state is `shifted`:
/// Shift is pressed for the key if the character needs it and the keyboard is
/// not shifted, and restored afterwards; a character with a physical key is
/// pressed and released, any other one is sent as a character.
pub open spec fn spec_key_press(ch: char, shifted: bool) -> Seq<BackendRequest> {
    let effective = shifted || spec_needs_shift(ch);
    let change = effective != shifted;
    let before: Seq<BackendRequest> = if change {
        seq![BackendRequest::Modifiers(spec_shift_only(effective))]
    } else {
        seq![]
    };
    let key = match spec_char_to_event_code(ch) {
        Some(code) => spec_physical_key(code),
        None => seq![BackendRequest::Character(ch)],
    };
    let after: Seq<BackendRequest> = if change {
        seq![BackendRequest::Modifiers(spec_shift_only(shifted))]
    } else {
        seq![]
    };
    before + key + after
}

/// The requests that type each character of `text` in turn.
pub open spec fn spec_text_press(text: Seq<char>, shifted: bool) -> Seq<BackendRequest>
    decreases text.len(),
{
    if text.len() == 0 {
        seq![]
    } else {
        spec_text_press(text.drop_last(), shifted) + spec_key_press(text.last(), shifted)
    }
}

/// The state after an action, the requests it makes, and whether the keyboard
/// must be redrawn.
pub open spec fn spec_handle_action(s: KeyboardState, a: ActionView) -> (KeyboardState, Seq<BackendRequest>, bool) {
    match a {
        ActionView::Shift => (
            KeyboardState { shifted: !s.shifted, ..s },
            seq![BackendRequest::Modifiers(spec_shift_only(!s.shifted))],
            true,
        ),
        ActionView::SwitchPage(p) => (KeyboardState { page: p, ..s }, seq![], true),
        ActionView::Char(c) => (s, spec_key_press(c, s.shifted), false),
        ActionView::Text(t) => (s, spec_text_press(t, s.shifted), false),
        ActionView::Space => (s, spec_physical_key(KEY_SPACE), false),
        ActionView::Enter => (s, spec_physical_key(KEY_ENTER), false),
        ActionView::Backspace => (s, spec_physical_key(KEY_BACKSPACE), false),
    }
}

/// The requests that press and release a physical key.
pub fn send_physical_key(code: u32) -> (requests: Vec<BackendRequest>)
    ensures
        requests@ == spec_physical_key(code),
{
    let requests = vec![BackendRequest::Press(code), BackendRequest::Release(code)];
    assert(requests@ =~= spec_physical_key(code));
    requests
}

/// Append the requests that type `ch` to `requests`.
fn push_key_press(requests: &mut Vec<BackendRequest>, ch: char, shifted: bool)
    ensures
        final(requests)@ == old(requests)@ + spec_key_press(ch, shifted),
{
    let needs_shift = is_ascii_uppercase(ch) || char_needs_shift(ch);
    let effective_shift = shifted || needs_shift;
    let ghost start = requests@;
    let ghost before: Seq<BackendRequest> = if effective_shift != shifted {
        seq![BackendRequest::Modifiers(spec_shift_only(effective_shift))]
    } else {
        seq![]
    };
    let ghost key = match spec_char_to_event_code(ch) {
        Some(code) => spec_physical_key(code),
        None => seq![BackendRequest::Character(ch)],
    };
    if effective_shift != shifted {
        requests.push(BackendRequest::Modifiers(ModifierState::shift_only(effective_shift)));
    }
    assert(requests@ =~= start + before);
    match char_to_event_code(ch) {
        Some(code) => {
            requests.push(BackendRequest::Press(code));
            requests.push(BackendRequest::Release(code));
        },
        None => {
            requests.push(BackendRequest::Character(ch));
        },
    }
    assert(requests@ =~= start + before + key);
    if effective_shift != shifted {
        requests.push(BackendRequest::Modifiers(ModifierState::shift_only(shifted)));
    }
    assert(requests@ =~= start + spec_key_press(ch, shifted));
}

/// The requests that type a printable character. If the character maps to a
/// physical key that key is used; otherwise the character is sent directly.
/// Upper-case letters and the shifted US symbols are typed with Shift held,
/// which is restored afterwards.
pub fn send_key_press(ch: char, shifted: bool) -> (requests: Vec<BackendRequest>)
    ensures
        requests@ == spec_key_press(ch, shifted),
{
    let mut requests: Vec<BackendRequest> = Vec::new();
    push_key_press(&mut requests, ch, shifted);
    assert(requests@ =~= spec_key_press(ch, shifted));
    requests
}

/// The requests that type every character of `text`.
pub fn send_text(text: &str, shifted: bool) -> (requests: Vec<BackendRequest>)
    ensures
        requests@ == spec_text_press(text@, shifted),
{
    let mut requests: Vec<BackendRequest> = Vec::new();
    for ch in it: text.chars()
        invariant
            it.seq() == text@,
            requests@ == spec_text_press(text@.take(it.index() as int), shifted),
    {
        proof {
            let i = it.index() as int;
            assert(text@.take(i + 1).drop_last() =~= text@.take(i));
            assert(text@.take(i + 1).last() == ch);
        }
        push_key_press(&mut requests, ch, shifted);
    }
    assert(text@.take(text@.len() as int) =~= text@);
    requests
}

/// Carry out a key action: update the keyboard state and return the requests
/// for the backend, with whether the keyboard must be redrawn.
pub fn handle_action(state: &mut KeyboardState, action: &KeyAction) -> (out: (Vec<BackendRequest>, bool))
    ensures
        (*final(state), out.0@, out.1) == spec_handle_action(*old(state), action@),
{
    match *action {
        KeyAction::Shift => {
            state.toggle_shift();
            let requests = vec![BackendRequest::Modifiers(ModifierState::shift_only(state.shifted))];
            assert(requests@ =~= seq![BackendRequest::Modifiers(spec_shift_only(state.shifted))]);
            (requests, true)
        },
        KeyAction::SwitchPage(page) => {
            state.set_page(page);
            let requests: Vec<BackendRequest> = Vec::new();
            assert(requests@ =~= Seq::<BackendRequest>::empty());
            (requests, true)
        },
        KeyAction::Char(ch) => (send_key_press(ch, state.shifted), false),
        KeyAction::Text(text) => (send_text(text, state.shifted), false),
        KeyAction::Space => (send_physical_key(KEY_SPACE), false),
        KeyAction::Enter => (send_physical_key(KEY_ENTER), false),
        KeyAction::Backspace => (send_physical_key(KEY_BACKSPACE), false),
    }
}

/// What a touch on the backspace key does: whether it fires the backspace
/// action, and the repeat request that follows. A touch that starts fires the
/// key once and starts repeating it; a touch that ends or is cancelled stops
/// the repeat.
pub fn backspace_touch(phase: TouchPhase) -> (out: (bool, Option<BackendRequest>))
    ensures
        out == (match phase {
            TouchPhase::Started => (true, Some(BackendRequest::StartRepeat(KEY_BACKSPACE))),
            TouchPhase::Moved => (false, None),
            TouchPhase::Ended | TouchPhase::Cancelled => (false, Some(BackendRequest::StopRepeat)),
        }),
{
    match phase {
        TouchPhase::Started => (true, Some(BackendRequest::StartRepeat(KEY_BACKSPACE))),
        TouchPhase::Moved => (false, None),
        TouchPhase::Ended | TouchPhase::Cancelled => (false, Some(BackendRequest::StopRepeat)),
    }
}

/// Every press is followed at once by the release of the same key, and every
/// release comes right after the press of its key.
pub open spec fn keys_paired(reqs: Seq<BackendRequest>) -> bool {
    &&& forall|k: int| 0 <= k < reqs.len() && (#[trigger] reqs[k]) is Press ==>
        k + 1 < reqs.len() && reqs[k + 1] == BackendRequest::Release(reqs[k]->Press_0)
    &&& forall|k: int| 0 <= k < reqs.len() && (#[trigger] reqs[k]) is Release ==>
        k > 0 && reqs[k - 1] == BackendRequest::Press(reqs[k]->Release_0)
}

proof fn lemma_keys_paired_concat(a: Seq<BackendRequest>, b: Seq<BackendRequest>)
    requires
        keys_paired(a),
        keys_paired(b),
    ensures
        keys_paired(a + b),
{
    let c = a + b;
    assert forall|k: int| 0 <= k < c.len() && (#[trigger] c[k]) is Press implies
        k + 1 < c.len() && c[k + 1] == BackendRequest::Release(c[k]->Press_0) by {
        if k < a.len() {
            assert(a[k] is Press);
        } else {
            assert(b[k - a.len()] is Press);
        }
    }
    assert forall|k: int| 0 <= k < c.len() && (#[trigger] c[k]) is Release implies
        k > 0 && c[k - 1] == BackendRequest::Press(c[k]->Release_0) by {
        if k < a.len() {
            assert(a[k] is Release);
        } else {
            assert(b[k - a.len()] is Release);
        }
    }
}

/// Typing a character presses and releases its key in pairs: no key is left
/// held, and nothing is released that was not pressed.
pub proof fn lemma_key_press_keys_paired(ch: char, shifted: bool)
    ensures
        keys_paired(spec_key_press(ch, shifted)),
{
    let reqs = spec_key_press(ch, shifted);
    assert(keys_paired(reqs));
}

/// Typing a text presses and releases every key in pairs.
pub proof fn lemma_text_press_keys_paired(text: Seq<char>, shifted: bool)
    ensures
        keys_paired(spec_text_press(text, shifted)),
    decreases text.len(),
{
    if text.len() > 0 {
        lemma_text_press_keys_paired(text.drop_last(), shifted);
        lemma_key_press_keys_paired(text.last(), shifted);
        lemma_keys_paired_concat(spec_text_press(text.drop_last(), shifted), spec_key_press(text.last(), shifted));
    } else {
        assert(keys_paired(spec_text_press(text, shifted)));
    }
}

/// Every key action presses and releases keys in pairs.
pub proof fn lemma_handle_action_keys_paired(s: KeyboardState, a: ActionView)
    ensures
        keys_paired(spec_handle_action(s, a).1),
{
    match a {
        ActionView::Char(c) => lemma_key_press_keys_paired(c, s.shifted),
        ActionView::Text(t) => lemma_text_press_keys_paired(t, s.shifted),
        _ => {
            let reqs = spec_handle_action(s, a).1;
            assert(keys_paired(reqs));
        },
    }
}

/// Typing a character leaves the backend's modifiers where the keyboard's
/// shift state puts them.
pub proof fn lemma_key_press_restores_modifiers(ch: char, shifted: bool)
    ensures
        modifiers_after(spec_shift_only(shifted), spec_key_press(ch, shifted)) == spec_shift_only(shifted),
{
    let reqs = spec_key_press(ch, shifted);
    let start = spec_shift_only(shifted);
    let effective = shifted || spec_needs_shift(ch);
    if effective != shifted {
        assert(reqs.last() == BackendRequest::Modifiers(spec_shift_only(shifted)));
        assert(modifiers_after(start, reqs) == spec_shift_only(shifted));
    } else {
        assert forall|i: int| 0 <= i < reqs.len() implies !((#[trigger] reqs[i]) is Modifiers) by {
            match spec_char_to_event_code(ch) {
                Some(code) => {
                    assert(reqs =~= spec_physical_key(code));
                },
                None => {
                    assert(reqs =~= seq![BackendRequest::Character(ch)]);
                },
            }
        }
        lemma_no_modifier_change(start, reqs);
    }
}

/// While the key of a character is pressed (or the character is sent), Shift
/// is held exactly when the keyboard is shifted or the character needs it, and
/// no other modifier is held.
pub proof fn lemma_key_press_shift_held(ch: char, shifted: bool, k: int)
    requires
        0 <= k < spec_key_press(ch, shifted).len(),
        spec_key_press(ch, shifted)[k] is Press || spec_key_press(ch, shifted)[k] is Character,
    ensures
        modifiers_after(spec_shift_only(shifted), spec_key_press(ch, shifted).take(k))
            == spec_shift_only(shifted || spec_needs_shift(ch)),
{
    let reqs = spec_key_press(ch, shifted);
    let start = spec_shift_only(shifted);
    let effective = shifted || spec_needs_shift(ch);
    let t = reqs.take(k);
    if effective != shifted {
        assert(k >= 1);
        assert(t =~= seq![BackendRequest::Modifiers(spec_shift_only(effective))] + t.subrange(1, k));
        lemma_modifiers_after_concat(start, seq![BackendRequest::Modifiers(spec_shift_only(effective))], t.subrange(1, k));
        let rest = t.subrange(1, k);
        assert(seq![BackendRequest::Modifiers(spec_shift_only(effective))].drop_last() =~= Seq::<BackendRequest>::empty());
        lemma_no_modifier_change(spec_shift_only(effective), rest);
    } else {
        lemma_no_modifier_change(start, t);
    }
}

/// A sequence of requests with no modifier change leaves the modifiers alone.
proof fn lemma_no_modifier_change(start: ModifierState, reqs: Seq<BackendRequest>)
    requires
        forall|i: int| 0 <= i < reqs.len() ==> !((#[trigger] reqs[i]) is Modifiers),
    ensures
        modifiers_after(start, reqs) == start,
    decreases reqs.len(),
{
    if reqs.len() > 0 {
        assert(!(reqs[reqs.len() - 1] is Modifiers));
        lemma_no_modifier_change(start, reqs.drop_last());
    }
}

/// Typing a text leaves the backend's modifiers where the keyboard's shift
/// state puts them.
pub proof fn lemma_text_press_restores_modifiers(text: Seq<char>, shifted: bool)
    ensures
        modifiers_after(spec_shift_only(shifted), spec_text_press(text, shifted)) == spec_shift_only(shifted),
    decreases text.len(),
{
    if text.len() > 0 {
        lemma_text_press_restores_modifiers(text.drop_last(), shifted);
        lemma_key_press_restores_modifiers(text.last(), shifted);
        lemma_modifiers_after_concat(
            spec_shift_only(shifted),
            spec_text_press(text.drop_last(), shifted),
            spec_key_press(text.last(), shifted),
        );
    }
}

/// The backend's modifiers follow the keyboard: if they agreed with the
/// keyboard's shift state before an action, they agree after it.
pub proof fn lemma_handle_action_tracks_shift(s: KeyboardState, a: ActionView)
    ensures
        modifiers_after(spec_shift_only(s.shifted), spec_handle_action(s, a).1)
            == spec_shift_only(spec_handle_action(s, a).0.shifted),
{
    let start = spec_shift_only(s.shifted);
    let reqs = spec_handle_action(s, a).1;
    match a {
        ActionView::Char(c) => {
            lemma_key_press_restores_modifiers(c, s.shifted);
            assert(reqs == spec_key_press(c, s.shifted));
        },
        ActionView::Text(t) => {
            lemma_text_press_restores_modifiers(t, s.shifted);
            assert(reqs == spec_text_press(t, s.shifted));
        },
        ActionView::Shift => {},
        ActionView::SwitchPage(p) => {
            assert(reqs.len() == 0);
        },
        _ => {
            assert(forall|i: int| 0 <= i < reqs.len() ==> !((#[trigger] reqs[i]) is Modifiers));
            lemma_no_modifier_change(start, reqs);
        },
    }
}

/// Only the Shift and page keys change the keyboard's state, and only they
/// ask for a redraw; a page key shows its page and keeps the shift state.
pub proof fn lemma_handle_action_state(s: KeyboardState, a: ActionView)
    ensures
        spec_handle_action(s, a).2 <==> (a is Shift || a is SwitchPage),
        !(a is Shift || a is SwitchPage) ==> spec_handle_action(s, a).0 == s,
        a is SwitchPage ==> spec_handle_action(s, a).0 == (KeyboardState { page: a->SwitchPage_0, ..s }),
        a is Shift ==> spec_handle_action(s, a).0 == (KeyboardState { shifted: !s.shifted, ..s }),
{
}

/// Pressing Shift twice brings the keyboard back to its state, and leaves the
/// backend's modifiers as they were.
pub proof fn lemma_shift_twice(s: KeyboardState)
    ensures
        ({
            let (s1, r1, _) = spec_handle_action(s, ActionView::Shift);
            let (s2, r2, _) = spec_handle_action(s1, ActionView::Shift);
            &&& s2 == s
            &&& modifiers_after(spec_shift_only(s.shifted), r1 + r2) == spec_shift_only(s.shifted)
        }),
{
    let (s1, r1, _) = spec_handle_action(s, ActionView::Shift);
    let (s2, r2, _) = spec_handle_action(s1, ActionView::Shift);
    lemma_modifiers_after_concat(spec_shift_only(s.shifted), r1, r2);
}

/// When the keyboard is already shifted, typing a character leaves the
/// modifier state alone.
pub proof fn lemma_shifted_key_press_keeps_modifiers(ch: char)
    ensures
        forall|k: int| 0 <= k < spec_key_press(ch, true).len() ==> !((#[trigger] spec_key_press(ch, true)[k]) is Modifiers),
{
    let reqs = spec_key_press(ch, true);
    match spec_char_to_event_code(ch) {
        Some(code) => assert(reqs =~= spec_physical_key(code)),
        None => assert(reqs =~= seq![BackendRequest::Character(ch)]),
    }
}

/// A text of one character is typed exactly as that character's key.
pub proof fn lemma_single_char_text(ch: char, shifted: bool)
    ensures
        spec_text_press(seq![ch], shifted) == spec_key_press(ch, shifted),
{
    let one = seq![ch];
    assert(one.drop_last() =~= Seq::<char>::empty());
    assert(one.last() == ch);
    assert(spec_text_press(one.drop_last(), shifted) =~= Seq::<BackendRequest>::empty());
    assert(spec_text_press(one, shifted) == spec_text_press(one.drop_last(), shifted) + spec_key_press(one.last(), shifted));
    assert(Seq::<BackendRequest>::empty() + spec_key_press(ch, shifted) =~= spec_key_press(ch, shifted));
}

/// A digit is typed by pressing and releasing its own number-row key, with no
/// modifier change, whatever the shift state ('1' to '9' are codes 2 to 10,
/// '0' is code 11).
pub proof fn lemma_digit_typed_plain(d: char, shifted: bool)
    requires
        '0' <= d <= '9',
    ensures
        ({
            let code: u32 = if d == '0' { 11u32 } else { ((d as u32) - 47) as u32 };
            spec_key_press(d, shifted) == seq![BackendRequest::Press(code), BackendRequest::Release(code)]
        }),
{
    lemma_digit_codes(d);
    lemma_needs_shift_exactly(d);
    let code: u32 = if d == '0' { 11u32 } else { ((d as u32) - 47) as u32 };
    assert(spec_key_press(d, shifted) =~= seq![BackendRequest::Press(code), BackendRequest::Release(code)]);
}

/// A lower-case letter typed while unshifted is one press and release of its
/// key; its upper-case form is the same key with Shift held around it and
/// released afterwards.
pub proof fn lemma_letter_typed(c: char)
    requires
        'a' <= c <= 'z',
    ensures
        ({
            let code = spec_char_to_event_code(c)->Some_0;
            let upper = spec_to_ascii_uppercase(c);
            &&& spec_char_to_event_code(c) is Some
            &&& spec_key_press(c, false) == seq![BackendRequest::Press(code), BackendRequest::Release(code)]
            &&& spec_key_press(upper, false) == seq![
                BackendRequest::Modifiers(ModifierState { shift: true, ctrl: false, alt: false, logo: false }),
                BackendRequest::Press(code),
                BackendRequest::Release(code),
                BackendRequest::Modifiers(ModifierState { shift: false, ctrl: false, alt: false, logo: false }),
            ]
        }),
{
    lemma_letter_case_same_key(c);
    let code = spec_char_to_event_code(c)->Some_0;
    let upper = spec_to_ascii_uppercase(c);
    assert(spec_key_press(c, false) =~= seq![BackendRequest::Press(code), BackendRequest::Release(code)]);
    assert(spec_key_press(upper, false) =~= seq![
        BackendRequest::Modifiers(ModifierState { shift: true, ctrl: false, alt: false, logo: false }),
        BackendRequest::Press(code),
        BackendRequest::Release(code),
        BackendRequest::Modifiers(ModifierState { shift: false, ctrl: false, alt: false, logo: false }),
    ]);
}

} // verus!
