use rocknix_keyboard::actions::{backspace_touch, handle_action, send_key_press, send_physical_key, send_text};
use rocknix_keyboard::backend::{BackendRequest, ModifierState};
use rocknix_keyboard::injector::{KeyInjector, Repeat, WireEvent};
use rocknix_keyboard::keymap::build_character_keymap;
use rocknix_keyboard::layout::{KeyAction, KeyboardPage};
use rocknix_keyboard::state::{KeyboardState, TouchPhase};

use BackendRequest::{Character, Modifiers, Press, Release, StartRepeat, StopRepeat};

fn shift(on: bool) -> BackendRequest {
    Modifiers(ModifierState::shift_only(on))
}

/// The shift flag the backend ends with after the requests.
fn shift_after(start: bool, reqs: &[BackendRequest]) -> bool {
    let mut s = start;
    for r in reqs {
        if let Modifiers(m) = r {
            s = m.shift;
        }
    }
    s
}

#[test]
fn physical_key() {
    assert_eq!(send_physical_key(57), vec![Press(57), Release(57)]);
}

#[test]
fn plain_letter() {
    assert_eq!(send_key_press('a', false), vec![Press(30), Release(30)]);
    assert_eq!(send_key_press('a', true), vec![Press(30), Release(30)]);
}

#[test]
fn uppercase_letter_holds_shift() {
    assert_eq!(send_key_press('A', false), vec![shift(true), Press(30), Release(30), shift(false)]);
    assert_eq!(send_key_press('A', true), vec![Press(30), Release(30)]);
}

#[test]
fn shifted_symbol_without_key() {
    assert_eq!(send_key_press('!', false), vec![shift(true), Character('!'), shift(false)]);
    assert_eq!(send_key_press('#', true), vec![Character('#')]);
}

#[test]
fn unmapped_character() {
    assert_eq!(send_key_press('€', false), vec![Character('€')]);
    assert_eq!(send_key_press('…', true), vec![Character('…')]);
}

#[test]
fn key_press_restores_shift_and_pairs_keys() {
    for c in "aA1!*€?z:\"".chars() {
        for shifted in [false, true] {
            let reqs = send_key_press(c, shifted);
            assert_eq!(shift_after(shifted, &reqs), shifted);
            for (i, r) in reqs.iter().enumerate() {
                if let Press(code) = r {
                    assert_eq!(reqs[i + 1], Release(*code));
                    assert_eq!(shift_after(shifted, &reqs[..i]), shifted || c.is_ascii_uppercase() || "!@#$%^&*()_+{}|:\"<>?~".contains(c));
                }
            }
        }
    }
}

#[test]
fn text_is_typed_character_by_character() {
    assert_eq!(send_text("a!", false), vec![Press(30), Release(30), shift(true), Character('!'), shift(false)]);
    assert_eq!(send_text("", false), vec![]);
}

#[test]
fn shift_action_toggles_and_redraws() {
    let mut s = KeyboardState::new();
    let (reqs, redraw) = handle_action(&mut s, &KeyAction::Shift);
    assert!(s.shifted);
    assert!(redraw);
    assert_eq!(reqs, vec![shift(true)]);
    let (reqs2, _) = handle_action(&mut s, &KeyAction::Shift);
    assert_eq!(s, KeyboardState::new());
    assert_eq!(reqs2, vec![shift(false)]);
}

#[test]
fn page_action() {
    let mut s = KeyboardState::new();
    s.toggle_shift();
    let (reqs, redraw) = handle_action(&mut s, &KeyAction::SwitchPage(KeyboardPage::Numbers));
    assert!(reqs.is_empty());
    assert!(redraw);
    assert_eq!(s.page, KeyboardPage::Numbers);
    assert!(s.shifted);
}

#[test]
fn key_actions_keep_state() {
    let mut s = KeyboardState::new();
    let before = s;
    assert_eq!(handle_action(&mut s, &KeyAction::Char('Q')), (vec![shift(true), Press(16), Release(16), shift(false)], false));
    assert_eq!(handle_action(&mut s, &KeyAction::Text("@")), (vec![shift(true), Character('@'), shift(false)], false));
    assert_eq!(handle_action(&mut s, &KeyAction::Space), (vec![Press(57), Release(57)], false));
    assert_eq!(handle_action(&mut s, &KeyAction::Enter), (vec![Press(28), Release(28)], false));
    assert_eq!(handle_action(&mut s, &KeyAction::Backspace), (vec![Press(14), Release(14)], false));
    assert_eq!(s, before);
}

#[test]
fn backspace_touches() {
    assert_eq!(backspace_touch(TouchPhase::Started), (true, Some(StartRepeat(14))));
    assert_eq!(backspace_touch(TouchPhase::Moved), (false, None));
    assert_eq!(backspace_touch(TouchPhase::Ended), (false, Some(StopRepeat)));
    assert_eq!(backspace_touch(TouchPhase::Cancelled), (false, Some(StopRepeat)));
}

fn key(time: u32, code: u32, pressed: bool) -> WireEvent {
    WireEvent::Key { time, code, pressed }
}

const MS: u64 = 1_000_000;

#[test]
fn injector_press_carries_modifiers() {
    let mut inj = KeyInjector::new();
    assert_eq!(inj.handle_request(Press(30), 5 * MS), vec![WireEvent::Modifiers(0), key(5, 30, true)]);
    assert_eq!(inj.handle_request(shift(true), 6 * MS), vec![WireEvent::Modifiers(1)]);
    assert!(inj.current_mods.shift);
    assert_eq!(inj.handle_request(Press(30), 7 * MS + 999_999), vec![WireEvent::Modifiers(1), key(7, 30, true)]);
    assert_eq!(inj.handle_request(Release(30), 8 * MS), vec![key(8, 30, false)]);
}

#[test]
fn injector_character() {
    let mut inj = KeyInjector::new();
    inj.handle_request(shift(true), 0);
    assert_eq!(
        inj.handle_request(Character('€'), 42 * MS),
        vec![
            WireEvent::UploadCharacterKeymap('€'),
            WireEvent::Modifiers(0),
            key(42, 92, true),
            key(42, 92, false),
            WireEvent::RestoreKeymap,
        ]
    );
    assert!(inj.current_mods.shift);
}

#[test]
fn injector_time_wraps() {
    let mut inj = KeyInjector::new();
    assert_eq!(inj.handle_request(Release(1), 0x1_0000_0005 * MS), vec![key(5, 1, false)]);
}

#[test]
fn repeat_timing() {
    let mut inj = KeyInjector::new();
    assert!(inj.handle_request(StartRepeat(14), 1000 * MS).is_empty());
    assert_eq!(inj.repeat, Some(Repeat { code: 14, last_ns: 1000 * MS, initial_done: false }));
    assert!(inj.poll_repeat(1400 * MS - 1).is_empty());
    assert_eq!(inj.poll_repeat(1400 * MS), vec![key(1400, 14, true), key(1400, 14, false)]);
    assert!(inj.poll_repeat(1480 * MS - 1).is_empty());
    assert_eq!(inj.poll_repeat(1480 * MS), vec![key(1480, 14, true), key(1480, 14, false)]);
    assert!(inj.poll_repeat(900 * MS).is_empty());
    assert!(inj.handle_request(StopRepeat, 1500 * MS).is_empty());
    assert!(inj.poll_repeat(5000 * MS).is_empty());
    assert_eq!(inj.repeat, None);
}

#[test]
fn injector_follows_keyboard_shift() {
    let mut s = KeyboardState::new();
    let mut inj = KeyInjector::new();
    let actions = [KeyAction::Char('A'), KeyAction::Shift, KeyAction::Text("a!"), KeyAction::Shift, KeyAction::Char('~')];
    for a in actions.iter() {
        let (reqs, _) = handle_action(&mut s, a);
        for r in reqs {
            inj.handle_request(r, 0);
        }
        assert_eq!(inj.current_mods, ModifierState::shift_only(s.shifted));
    }
}

fn keymap_text(ch: char) -> String {
    String::from_utf8(build_character_keymap(ch)).unwrap()
}

#[test]
fn character_keymap_exact() {
    let expected = "xkb_keymap {
        xkb_keycodes {
            minimum = 8;
            maximum = 100;
            <COPY> = 100;
        };
        xkb_types { include \"complete\" };
        xkb_compat { include \"complete\" };
        xkb_symbols {
            key <COPY> { [ U20AC ] };
        };
    };";
    assert_eq!(keymap_text('€'), expected);
}

#[test]
fn character_keymap_symbols() {
    for (ch, sym) in [('a', "U0061"), ('é', "U00E9"), ('…', "U2026"), ('😀', "U1F600"), ('\u{10FFFF}', "U10FFFF"), ('\0', "U0000")] {
        let text = keymap_text(ch);
        assert!(text.contains(&format!("{{ [ {sym} ] }}")), "{text}");
        assert_eq!(sym, format!("U{:04X}", ch as u32));
    }
}
