use rocknix_keyboard::layout::{
    key_label, key_style, keyboard_desired_width, keyboard_layout, letter_layout, number_layout, symbol_layout,
    KeyAction, KeyDef, KeyStyle, KeyboardPage,
};
use rocknix_keyboard::state::{DragUpdate, KeyboardState, TouchPhase};
use rocknix_keyboard::keycodes::char_to_event_code;

fn chars_of(row: &[KeyDef]) -> String {
    row.iter()
        .filter_map(|k| match k.action {
            KeyAction::Char(c) => Some(c),
            _ => None,
        })
        .collect()
}

fn state(page: KeyboardPage, shifted: bool) -> KeyboardState {
    KeyboardState { page, shifted, dragging: false, drag_touch_id: None }
}

#[test]
fn letter_rows() {
    let rows = letter_layout(false);
    let lens: Vec<usize> = rows.iter().map(|r| r.len()).collect();
    assert_eq!(lens, vec![10, 9, 9, 5]);
    assert_eq!(chars_of(&rows[0]), "qwertyuiop");
    assert_eq!(chars_of(&rows[1]), "asdfghjkl");
    assert!(matches!(rows[2][0].action, KeyAction::Shift));
    assert_eq!(rows[2][0].width, Some(64));
    assert!(matches!(rows[2][8].action, KeyAction::Backspace));
    assert_eq!(rows[3][0].label, "123");
    assert!(matches!(rows[3][0].action, KeyAction::SwitchPage(KeyboardPage::Numbers)));
    assert!(matches!(rows[3][1].action, KeyAction::Char(',')));
    assert_eq!(rows[3][2].width, Some(320));
    assert!(matches!(rows[3][3].action, KeyAction::Text(".")));
    assert_eq!(rows[3][3].width, None);
    assert!(matches!(rows[3][4].action, KeyAction::Enter));
}

#[test]
fn shifted_letters_are_uppercase() {
    let lo = letter_layout(false);
    let up = letter_layout(true);
    assert_eq!(chars_of(&up[0]), "QWERTYUIOP");
    assert_eq!(chars_of(&up[2]), "ZXCVBNM");
    for (rl, ru) in lo.iter().zip(up.iter()) {
        assert_eq!(rl.len(), ru.len());
        for (kl, ku) in rl.iter().zip(ru.iter()) {
            assert_eq!(kl.label, ku.label);
            assert_eq!(kl.width, ku.width);
            match (kl.action, ku.action) {
                (KeyAction::Char(a), KeyAction::Char(b)) => assert_eq!(a.to_ascii_uppercase(), b),
                (a, b) => assert_eq!(format!("{a:?}"), format!("{b:?}")),
            }
        }
    }
}

#[test]
fn number_and_symbol_rows() {
    let n = number_layout();
    assert_eq!(chars_of(&n[0]), "1234567890");
    assert!(matches!(n[1][9].action, KeyAction::Text("\"")));
    assert!(matches!(n[2][0].action, KeyAction::SwitchPage(KeyboardPage::Symbols)));
    assert_eq!(n[2][5].label, "…");
    assert!(matches!(n[3][0].action, KeyAction::SwitchPage(KeyboardPage::Letters)));
    let s = symbol_layout();
    assert_eq!(s[0][4].label, "÷");
    assert_eq!(s[1][7].label, "$");
    assert!(matches!(s[2][0].action, KeyAction::SwitchPage(KeyboardPage::Numbers)));
    assert!(matches!(s[2][7].action, KeyAction::Backspace));
    let lens: Vec<usize> = s.iter().map(|r| r.len()).collect();
    assert_eq!(lens, vec![10, 10, 8, 5]);
}

#[test]
fn every_page_has_function_keys() {
    for page in [KeyboardPage::Letters, KeyboardPage::Numbers, KeyboardPage::Symbols] {
        for shifted in [false, true] {
            let rows = keyboard_layout(&state(page, shifted));
            let all: Vec<&KeyDef> = rows.iter().flatten().collect();
            assert!(all.iter().any(|k| matches!(k.action, KeyAction::Backspace)));
            assert!(all.iter().any(|k| matches!(k.action, KeyAction::Enter)));
            assert!(all.iter().any(|k| matches!(k.action, KeyAction::Space)));
            assert!(!all.iter().any(|k| matches!(k.action, KeyAction::SwitchPage(p) if p == page)));
            for k in &all {
                if let KeyAction::Char(c) = k.action {
                    assert!(char_to_event_code(c).is_some());
                }
            }
        }
    }
}

#[test]
fn desired_widths() {
    assert_eq!(keyboard_desired_width(&state(KeyboardPage::Letters, false)), 602);
    assert_eq!(keyboard_desired_width(&state(KeyboardPage::Letters, true)), 602);
    assert_eq!(keyboard_desired_width(&state(KeyboardPage::Numbers, false)), 608);
    assert_eq!(keyboard_desired_width(&state(KeyboardPage::Symbols, true)), 608);
}

#[test]
fn labels() {
    let rows = letter_layout(false);
    assert_eq!(key_label(&rows[0][0]), "q");
    assert_eq!(key_label(&letter_layout(true)[1][0]), "A");
    assert_eq!(key_label(&rows[3][2]), "space");
    assert_eq!(key_label(&KeyDef::text("", "€")), "€");
    assert_eq!(key_label(&KeyDef::action("", KeyAction::Enter, 80)), "");
    assert_eq!(key_label(&KeyDef::char("x", 'y')), "x");
}

#[test]
fn styles() {
    assert_eq!(key_style(&KeyAction::Enter, false), KeyStyle::Primary);
    assert_eq!(key_style(&KeyAction::Shift, false), KeyStyle::Secondary);
    assert_eq!(key_style(&KeyAction::Shift, true), KeyStyle::SecondarySelected);
    assert_eq!(key_style(&KeyAction::SwitchPage(KeyboardPage::Symbols), true), KeyStyle::Secondary);
    assert_eq!(key_style(&KeyAction::Backspace, false), KeyStyle::Secondary);
    assert_eq!(key_style(&KeyAction::Char('a'), true), KeyStyle::Plain);
    assert_eq!(key_style(&KeyAction::Space, true), KeyStyle::Plain);
}

#[test]
fn state_basics() {
    let mut s = KeyboardState::new();
    assert_eq!(s, state(KeyboardPage::Letters, false));
    s.toggle_shift();
    assert!(s.shifted);
    s.set_page(KeyboardPage::Symbols);
    assert_eq!(s.page, KeyboardPage::Symbols);
    assert!(s.shifted);
    s.toggle_shift();
    assert!(!s.shifted);
}

#[test]
fn drag_gesture() {
    let mut s = KeyboardState::new();
    assert_eq!(s.handle_touch(TouchPhase::Started, 3, false), DragUpdate::Ignored);
    assert!(!s.dragging);
    assert_eq!(s.handle_touch(TouchPhase::Moved, 3, false), DragUpdate::Ignored);
    assert_eq!(s.handle_touch(TouchPhase::Started, 7, true), DragUpdate::Started);
    assert!(s.dragging);
    assert_eq!(s.drag_touch_id, Some(7));
    assert_eq!(s.handle_touch(TouchPhase::Moved, 8, false), DragUpdate::Ignored);
    assert_eq!(s.handle_touch(TouchPhase::Moved, 7, false), DragUpdate::Moved);
    assert_eq!(s.handle_touch(TouchPhase::Ended, 8, false), DragUpdate::Ignored);
    assert!(s.dragging);
    assert_eq!(s.handle_touch(TouchPhase::Cancelled, 7, false), DragUpdate::Ended);
    assert!(!s.dragging);
    assert_eq!(s.drag_touch_id, None);
    assert_eq!(s.handle_touch(TouchPhase::Moved, 7, false), DragUpdate::Ignored);
}
