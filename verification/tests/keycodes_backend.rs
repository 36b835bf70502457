use rocknix_keyboard::backend::{apply_request, apply_requests, BackendRequest, KeyboardBackend, ModifierState, RequestSender};
use rocknix_keyboard::keycodes::{
    char_needs_shift, char_to_event_code, is_ascii_uppercase, text_to_event_code, KEY_1, KEY_4, KEY_8,
    KEY_A, KEY_COMMA, KEY_DOT, KEY_MINUS, KEY_SLASH, KEY_SPACE, KEY_Z,
};

fn mods(shift: bool, ctrl: bool, alt: bool, logo: bool) -> ModifierState {
    ModifierState { shift, ctrl, alt, logo }
}

#[test]
fn xkb_mask_single_modifiers() {
    assert_eq!(mods(false, false, false, false).to_xkb_mask(), 0);
    assert_eq!(mods(true, false, false, false).to_xkb_mask(), 1);
    assert_eq!(mods(false, true, false, false).to_xkb_mask(), 4);
    assert_eq!(mods(false, false, true, false).to_xkb_mask(), 8);
    assert_eq!(mods(false, false, false, true).to_xkb_mask(), 64);
}

#[test]
fn xkb_mask_combinations() {
    assert_eq!(mods(true, true, true, true).to_xkb_mask(), 77);
    assert_eq!(mods(true, false, true, false).to_xkb_mask(), 9);
    assert_eq!(mods(false, true, false, true).to_xkb_mask(), 68);
}

#[test]
fn xkb_mask_is_injective_on_all_states() {
    let mut seen = Vec::new();
    for bits in 0u8..16 {
        let m = mods(bits & 1 != 0, bits & 2 != 0, bits & 4 != 0, bits & 8 != 0);
        let mask = m.to_xkb_mask();
        assert_eq!(mask & 1 != 0, m.shift);
        assert_eq!(mask & 4 != 0, m.ctrl);
        assert_eq!(mask & 8 != 0, m.alt);
        assert_eq!(mask & 64 != 0, m.logo);
        assert!(!seen.contains(&mask));
        seen.push(mask);
    }
}

#[test]
fn shift_only_and_none() {
    assert_eq!(ModifierState::none(), mods(false, false, false, false));
    assert_eq!(ModifierState::default(), mods(false, false, false, false));
    assert_eq!(ModifierState::default().to_xkb_mask(), 0);
    assert_eq!(ModifierState::shift_only(true), mods(true, false, false, false));
}

#[test]
fn letters_map_case_insensitively() {
    assert_eq!(char_to_event_code('a'), Some(KEY_A));
    assert_eq!(char_to_event_code('A'), Some(KEY_A));
    assert_eq!(char_to_event_code('z'), Some(KEY_Z));
    assert_eq!(char_to_event_code('Z'), Some(KEY_Z));
    for (lo, up) in ('a'..='z').zip('A'..='Z') {
        assert!(char_to_event_code(lo).is_some());
        assert_eq!(char_to_event_code(lo), char_to_event_code(up));
    }
}

#[test]
fn digits_and_symbols_map() {
    assert_eq!(char_to_event_code('1'), Some(KEY_1));
    assert_eq!(char_to_event_code('0'), Some(11));
    assert_eq!(char_to_event_code('*'), Some(KEY_8));
    assert_eq!(char_to_event_code('$'), Some(KEY_4));
    assert_eq!(char_to_event_code('_'), Some(KEY_MINUS));
    assert_eq!(char_to_event_code(' '), Some(KEY_SPACE));
    assert_eq!(char_to_event_code('?'), Some(KEY_SLASH));
    assert_eq!(char_to_event_code('"'), Some(40));
    assert_eq!(char_to_event_code('\\'), Some(43));
}

#[test]
fn unmapped_characters() {
    assert_eq!(char_to_event_code('!'), None);
    assert_eq!(char_to_event_code('@'), None);
    assert_eq!(char_to_event_code('€'), None);
    assert_eq!(char_to_event_code('…'), None);
    assert_eq!(char_to_event_code('\n'), None);
}

#[test]
fn shift_needing_characters() {
    for c in "!@#$%^&*()_+{}|:\"<>?~AQZ".chars() {
        assert!(char_needs_shift(c), "{c}");
    }
    for c in "az1-=[];',./` €É".chars() {
        assert!(!char_needs_shift(c), "{c}");
    }
}

#[test]
fn ascii_uppercase() {
    assert!(is_ascii_uppercase('A'));
    assert!(is_ascii_uppercase('Z'));
    assert!(!is_ascii_uppercase('a'));
    assert!(!is_ascii_uppercase('@'));
    assert!(!is_ascii_uppercase('['));
    assert!(!is_ascii_uppercase('É'));
}

#[test]
fn text_codes() {
    assert_eq!(text_to_event_code("/"), Some(KEY_SLASH));
    assert_eq!(text_to_event_code(","), Some(KEY_COMMA));
    assert_eq!(text_to_event_code("."), Some(KEY_DOT));
    assert_eq!(text_to_event_code(""), None);
    assert_eq!(text_to_event_code("ab"), Some(KEY_A));
    assert_eq!(text_to_event_code("/x"), Some(KEY_SLASH));
    assert_eq!(text_to_event_code("…"), None);
    assert_eq!(text_to_event_code("€5"), None);
}

#[test]
fn requests_reach_the_backend_in_order() {
    let (tx, rx) = std::sync::mpsc::channel();
    let mut backend = RequestSender::new(tx);
    let reqs = vec![
        BackendRequest::Modifiers(ModifierState::shift_only(true)),
        BackendRequest::Press(30),
        BackendRequest::Release(30),
        BackendRequest::Character('€'),
        BackendRequest::StartRepeat(14),
        BackendRequest::StopRepeat,
    ];
    apply_requests(&mut backend, &reqs);
    apply_request(&mut backend, BackendRequest::Release(2));
    let got: Vec<BackendRequest> = rx.try_iter().collect();
    let mut expected = reqs.clone();
    expected.push(BackendRequest::Release(2));
    assert_eq!(got, expected);
}

#[test]
fn backend_methods_forward_their_request() {
    let (tx, rx) = std::sync::mpsc::channel();
    let mut backend = RequestSender::new(tx);
    backend.press(5);
    backend.release(5);
    backend.set_modifiers(ModifierState::none());
    backend.send_character('x');
    backend.start_repeat(14);
    backend.stop_repeat();
    let got: Vec<BackendRequest> = rx.try_iter().collect();
    assert_eq!(
        got,
        vec![
            BackendRequest::Press(5),
            BackendRequest::Release(5),
            BackendRequest::Modifiers(ModifierState::none()),
            BackendRequest::Character('x'),
            BackendRequest::StartRepeat(14),
            BackendRequest::StopRepeat,
        ]
    );
}
