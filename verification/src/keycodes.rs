//! Mapping from logical keys to Linux input event codes.
//!
//! The constants mirror `<linux/input-event-codes.h>`.  XKB keycodes are the
//! event code plus 8 (the X11/XKB legacy offset).

use vstd::prelude::*;

verus! {

broadcast use vstd::string::group_string_axioms;

pub const KEY_ESC: u32 = 1;
pub const KEY_1: u32 = 2;
pub const KEY_2: u32 = 3;
pub const KEY_3: u32 = 4;
pub const KEY_4: u32 = 5;
pub const KEY_5: u32 = 6;
pub const KEY_6: u32 = 7;
pub const KEY_7: u32 = 8;
pub const KEY_8: u32 = 9;
pub const KEY_9: u32 = 10;
pub const KEY_0: u32 = 11;
pub const KEY_MINUS: u32 = 12;
pub const KEY_EQUAL: u32 = 13;
pub const KEY_BACKSPACE: u32 = 14;
pub const KEY_TAB: u32 = 15;
pub const KEY_Q: u32 = 16;
pub const KEY_W: u32 = 17;
pub const KEY_E: u32 = 18;
pub const KEY_R: u32 = 19;
pub const KEY_T: u32 = 20;
pub const KEY_Y: u32 = 21;
pub const KEY_U: u32 = 22;
pub const KEY_I: u32 = 23;
pub const KEY_O: u32 = 24;
pub const KEY_P: u32 = 25;
pub const KEY_LEFTBRACE: u32 = 26;
pub const KEY_RIGHTBRACE: u32 = 27;
pub const KEY_ENTER: u32 = 28;
pub const KEY_LEFTCTRL: u32 = 29;
pub const KEY_A: u32 = 30;
pub const KEY_S: u32 = 31;
pub const KEY_D: u32 = 32;
pub const KEY_F: u32 = 33;
pub const KEY_G: u32 = 34;
pub const KEY_H: u32 = 35;
pub const KEY_J: u32 = 36;
pub const KEY_K: u32 = 37;
pub const KEY_L: u32 = 38;
pub const KEY_SEMICOLON: u32 = 39;
pub const KEY_APOSTROPHE: u32 = 40;
pub const KEY_GRAVE: u32 = 41;
pub const KEY_LEFTSHIFT: u32 = 42;
pub const KEY_BACKSLASH: u32 = 43;
pub const KEY_Z: u32 = 44;
pub const KEY_X: u32 = 45;
pub const KEY_C: u32 = 46;
pub const KEY_V: u32 = 47;
pub const KEY_B: u32 = 48;
pub const KEY_N: u32 = 49;
pub const KEY_M: u32 = 50;
pub const KEY_COMMA: u32 = 51;
pub const KEY_DOT: u32 = 52;
pub const KEY_SLASH: u32 = 53;
pub const KEY_RIGHTSHIFT: u32 = 54;
pub const KEY_KPASTERISK: u32 = 55;
pub const KEY_LEFTALT: u32 = 56;
pub const KEY_SPACE: u32 = 57;
pub const KEY_CAPSLOCK: u32 = 58;
pub const KEY_LEFTMETA: u32 = 125;

/// The Linux event code that types `ch` on the US layout, if one does.
pub open spec fn spec_char_to_event_code(ch: char) -> Option<u32> {
    match ch {
        'a' | 'A' => Some(KEY_A),
        'b' | 'B' => Some(KEY_B),
        'c' | 'C' => Some(KEY_C),
        'd' | 'D' => Some(KEY_D),
        'e' | 'E' => Some(KEY_E),
        'f' | 'F' => Some(KEY_F),
        'g' | 'G' => Some(KEY_G),
        'h' | 'H' => Some(KEY_H),
        'i' | 'I' => Some(KEY_I),
        'j' | 'J' => Some(KEY_J),
        'k' | 'K' => Some(KEY_K),
        'l' | 'L' => Some(KEY_L),
        'm' | 'M' => Some(KEY_M),
        'n' | 'N' => Some(KEY_N),
        'o' | 'O' => Some(KEY_O),
        'p' | 'P' => Some(KEY_P),
        'q' | 'Q' => Some(KEY_Q),
        'r' | 'R' => Some(KEY_R),
        's' | 'S' => Some(KEY_S),
        't' | 'T' => Some(KEY_T),
        'u' | 'U' => Some(KEY_U),
        'v' | 'V' => Some(KEY_V),
        'w' | 'W' => Some(KEY_W),
        'x' | 'X' => Some(KEY_X),
        'y' | 'Y' => Some(KEY_Y),
        'z' | 'Z' => Some(KEY_Z),
        '1' => Some(KEY_1),
        '2' => Some(KEY_2),
        '3' => Some(KEY_3),
        '4' => Some(KEY_4),
        '5' => Some(KEY_5),
        '6' => Some(KEY_6),
        '7' => Some(KEY_7),
        '8' => Some(KEY_8),
        '9' => Some(KEY_9),
        '0' => Some(KEY_0),
        '-' | '_' => Some(KEY_MINUS),
        '=' | '+' => Some(KEY_EQUAL),
        '*' => Some(KEY_8),
        '[' | '{' => Some(KEY_LEFTBRACE),
        ']' | '}' => Some(KEY_RIGHTBRACE),
        '\\' | '|' => Some(KEY_BACKSLASH),
        ';' | ':' => Some(KEY_SEMICOLON),
        '\'' | '"' => Some(KEY_APOSTROPHE),
        '`' | '~' => Some(KEY_GRAVE),
        ',' | '<' => Some(KEY_COMMA),
        '.' | '>' => Some(KEY_DOT),
        '/' | '?' => Some(KEY_SLASH),
        ' ' => Some(KEY_SPACE),
        '%' => Some(KEY_5),
        '^' => Some(KEY_6),
        '$' => Some(KEY_4),
        _ => None,
    }
}

/// Translate a printable character to the Linux event code used by the US
/// layout.  This is sufficient for the basic QWERTY page.
pub fn char_to_event_code(ch: char) -> (code: Option<u32>)
    ensures
        code == spec_char_to_event_code(ch),
{
    match ch {
        'a' | 'A' => Some(KEY_A),
        'b' | 'B' => Some(KEY_B),
        'c' | 'C' => Some(KEY_C),
        'd' | 'D' => Some(KEY_D),
        'e' | 'E' => Some(KEY_E),
        'f' | 'F' => Some(KEY_F),
        'g' | 'G' => Some(KEY_G),
        'h' | 'H' => Some(KEY_H),
        'i' | 'I' => Some(KEY_I),
        'j' | 'J' => Some(KEY_J),
        'k' | 'K' => Some(KEY_K),
        'l' | 'L' => Some(KEY_L),
        'm' | 'M' => Some(KEY_M),
        'n' | 'N' => Some(KEY_N),
        'o' | 'O' => Some(KEY_O),
        'p' | 'P' => Some(KEY_P),
        'q' | 'Q' => Some(KEY_Q),
        'r' | 'R' => Some(KEY_R),
        's' | 'S' => Some(KEY_S),
        't' | 'T' => Some(KEY_T),
        'u' | 'U' => Some(KEY_U),
        'v' | 'V' => Some(KEY_V),
        'w' | 'W' => Some(KEY_W),
        'x' | 'X' => Some(KEY_X),
        'y' | 'Y' => Some(KEY_Y),
        'z' | 'Z' => Some(KEY_Z),
        '1' => Some(KEY_1),
        '2' => Some(KEY_2),
        '3' => Some(KEY_3),
        '4' => Some(KEY_4),
        '5' => Some(KEY_5),
        '6' => Some(KEY_6),
        '7' => Some(KEY_7),
        '8' => Some(KEY_8),
        '9' => Some(KEY_9),
        '0' => Some(KEY_0),
        '-' | '_' => Some(KEY_MINUS),
        '=' | '+' => Some(KEY_EQUAL),
        '*' => Some(KEY_8),
        '[' | '{' => Some(KEY_LEFTBRACE),
        ']' | '}' => Some(KEY_RIGHTBRACE),
        '\\' | '|' => Some(KEY_BACKSLASH),
        ';' | ':' => Some(KEY_SEMICOLON),
        '\'' | '"' => Some(KEY_APOSTROPHE),
        '`' | '~' => Some(KEY_GRAVE),
        ',' | '<' => Some(KEY_COMMA),
        '.' | '>' => Some(KEY_DOT),
        '/' | '?' => Some(KEY_SLASH),
        ' ' => Some(KEY_SPACE),
        '%' => Some(KEY_5),
        '^' => Some(KEY_6),
        '$' => Some(KEY_4),
        _ => None,
    }
}

/// Whether `ch` needs the Shift modifier on a standard US QWERTY layout.
pub open spec fn spec_char_needs_shift(ch: char) -> bool {
    spec_is_ascii_uppercase(ch) || ch == '!' || ch == '@' || ch == '#' || ch == '$' || ch == '%' || ch == '^' || ch == '&'
        || ch == '*' || ch == '(' || ch == ')' || ch == '_' || ch == '+' || ch == '{' || ch == '}'
        || ch == '|' || ch == ':' || ch == '"' || ch == '<' || ch == '>' || ch == '?' || ch == '~'
}

/// Returns true for characters that require the Shift modifier on a standard
/// US QWERTY layout. These are pressed with shift held and released before
/// shift is restored.
pub fn char_needs_shift(ch: char) -> (b: bool)
    ensures
        b == spec_char_needs_shift(ch),
{
    match ch {
        'A'..='Z' => true,
        '!' | '@' | '#' | '$' | '%' | '^' | '&' | '*' | '(' | ')' | '_' | '+' | '{' | '}' | '|' | ':' | '"' | '<' | '>' | '?' | '~' => true,
        _ => false,
    }
}

/// Whether `ch` is an ASCII upper-case letter.
pub open spec fn spec_is_ascii_uppercase(ch: char) -> bool {
    'A' <= ch && ch <= 'Z'
}

/// Whether `ch` is an ASCII upper-case letter.
pub fn is_ascii_uppercase(ch: char) -> (b: bool)
    ensures
        b == spec_is_ascii_uppercase(ch),
{
    'A' <= ch && ch <= 'Z'
}

/// The event code of a short key label: the labels "/", "," and "." are
/// named directly, and any other label goes by its first character.
pub open spec fn spec_text_to_event_code(text: Seq<char>) -> Option<u32> {
    if text == seq!['/'] {
        Some(KEY_SLASH)
    } else if text == seq![','] {
        Some(KEY_COMMA)
    } else if text == seq!['.'] {
        Some(KEY_DOT)
    } else if text.len() == 0 {
        None
    } else {
        spec_char_to_event_code(text[0])
    }
}

/// Translate a short text label to the primary event code.  Used for keys whose
/// label is not a single ASCII character.
pub fn text_to_event_code(text: &str) -> (code: Option<u32>)
    ensures
        code == spec_text_to_event_code(text@),
{
    let mut chars = text.chars();
    let first = chars.next();
    match first {
        None => None,
        Some(c) => {
            let second = chars.next();
            if second.is_none() && c == '/' {
                assert(text@ == seq!['/']);
                Some(KEY_SLASH)
            } else if second.is_none() && c == ',' {
                assert(text@ == seq![',']);
                Some(KEY_COMMA)
            } else if second.is_none() && c == '.' {
                assert(text@ == seq!['.']);
                Some(KEY_DOT)
            } else {
                char_to_event_code(c)
            }
        }
    }
}

/// The upper-case form of an ASCII lower-case letter (any other character is
/// kept).
pub open spec fn spec_to_ascii_uppercase(ch: char) -> char {
    if 'a' <= ch && ch <= 'z' { ((ch as u32) - 32) as char } else { ch }
}

/// A letter and its upper-case form are typed with the same physical key;
/// the letters are exactly the characters whose upper-case form needs Shift.
pub proof fn lemma_letter_case_same_key(ch: char)
    requires
        'a' <= ch && ch <= 'z',
    ensures
        spec_char_to_event_code(spec_to_ascii_uppercase(ch)) == spec_char_to_event_code(ch),
        spec_char_to_event_code(ch) is Some,
        spec_is_ascii_uppercase(spec_to_ascii_uppercase(ch)),
        !spec_is_ascii_uppercase(ch),
        !spec_char_needs_shift(ch),
{
    let u = spec_to_ascii_uppercase(ch);
    assert(u as u32 == ch as u32 - 32);
    assert('a' as u32 == 97);
    let n = ch as u32;
    assert(97 <= n <= 122);
    if n == 97 { assert(ch == 'a'); } else if n == 98 { assert(ch == 'b'); } else if n == 99 { assert(ch == 'c'); }
    else if n == 100 { assert(ch == 'd'); } else if n == 101 { assert(ch == 'e'); } else if n == 102 { assert(ch == 'f'); }
    else if n == 103 { assert(ch == 'g'); } else if n == 104 { assert(ch == 'h'); } else if n == 105 { assert(ch == 'i'); }
    else if n == 106 { assert(ch == 'j'); } else if n == 107 { assert(ch == 'k'); } else if n == 108 { assert(ch == 'l'); }
    else if n == 109 { assert(ch == 'm'); } else if n == 110 { assert(ch == 'n'); } else if n == 111 { assert(ch == 'o'); }
    else if n == 112 { assert(ch == 'p'); } else if n == 113 { assert(ch == 'q'); } else if n == 114 { assert(ch == 'r'); }
    else if n == 115 { assert(ch == 's'); } else if n == 116 { assert(ch == 't'); } else if n == 117 { assert(ch == 'u'); }
    else if n == 118 { assert(ch == 'v'); } else if n == 119 { assert(ch == 'w'); } else if n == 120 { assert(ch == 'x'); }
    else if n == 121 { assert(ch == 'y'); } else if n == 122 { assert(ch == 'z'); }
}

/// A label goes by its first character: the labels named on their own map to
/// the key of that character.
pub proof fn lemma_text_code_is_first_char_code(text: Seq<char>)
    ensures
        spec_text_to_event_code(text) == (if text.len() == 0 { None } else { spec_char_to_event_code(text[0]) }),
{
}

/// Each letter, in either case, is typed with its own key of the QWERTY
/// layout, as `<linux/input-event-codes.h>` numbers them.
pub proof fn lemma_letter_codes()
    ensures
        spec_char_to_event_code('a') == Some(KEY_A) && spec_char_to_event_code('A') == Some(KEY_A),
        spec_char_to_event_code('b') == Some(KEY_B) && spec_char_to_event_code('B') == Some(KEY_B),
        spec_char_to_event_code('c') == Some(KEY_C) && spec_char_to_event_code('C') == Some(KEY_C),
        spec_char_to_event_code('d') == Some(KEY_D) && spec_char_to_event_code('D') == Some(KEY_D),
        spec_char_to_event_code('e') == Some(KEY_E) && spec_char_to_event_code('E') == Some(KEY_E),
        spec_char_to_event_code('f') == Some(KEY_F) && spec_char_to_event_code('F') == Some(KEY_F),
        spec_char_to_event_code('g') == Some(KEY_G) && spec_char_to_event_code('G') == Some(KEY_G),
        spec_char_to_event_code('h') == Some(KEY_H) && spec_char_to_event_code('H') == Some(KEY_H),
        spec_char_to_event_code('i') == Some(KEY_I) && spec_char_to_event_code('I') == Some(KEY_I),
        spec_char_to_event_code('j') == Some(KEY_J) && spec_char_to_event_code('J') == Some(KEY_J),
        spec_char_to_event_code('k') == Some(KEY_K) && spec_char_to_event_code('K') == Some(KEY_K),
        spec_char_to_event_code('l') == Some(KEY_L) && spec_char_to_event_code('L') == Some(KEY_L),
        spec_char_to_event_code('m') == Some(KEY_M) && spec_char_to_event_code('M') == Some(KEY_M),
        spec_char_to_event_code('n') == Some(KEY_N) && spec_char_to_event_code('N') == Some(KEY_N),
        spec_char_to_event_code('o') == Some(KEY_O) && spec_char_to_event_code('O') == Some(KEY_O),
        spec_char_to_event_code('p') == Some(KEY_P) && spec_char_to_event_code('P') == Some(KEY_P),
        spec_char_to_event_code('q') == Some(KEY_Q) && spec_char_to_event_code('Q') == Some(KEY_Q),
        spec_char_to_event_code('r') == Some(KEY_R) && spec_char_to_event_code('R') == Some(KEY_R),
        spec_char_to_event_code('s') == Some(KEY_S) && spec_char_to_event_code('S') == Some(KEY_S),
        spec_char_to_event_code('t') == Some(KEY_T) && spec_char_to_event_code('T') == Some(KEY_T),
        spec_char_to_event_code('u') == Some(KEY_U) && spec_char_to_event_code('U') == Some(KEY_U),
        spec_char_to_event_code('v') == Some(KEY_V) && spec_char_to_event_code('V') == Some(KEY_V),
        spec_char_to_event_code('w') == Some(KEY_W) && spec_char_to_event_code('W') == Some(KEY_W),
        spec_char_to_event_code('x') == Some(KEY_X) && spec_char_to_event_code('X') == Some(KEY_X),
        spec_char_to_event_code('y') == Some(KEY_Y) && spec_char_to_event_code('Y') == Some(KEY_Y),
        spec_char_to_event_code('z') == Some(KEY_Z) && spec_char_to_event_code('Z') == Some(KEY_Z),
{
}

/// Distinct letters are typed with distinct keys.
pub proof fn lemma_letter_codes_distinct(c1: char, c2: char)
    requires
        'a' <= c1 <= 'z',
        'a' <= c2 <= 'z',
        c1 != c2,
    ensures
        spec_char_to_event_code(c1) != spec_char_to_event_code(c2),
{
}

/// Each digit is typed with its own key of the number row: '1' to '9' with
/// codes 2 to 10, and '0' with code 11.
pub proof fn lemma_digit_codes(d: char)
    requires
        '0' <= d <= '9',
    ensures
        spec_char_to_event_code(d) == Some(if d == '0' { 11u32 } else { ((d as u32) - 47) as u32 }),
{
}

/// The characters that need Shift on the US layout are exactly the upper-case
/// letters and the shifted symbols `!@#$%^&*()_+{}|:"<>?~`; digits, lower-case
/// letters, the space and the unshifted symbols `- = [ ] \ ; ' , . /` and the
/// backquote do not.
pub proof fn lemma_needs_shift_exactly(ch: char)
    ensures
        spec_char_needs_shift(ch) <==> (
            (65 <= (ch as u32) && (ch as u32) <= 90)
            || set!['!', '@', '#', '$', '%', '^', '&', '*', '(', ')', '_', '+', '{', '}', '|', ':', '"', '<', '>', '?', '~'].contains(ch)
        ),
        ('0' <= ch <= '9') || ('a' <= ch <= 'z') ==> !spec_char_needs_shift(ch),
        set![' ', '-', '=', '[', ']', '\\', ';', '\'', ',', '.', '/', '`'].contains(ch) ==> !spec_char_needs_shift(ch),
{
}

} // verus!
