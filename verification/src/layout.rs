//! Keyboard pages, key definitions and the layout of each page.
//!
//! Widths are whole logical pixels; a key without an explicit width takes the
//! standard key size.

use vstd::prelude::*;
use crate::state::KeyboardState;
use crate::keycodes::{lemma_letter_case_same_key, spec_char_to_event_code, spec_to_ascii_uppercase};

verus! {

broadcast use vstd::string::group_string_axioms;

/// Side length of a standard key, in logical pixels.
pub const KEY_SIZE: u32 = 54;

/// Gap between two neighbouring keys of a row, in logical pixels.
pub const KEY_GAP: u32 = 5;

/// Horizontal padding of the key panel (both sides together), in logical pixels.
pub const PANEL_PADDING: u32 = 16;

/// A page of the on-screen keyboard.
#[derive(Clone, Copy, PartialEq, Eq, Debug, Structural)]
pub enum KeyboardPage {
    Letters,
    Numbers,
    Symbols,
}

/// What a key does when it is activated.
#[derive(Clone, Copy, Debug)]
pub enum KeyAction {
    /// Insert a single Unicode character.
    Char(char),
    /// Insert a literal string.
    Text(&'static str),
    /// Backspace key.
    Backspace,
    /// Return/Enter key.
    Enter,
    /// Space bar.
    Space,
    /// Toggle shift state.
    Shift,
    /// Switch to another page.
    SwitchPage(KeyboardPage),
}

/// The mathematical value of a key action: texts are taken by their characters.
pub ghost enum ActionView {
    Char(char),
    Text(Seq<char>),
    Backspace,
    Enter,
    Space,
    Shift,
    SwitchPage(KeyboardPage),
}

impl View for KeyAction {
    type V = ActionView;

    open spec fn view(&self) -> ActionView {
        match *self {
            KeyAction::Char(c) => ActionView::Char(c),
            KeyAction::Text(s) => ActionView::Text(s@),
            KeyAction::Backspace => ActionView::Backspace,
            KeyAction::Enter => ActionView::Enter,
            KeyAction::Space => ActionView::Space,
            KeyAction::Shift => ActionView::Shift,
            KeyAction::SwitchPage(p) => ActionView::SwitchPage(p),
        }
    }
}

/// One key of a layout: its label (empty when the key shows what it inserts),
/// its action, and its width when it differs from the standard key size.
pub struct KeyDef {
    pub label: &'static str,
    pub action: KeyAction,
    pub width: Option<u32>,
}

/// The mathematical value of a key.
pub ghost struct KeyView {
    pub label: Seq<char>,
    pub action: ActionView,
    pub width: Option<u32>,
}

impl View for KeyDef {
    type V = KeyView;

    open spec fn view(&self) -> KeyView {
        KeyView { label: self.label@, action: self.action@, width: self.width }
    }
}

/// A key that inserts `c` and shows it as its label.
pub open spec fn char_key(c: char) -> KeyView {
    KeyView { label: ""@, action: ActionView::Char(c), width: None }
}

/// A key that inserts the text `s` and is labelled `label`.
pub open spec fn text_key(label: Seq<char>, s: Seq<char>) -> KeyView {
    KeyView { label, action: ActionView::Text(s), width: None }
}

/// A key with its own label, action and width.
pub open spec fn action_key(label: Seq<char>, action: ActionView, width: u32) -> KeyView {
    KeyView { label, action, width: Some(width) }
}

/// A row of character keys, one per character of `s`, in order.
pub open spec fn char_row(s: Seq<char>) -> Seq<KeyView> {
    s.map_values(|c: char| char_key(c))
}

/// The view of a row of keys.
pub open spec fn row_view(row: Seq<KeyDef>) -> Seq<KeyView> {
    row.map_values(|k: KeyDef| k@)
}

/// The view of a layout, row by row.
pub open spec fn layout_view(rows: Seq<Vec<KeyDef>>) -> Seq<Seq<KeyView>> {
    rows.map_values(|r: Vec<KeyDef>| row_view(r@))
}

impl KeyDef {
    /// A key that inserts the character `action`.
    pub fn char(label: &'static str, action: char) -> (k: KeyDef)
        ensures
            k@ == (KeyView { label: label@, action: ActionView::Char(action), width: None }),
    {
        KeyDef { label, action: KeyAction::Char(action), width: None }
    }

    /// A key that inserts the text `action`.
    pub fn text(label: &'static str, action: &'static str) -> (k: KeyDef)
        ensures
            k@ == text_key(label@, action@),
    {
        KeyDef { label, action: KeyAction::Text(action), width: None }
    }

    /// The width the key takes: its own, or the standard key size.
    pub fn display_width(&self) -> (w: u32)
        ensures
            w == key_width(self@),
    {
        match self.width {
            Some(w) => w,
            None => KEY_SIZE,
        }
    }

    /// A key with its own action and width.
    pub fn action(label: &'static str, action: KeyAction, width: u32) -> (k: KeyDef)
        ensures
            k@ == action_key(label@, action@, width),
    {
        KeyDef { label, action, width: Some(width) }
    }
}

/// One character key per character of `letters`, in order.
fn char_keys(letters: &'static str) -> (row: Vec<KeyDef>)
    ensures
        row_view(row@) == char_row(letters@),
{
    let mut row: Vec<KeyDef> = Vec::new();
    for c in it: letters.chars()
        invariant
            row@.len() == it.index(),
            it.seq() == letters@,
            forall|j: int| 0 <= j < row@.len() ==> (#[trigger] row@[j])@ == char_key(letters@[j]),
    {
        row.push(KeyDef::char("", c));
    }
    assert(row_view(row@) =~= char_row(letters@));
    row
}

/// The letter page, with upper-case letters when `shifted`.
pub open spec fn spec_letter_layout(shifted: bool) -> Seq<Seq<KeyView>> {
    let rows: Seq<Seq<char>> = if shifted {
        seq!["QWERTYUIOP"@, "ASDFGHJKL"@, "ZXCVBNM"@]
    } else {
        seq!["qwertyuiop"@, "asdfghjkl"@, "zxcvbnm"@]
    };
    seq![
        char_row(rows[0]),
        char_row(rows[1]),
        seq![action_key("⇧"@, ActionView::Shift, 64)] + char_row(rows[2]) + seq![
            action_key("⌫"@, ActionView::Backspace, 64),
        ],
        seq![
            action_key("123"@, ActionView::SwitchPage(KeyboardPage::Numbers), 64),
            action_key(","@, ActionView::Char(','), 48),
            action_key("space"@, ActionView::Space, 320),
            text_key("."@, "."@),
            action_key("return"@, ActionView::Enter, 80),
        ],
    ]
}

/// The letter page, with upper-case letters when `shifted`.
pub fn letter_layout(shifted: bool) -> (rows: Vec<Vec<KeyDef>>)
    ensures
        layout_view(rows@) == spec_letter_layout(shifted),
{
    let (top, middle, bottom) = if shifted {
        ("QWERTYUIOP", "ASDFGHJKL", "ZXCVBNM")
    } else {
        ("qwertyuiop", "asdfghjkl", "zxcvbnm")
    };
    let row0 = char_keys(top);
    let row1 = char_keys(middle);
    let mut row2 = char_keys(bottom);
    row2.insert(0, KeyDef::action("⇧", KeyAction::Shift, 64));
    row2.push(KeyDef::action("⌫", KeyAction::Backspace, 64));
    let row3 = vec![
        KeyDef::action("123", KeyAction::SwitchPage(KeyboardPage::Numbers), 64),
        KeyDef::action(",", KeyAction::Char(','), 48),
        KeyDef::action("space", KeyAction::Space, 320),
        KeyDef::text(".", "."),
        KeyDef::action("return", KeyAction::Enter, 80),
    ];
    let rows = vec![row0, row1, row2, row3];
    proof {
        let spec = spec_letter_layout(shifted);
        assert(row_view(row2@) =~= spec[2]);
        assert(row_view(row3@) =~= spec[3]);
        assert(layout_view(rows@) =~= spec);
    }
    rows
}

/// The number page.
pub open spec fn spec_number_layout() -> Seq<Seq<KeyView>> {
    seq![
        char_row("1234567890"@),
        seq![
            text_key("-"@, "-"@),
            text_key("/"@, "/"@),
            text_key(":"@, ":"@),
            text_key("_"@, "_"@),
            text_key("("@, "("@),
            text_key(")"@, ")"@),
            text_key("#"@, "#"@),
            text_key("&"@, "&"@),
            text_key("@"@, "@"@),
            text_key("\""@, "\""@),
        ],
        seq![
            action_key("#+="@, ActionView::SwitchPage(KeyboardPage::Symbols), 64),
            text_key("."@, "."@),
            text_key(","@, ","@),
            text_key("?"@, "?"@),
            text_key("!"@, "!"@),
            text_key("…"@, "…"@),
            text_key("'"@, "'"@),
            action_key("⌫"@, ActionView::Backspace, 64),
        ],
        seq![
            action_key("ABC"@, ActionView::SwitchPage(KeyboardPage::Letters), 64),
            text_key("/"@, "/"@),
            action_key("space"@, ActionView::Space, 320),
            text_key("."@, "."@),
            action_key("return"@, ActionView::Enter, 80),
        ],
    ]
}

/// The number page.
pub fn number_layout() -> (rows: Vec<Vec<KeyDef>>)
    ensures
        layout_view(rows@) == spec_number_layout(),
{
    let row0 = char_keys("1234567890");
    let row1 = vec![
        KeyDef::text("-", "-"),
        KeyDef::text("/", "/"),
        KeyDef::text(":", ":"),
        KeyDef::text("_", "_"),
        KeyDef::text("(", "("),
        KeyDef::text(")", ")"),
        KeyDef::text("#", "#"),
        KeyDef::text("&", "&"),
        KeyDef::text("@", "@"),
        KeyDef::text("\"", "\""),
    ];
    let row2 = vec![
        KeyDef::action("#+=", KeyAction::SwitchPage(KeyboardPage::Symbols), 64),
        KeyDef::text(".", "."),
        KeyDef::text(",", ","),
        KeyDef::text("?", "?"),
        KeyDef::text("!", "!"),
        KeyDef::text("…", "…"),
        KeyDef::text("'", "'"),
        KeyDef::action("⌫", KeyAction::Backspace, 64),
    ];
    let row3 = vec![
        KeyDef::action("ABC", KeyAction::SwitchPage(KeyboardPage::Letters), 64),
        KeyDef::text("/", "/"),
        KeyDef::action("space", KeyAction::Space, 320),
        KeyDef::text(".", "."),
        KeyDef::action("return", KeyAction::Enter, 80),
    ];
    let rows = vec![row0, row1, row2, row3];
    proof {
        let spec = spec_number_layout();
        assert(row_view(row1@) =~= spec[1]);
        assert(row_view(row2@) =~= spec[2]);
        assert(row_view(row3@) =~= spec[3]);
        assert(layout_view(rows@) =~= spec);
    }
    rows
}

/// The symbol page.
pub open spec fn spec_symbol_layout() -> Seq<Seq<KeyView>> {
    seq![
        seq![
            text_key("["@, "["@),
            text_key("]"@, "]"@),
            text_key("{"@, "{"@),
            text_key("}"@, "}"@),
            text_key("÷"@, "÷"@),
            text_key("%"@, "%"@),
            text_key("^"@, "^"@),
            text_key("*"@, "*"@),
            text_key("+"@, "+"@),
            text_key("="@, "="@),
        ],
        seq![
            text_key("\\"@, "\\"@),
            text_key("|"@, "|"@),
            text_key(";"@, ";"@),
            text_key("¢"@, "¢"@),
            text_key("฿"@, "฿"@),
            text_key("€"@, "€"@),
            text_key("£"@, "£"@),
            text_key("$"@, "$"@),
            text_key("¥"@, "¥"@),
            text_key("·"@, "·"@),
        ],
        seq![
            action_key("123"@, ActionView::SwitchPage(KeyboardPage::Numbers), 64),
            text_key("<"@, "<"@),
            text_key(">"@, ">"@),
            text_key("♀"@, "♀"@),
            text_key("♂"@, "♂"@),
            text_key("→"@, "→"@),
            text_key("~"@, "~"@),
            action_key("⌫"@, ActionView::Backspace, 64),
        ],
        seq![
            action_key("ABC"@, ActionView::SwitchPage(KeyboardPage::Letters), 64),
            text_key("/"@, "/"@),
            action_key("space"@, ActionView::Space, 320),
            text_key("."@, "."@),
            action_key("return"@, ActionView::Enter, 80),
        ],
    ]
}

/// The symbol page.
pub fn symbol_layout() -> (rows: Vec<Vec<KeyDef>>)
    ensures
        layout_view(rows@) == spec_symbol_layout(),
{
    let row0 = vec![
        KeyDef::text("[", "["),
        KeyDef::text("]", "]"),
        KeyDef::text("{", "{"),
        KeyDef::text("}", "}"),
        KeyDef::text("÷", "÷"),
        KeyDef::text("%", "%"),
        KeyDef::text("^", "^"),
        KeyDef::text("*", "*"),
        KeyDef::text("+", "+"),
        KeyDef::text("=", "="),
    ];
    let row1 = vec![
        KeyDef::text("\\", "\\"),
        KeyDef::text("|", "|"),
        KeyDef::text(";", ";"),
        KeyDef::text("¢", "¢"),
        KeyDef::text("฿", "฿"),
        KeyDef::text("€", "€"),
        KeyDef::text("£", "£"),
        KeyDef::text("$", "$"),
        KeyDef::text("¥", "¥"),
        KeyDef::text("·", "·"),
    ];
    let row2 = vec![
        KeyDef::action("123", KeyAction::SwitchPage(KeyboardPage::Numbers), 64),
        KeyDef::text("<", "<"),
        KeyDef::text(">", ">"),
        KeyDef::text("♀", "♀"),
        KeyDef::text("♂", "♂"),
        KeyDef::text("→", "→"),
        KeyDef::text("~", "~"),
        KeyDef::action("⌫", KeyAction::Backspace, 64),
    ];
    let row3 = vec![
        KeyDef::action("ABC", KeyAction::SwitchPage(KeyboardPage::Letters), 64),
        KeyDef::text("/", "/"),
        KeyDef::action("space", KeyAction::Space, 320),
        KeyDef::text(".", "."),
        KeyDef::action("return", KeyAction::Enter, 80),
    ];
    let rows = vec![row0, row1, row2, row3];
    proof {
        let spec = spec_symbol_layout();
        assert(row_view(row0@) =~= spec[0]);
        assert(row_view(row1@) =~= spec[1]);
        assert(row_view(row2@) =~= spec[2]);
        assert(row_view(row3@) =~= spec[3]);
        assert(layout_view(rows@) =~= spec);
    }
    rows
}

/// The layout shown for a keyboard state.
pub open spec fn spec_keyboard_layout(state: KeyboardState) -> Seq<Seq<KeyView>> {
    match state.page {
        KeyboardPage::Letters => spec_letter_layout(state.shifted),
        KeyboardPage::Numbers => spec_number_layout(),
        KeyboardPage::Symbols => spec_symbol_layout(),
    }
}

/// The layout shown for a keyboard state.
pub fn keyboard_layout(state: &KeyboardState) -> (rows: Vec<Vec<KeyDef>>)
    ensures
        layout_view(rows@) == spec_keyboard_layout(*state),
{
    match state.page {
        KeyboardPage::Letters => letter_layout(state.shifted),
        KeyboardPage::Numbers => number_layout(),
        KeyboardPage::Symbols => symbol_layout(),
    }
}

/// The width a key takes: its own, or the standard key size.
pub open spec fn key_width(k: KeyView) -> u32 {
    match k.width {
        Some(w) => w,
        None => KEY_SIZE,
    }
}

/// The width of a row: its keys' widths with one gap between neighbours.
pub open spec fn row_width(row: Seq<KeyView>) -> int
    decreases row.len(),
{
    if row.len() == 0 {
        0
    } else if row.len() == 1 {
        key_width(row[0]) as int
    } else {
        row_width(row.drop_last()) + KEY_GAP + key_width(row.last())
    }
}

/// The width of the widest row (0 for no rows).
pub open spec fn max_row_width(rows: Seq<Seq<KeyView>>) -> int
    decreases rows.len(),
{
    if rows.len() == 0 {
        0
    } else {
        let w = row_width(rows.last());
        let m = max_row_width(rows.drop_last());
        if w > m { w } else { m }
    }
}

/// The window width that fits a layout: its widest row plus the panel padding.
pub open spec fn spec_desired_width(rows: Seq<Seq<KeyView>>) -> int {
    max_row_width(rows) + PANEL_PADDING
}

/// Rows of at most 16 keys, each at most 1000 pixels wide.
pub open spec fn layout_bounded(rows: Seq<Seq<KeyView>>) -> bool {
    &&& forall|i: int| 0 <= i < rows.len() ==> (#[trigger] rows[i]).len() <= 16
    &&& forall|i: int, j: int|
        0 <= i < rows.len() && 0 <= j < rows[i].len() ==> #[trigger] key_width(rows[i][j]) <= 1000
}

proof fn lemma_row_width_bound(row: Seq<KeyView>)
    requires
        forall|j: int| 0 <= j < row.len() ==> #[trigger] key_width(row[j]) <= 1000,
    ensures
        0 <= row_width(row) <= row.len() * 1005,
    decreases row.len(),
{
    if row.len() > 1 {
        assert forall|j: int| 0 <= j < row.drop_last().len() implies #[trigger] key_width(row.drop_last()[j]) <= 1000 by {
            assert(row.drop_last()[j] == row[j]);
        }
        lemma_row_width_bound(row.drop_last());
        assert(key_width(row[row.len() - 1]) <= 1000);
    } else if row.len() == 1 {
        assert(key_width(row[0]) <= 1000);
    }
}

proof fn lemma_max_row_width_bound(rows: Seq<Seq<KeyView>>)
    requires
        layout_bounded(rows),
    ensures
        0 <= max_row_width(rows) <= 16 * 1005,
    decreases rows.len(),
{
    if rows.len() > 0 {
        let last = rows.last();
        assert forall|j: int| 0 <= j < last.len() implies #[trigger] key_width(last[j]) <= 1000 by {
            assert(key_width(rows[rows.len() - 1][j]) <= 1000);
        }
        lemma_row_width_bound(last);
        assert(rows[rows.len() - 1].len() <= 16);
        assert(last.len() * 1005 <= 16 * 1005) by (nonlinear_arith)
            requires last.len() <= 16;
        let init = rows.drop_last();
        assert forall|i: int, j: int| 0 <= i < init.len() && 0 <= j < init[i].len() implies #[trigger] key_width(init[i][j]) <= 1000 by {
            assert(init[i] == rows[i]);
            assert(key_width(rows[i][j]) <= 1000);
        }
        assert forall|i: int| 0 <= i < init.len() implies (#[trigger] init[i]).len() <= 16 by {
            assert(init[i] == rows[i]);
        }
        lemma_max_row_width_bound(init);
    }
}

proof fn lemma_char_row(s: Seq<char>)
    ensures
        char_row(s).len() == s.len(),
        forall|j: int| 0 <= j < s.len() ==> (#[trigger] char_row(s)[j]).width is None,
{
}

/// Every layout of the keyboard has rows of at most 16 keys and keys of at
/// most 1000 pixels.
proof fn lemma_keyboard_layout_bounded(state: KeyboardState)
    ensures
        layout_bounded(spec_keyboard_layout(state)),
{
    reveal_strlit("qwertyuiop");
    reveal_strlit("asdfghjkl");
    reveal_strlit("zxcvbnm");
    reveal_strlit("QWERTYUIOP");
    reveal_strlit("ASDFGHJKL");
    reveal_strlit("ZXCVBNM");
    reveal_strlit("1234567890");
    let rows = spec_keyboard_layout(state);
    assert forall|i: int| 0 <= i < rows.len() implies (#[trigger] rows[i]).len() <= 16 by {
        if state.page == KeyboardPage::Letters {
            if state.shifted {
                lemma_char_row("QWERTYUIOP"@);
                lemma_char_row("ASDFGHJKL"@);
                lemma_char_row("ZXCVBNM"@);
            } else {
                lemma_char_row("qwertyuiop"@);
                lemma_char_row("asdfghjkl"@);
                lemma_char_row("zxcvbnm"@);
            }
        } else if state.page == KeyboardPage::Numbers {
            lemma_char_row("1234567890"@);
        }
    }
    assert forall|i: int, j: int| 0 <= i < rows.len() && 0 <= j < rows[i].len() implies #[trigger] key_width(rows[i][j]) <= 1000 by {
        if state.page == KeyboardPage::Letters {
            if state.shifted {
                lemma_char_row("QWERTYUIOP"@);
                lemma_char_row("ASDFGHJKL"@);
                lemma_char_row("ZXCVBNM"@);
            } else {
                lemma_char_row("qwertyuiop"@);
                lemma_char_row("asdfghjkl"@);
                lemma_char_row("zxcvbnm"@);
            }
            if i == 2 {
                let r = rows[2];
                if 1 <= j < r.len() - 1 {
                    let z = if state.shifted { "ZXCVBNM"@ } else { "zxcvbnm"@ };
                    assert(r[j] == char_row(z)[j - 1]);
                }
            }
        } else if state.page == KeyboardPage::Numbers {
            lemma_char_row("1234567890"@);
        }
    }
}

/// Width of one row of keys.
fn row_width_of(row: &Vec<KeyDef>) -> (w: u32)
    requires
        row@.len() <= 16,
        forall|j: int| 0 <= j < row@.len() ==> #[trigger] key_width(row@[j]@) <= 1000,
    ensures
        w == row_width(row_view(row@)),
{
    let ghost rv = row_view(row@);
    let mut w: u32 = 0;
    let mut j: usize = 0;
    while j < row.len()
        invariant
            rv == row_view(row@),
            row@.len() <= 16,
            forall|k: int| 0 <= k < row@.len() ==> #[trigger] key_width(row@[k]@) <= 1000,
            0 <= j <= row@.len(),
            w == row_width(rv.take(j as int)),
            w <= j * 1005,
        decreases row@.len() - j,
    {
        let key_w = row[j].display_width();
        assert(key_w == key_width(rv[j as int]));
        assert(rv.take(j + 1).drop_last() =~= rv.take(j as int));
        if j > 0 {
            w = w + KEY_GAP;
        }
        w = w + key_w;
        j = j + 1;
    }
    assert(rv.take(j as int) =~= rv);
    w
}

/// Compute the desired window width for the current keyboard page so that the
/// key panel fits snugly without stretching across the entire screen.
pub fn keyboard_desired_width(state: &KeyboardState) -> (w: u32)
    ensures
        w == spec_desired_width(spec_keyboard_layout(*state)),
{
    let layout = keyboard_layout(state);
    let ghost lv = layout_view(layout@);
    proof {
        lemma_keyboard_layout_bounded(*state);
    }
    let mut max_width: u32 = 0;
    let mut i: usize = 0;
    while i < layout.len()
        invariant
            lv == layout_view(layout@),
            layout_bounded(lv),
            0 <= i <= layout@.len(),
            max_width == max_row_width(lv.take(i as int)),
        decreases layout@.len() - i,
    {
        let row = &layout[i];
        assert(lv[i as int] == row_view(row@));
        proof {
            assert forall|j: int| 0 <= j < row@.len() implies #[trigger] key_width(row@[j]@) <= 1000 by {
                assert(row_view(row@)[j] == row@[j]@);
                assert(key_width(lv[i as int][j]) <= 1000);
            }
            assert(lv[i as int].len() <= 16);
        }
        let row_w = row_width_of(row);
        assert(lv.take(i + 1).drop_last() =~= lv.take(i as int));
        if row_w > max_width {
            max_width = row_w;
        }
        i = i + 1;
        proof {
            let t = lv.take(i as int);
            assert forall|a: int, b: int| 0 <= a < t.len() && 0 <= b < t[a].len() implies #[trigger] key_width(t[a][b]) <= 1000 by {
                assert(t[a] == lv[a]);
                assert(key_width(lv[a][b]) <= 1000);
            }
            assert forall|a: int| 0 <= a < t.len() implies (#[trigger] t[a]).len() <= 16 by {
                assert(t[a] == lv[a]);
            }
            lemma_max_row_width_bound(t);
        }
    }
    assert(lv.take(i as int) =~= lv);
    proof {
        lemma_max_row_width_bound(lv);
    }
    max_width + PANEL_PADDING
}

/// The key a Shift press turns `k` into: a lower-case letter key becomes the
/// upper-case one, every other key stays.
pub open spec fn shifted_key(k: KeyView) -> KeyView {
    match k.action {
        ActionView::Char(c) => KeyView { action: ActionView::Char(spec_to_ascii_uppercase(c)), ..k },
        _ => k,
    }
}

/// Shift changes the letter page only by putting its letters in upper case:
/// the layout keeps its shape, and each key becomes its shifted form.
pub proof fn lemma_shifted_letters_are_uppercase()
    ensures
        spec_letter_layout(true).len() == spec_letter_layout(false).len(),
        forall|i: int| 0 <= i < spec_letter_layout(false).len() ==>
            (#[trigger] spec_letter_layout(true)[i]).len() == spec_letter_layout(false)[i].len(),
        forall|i: int, j: int| 0 <= i < spec_letter_layout(false).len() && 0 <= j < spec_letter_layout(false)[i].len() ==>
            #[trigger] spec_letter_layout(true)[i][j] == shifted_key(spec_letter_layout(false)[i][j]),
{
    reveal_strlit("qwertyuiop");
    reveal_strlit("asdfghjkl");
    reveal_strlit("zxcvbnm");
    reveal_strlit("QWERTYUIOP");
    reveal_strlit("ASDFGHJKL");
    reveal_strlit("ZXCVBNM");
    let lo = spec_letter_layout(false);
    let up = spec_letter_layout(true);
    lemma_char_row_upper("qwertyuiop"@, "QWERTYUIOP"@);
    lemma_char_row_upper("asdfghjkl"@, "ASDFGHJKL"@);
    lemma_char_row_upper("zxcvbnm"@, "ZXCVBNM"@);
    assert forall|i: int, j: int| 0 <= i < lo.len() && 0 <= j < lo[i].len() implies
        #[trigger] up[i][j] == shifted_key(lo[i][j]) by {
        if i == 2 && 1 <= j < lo[2].len() - 1 {
            assert(lo[2][j] == char_row("zxcvbnm"@)[j - 1]);
            assert(up[2][j] == char_row("ZXCVBNM"@)[j - 1]);
        }
    }
}

proof fn lemma_char_row_upper(lower: Seq<char>, upper: Seq<char>)
    requires
        lower.len() == upper.len(),
        forall|j: int| 0 <= j < lower.len() ==> #[trigger] upper[j] == spec_to_ascii_uppercase(lower[j]),
    ensures
        char_row(upper).len() == char_row(lower).len(),
        forall|j: int| 0 <= j < lower.len() ==> #[trigger] char_row(upper)[j] == shifted_key(char_row(lower)[j]),
{
}

/// Whether some key of the layout has the action `a`.
pub open spec fn has_action(rows: Seq<Seq<KeyView>>, a: ActionView) -> bool {
    exists|i: int, j: int| 0 <= i < rows.len() && 0 <= j < rows[i].len() && (#[trigger] rows[i][j]).action == a
}

/// Every page has Backspace, Enter and Space keys, and a key back to the
/// letters or on to the numbers; the letters lead to the numbers, the numbers
/// to the symbols and the letters, the symbols to the numbers and the
/// letters; no page has a key to itself.
pub proof fn lemma_page_keys(state: KeyboardState)
    ensures
        has_action(spec_keyboard_layout(state), ActionView::Backspace),
        has_action(spec_keyboard_layout(state), ActionView::Enter),
        has_action(spec_keyboard_layout(state), ActionView::Space),
        state.page == KeyboardPage::Letters ==> has_action(spec_keyboard_layout(state), ActionView::SwitchPage(KeyboardPage::Numbers)),
        state.page == KeyboardPage::Numbers ==> has_action(spec_keyboard_layout(state), ActionView::SwitchPage(KeyboardPage::Symbols)),
        state.page == KeyboardPage::Numbers ==> has_action(spec_keyboard_layout(state), ActionView::SwitchPage(KeyboardPage::Letters)),
        state.page == KeyboardPage::Symbols ==> has_action(spec_keyboard_layout(state), ActionView::SwitchPage(KeyboardPage::Numbers)),
        state.page == KeyboardPage::Symbols ==> has_action(spec_keyboard_layout(state), ActionView::SwitchPage(KeyboardPage::Letters)),
        !has_action(spec_keyboard_layout(state), ActionView::SwitchPage(state.page)),
{
    reveal_strlit("qwertyuiop");
    reveal_strlit("asdfghjkl");
    reveal_strlit("zxcvbnm");
    reveal_strlit("QWERTYUIOP");
    reveal_strlit("ASDFGHJKL");
    reveal_strlit("ZXCVBNM");
    reveal_strlit("1234567890");
    let rows = spec_keyboard_layout(state);
    let last = rows[3];
    assert(last[2].action == ActionView::Space);
    assert(last[4].action == ActionView::Enter);
    assert(rows[2][rows[2].len() - 1].action == ActionView::Backspace);
    match state.page {
        KeyboardPage::Letters => {
            assert(last[0].action == ActionView::SwitchPage(KeyboardPage::Numbers));
        },
        KeyboardPage::Numbers => {
            assert(rows[2][0].action == ActionView::SwitchPage(KeyboardPage::Symbols));
            assert(last[0].action == ActionView::SwitchPage(KeyboardPage::Letters));
        },
        KeyboardPage::Symbols => {
            assert(rows[2][0].action == ActionView::SwitchPage(KeyboardPage::Numbers));
            assert(last[0].action == ActionView::SwitchPage(KeyboardPage::Letters));
        },
    }
    if has_action(rows, ActionView::SwitchPage(state.page)) {
        let (i, j) = choose|i: int, j: int| 0 <= i < rows.len() && 0 <= j < rows[i].len() && (#[trigger] rows[i][j]).action == ActionView::SwitchPage(state.page);
        lemma_char_row("qwertyuiop"@);
        lemma_char_row("asdfghjkl"@);
        lemma_char_row("zxcvbnm"@);
        lemma_char_row("QWERTYUIOP"@);
        lemma_char_row("ASDFGHJKL"@);
        lemma_char_row("ZXCVBNM"@);
        lemma_char_row("1234567890"@);
        if state.page == KeyboardPage::Letters && i == 2 && 1 <= j < rows[2].len() - 1 {
            let z = if state.shifted { "ZXCVBNM"@ } else { "zxcvbnm"@ };
            assert(rows[2][j] == char_row(z)[j - 1]);
        }
        assert(false);
    }
}

/// Every key that inserts a single character inserts one with a physical
/// key on the US layout.
pub proof fn lemma_char_keys_have_codes(state: KeyboardState)
    ensures
        forall|i: int, j: int| 0 <= i < spec_keyboard_layout(state).len() && 0 <= j < spec_keyboard_layout(state)[i].len()
            && (#[trigger] spec_keyboard_layout(state)[i][j]).action is Char ==>
            spec_char_to_event_code(spec_keyboard_layout(state)[i][j].action->Char_0) is Some,
{
    reveal_strlit("qwertyuiop");
    reveal_strlit("asdfghjkl");
    reveal_strlit("zxcvbnm");
    reveal_strlit("QWERTYUIOP");
    reveal_strlit("ASDFGHJKL");
    reveal_strlit("ZXCVBNM");
    reveal_strlit("1234567890");
    lemma_shifted_letters_are_uppercase();
    let rows = spec_keyboard_layout(state);
    let lo = spec_letter_layout(false);
    assert forall|i: int, j: int| 0 <= i < rows.len() && 0 <= j < rows[i].len() && (#[trigger] rows[i][j]).action is Char implies
        spec_char_to_event_code(rows[i][j].action->Char_0) is Some by {
        lemma_char_row("qwertyuiop"@);
        lemma_char_row("asdfghjkl"@);
        lemma_char_row("zxcvbnm"@);
        lemma_char_row("1234567890"@);
        if state.page == KeyboardPage::Letters {
            let c = lo[i][j].action->Char_0;
            if i == 2 && 1 <= j < lo[2].len() - 1 {
                assert(lo[2][j] == char_row("zxcvbnm"@)[j - 1]);
            }
            if i < 3 && lo[i][j].action is Char {
                assert('a' <= c && c <= 'z');
                lemma_letter_case_same_key(c);
            }
            assert(rows[i][j] == lo[i][j] || rows[i][j] == shifted_key(lo[i][j]));
        }
    }
}

/// How a key is drawn.
#[derive(Clone, Copy, PartialEq, Eq, Debug, Structural)]
pub enum KeyStyle {
    /// An ordinary key.
    Plain,
    /// The emphasised key (Return).
    Primary,
    /// A function key (Shift, page keys, Backspace).
    Secondary,
    /// A function key drawn as switched on (Shift while shifted).
    SecondarySelected,
}

/// How a key with the given action is drawn.
pub open spec fn spec_key_style(action: ActionView, shifted: bool) -> KeyStyle {
    match action {
        ActionView::Enter => KeyStyle::Primary,
        ActionView::Shift => if shifted { KeyStyle::SecondarySelected } else { KeyStyle::Secondary },
        ActionView::SwitchPage(_) => KeyStyle::Secondary,
        ActionView::Backspace => KeyStyle::Secondary,
        _ => KeyStyle::Plain,
    }
}

/// How a key with the given action is drawn: Return stands out, the Shift,
/// page and Backspace keys are function keys, and Shift shows as selected
/// while the keyboard is shifted.
pub fn key_style(action: &KeyAction, shifted: bool) -> (style: KeyStyle)
    ensures
        style == spec_key_style(action@, shifted),
{
    match *action {
        KeyAction::Enter => KeyStyle::Primary,
        KeyAction::Shift => if shifted {
            KeyStyle::SecondarySelected
        } else {
            KeyStyle::Secondary
        },
        KeyAction::SwitchPage(_) => KeyStyle::Secondary,
        KeyAction::Backspace => KeyStyle::Secondary,
        _ => KeyStyle::Plain,
    }
}

/// The text a key shows: its label, or when the label is empty, what the key
/// inserts.
pub open spec fn spec_key_label(k: KeyView) -> Seq<char> {
    if k.label.len() == 0 {
        match k.action {
            ActionView::Char(c) => seq![c],
            ActionView::Text(t) => t,
            _ => k.label,
        }
    } else {
        k.label
    }
}

/// Calls std's `ToString::to_string` on a `char`; std documents the result
/// as the string holding just that character.
#[verifier::external_body]
fn char_to_string(c: char) -> (s: String)
    ensures
        s@ == seq![c],
{
    c.to_string()
}

/// The text a key shows: its label, or when the label is empty, what the key
/// inserts.
pub fn key_label(key: &KeyDef) -> (text: String)
    ensures
        text@ == spec_key_label(key@),
{
    if key.label.is_empty() {
        match key.action {
            KeyAction::Char(c) => char_to_string(c),
            KeyAction::Text(t) => t.to_owned(),
            _ => key.label.to_owned(),
        }
    } else {
        key.label.to_owned()
    }
}

/// What a key inserts when tapped, if it inserts text.
pub open spec fn inserted_text(a: ActionView) -> Option<Seq<char>> {
    match a {
        ActionView::Char(c) => Some(seq![c]),
        ActionView::Text(t) => Some(t),
        _ => None,
    }
}

/// Every key that inserts text inserts what it shows: a text key's label is
/// its text, and a character key is labelled with its character or shows it
/// through an empty label.
pub proof fn lemma_keys_insert_what_they_show(state: KeyboardState)
    ensures
        forall|i: int, j: int| 0 <= i < spec_keyboard_layout(state).len() && 0 <= j < spec_keyboard_layout(state)[i].len()
            && (#[trigger] spec_keyboard_layout(state)[i][j]).action is Text ==>
            spec_keyboard_layout(state)[i][j].label == spec_keyboard_layout(state)[i][j].action->Text_0,
        forall|i: int, j: int| 0 <= i < spec_keyboard_layout(state).len() && 0 <= j < spec_keyboard_layout(state)[i].len()
            && (#[trigger] spec_keyboard_layout(state)[i][j]).action is Char ==>
            spec_keyboard_layout(state)[i][j].label.len() == 0
            || spec_keyboard_layout(state)[i][j].label == seq![spec_keyboard_layout(state)[i][j].action->Char_0],
        forall|i: int, j: int| 0 <= i < spec_keyboard_layout(state).len() && 0 <= j < spec_keyboard_layout(state)[i].len()
            && (#[trigger] inserted_text(spec_keyboard_layout(state)[i][j].action)) is Some ==>
            spec_key_label(spec_keyboard_layout(state)[i][j]) == inserted_text(spec_keyboard_layout(state)[i][j].action)->Some_0,
{
    reveal_strlit("");
    reveal_strlit(",");
    reveal_strlit("qwertyuiop");
    reveal_strlit("asdfghjkl");
    reveal_strlit("zxcvbnm");
    reveal_strlit("QWERTYUIOP");
    reveal_strlit("ASDFGHJKL");
    reveal_strlit("ZXCVBNM");
    reveal_strlit("1234567890");
    let rows = spec_keyboard_layout(state);
    assert forall|i: int, j: int| 0 <= i < rows.len() && 0 <= j < rows[i].len() implies {
        let k = #[trigger] rows[i][j];
        &&& (k.action is Text ==> k.label == k.action->Text_0)
        &&& (k.action is Char ==> k.label.len() == 0 || k.label == seq![k.action->Char_0])
        &&& (inserted_text(k.action) is Some ==> spec_key_label(k) == inserted_text(k.action)->Some_0)
    } by {
        lemma_char_row("qwertyuiop"@);
        lemma_char_row("asdfghjkl"@);
        lemma_char_row("zxcvbnm"@);
        lemma_char_row("QWERTYUIOP"@);
        lemma_char_row("ASDFGHJKL"@);
        lemma_char_row("ZXCVBNM"@);
        lemma_char_row("1234567890"@);
        lemma_char_row_keys("qwertyuiop"@);
        lemma_char_row_keys("asdfghjkl"@);
        lemma_char_row_keys("zxcvbnm"@);
        lemma_char_row_keys("QWERTYUIOP"@);
        lemma_char_row_keys("ASDFGHJKL"@);
        lemma_char_row_keys("ZXCVBNM"@);
        lemma_char_row_keys("1234567890"@);
        if state.page == KeyboardPage::Letters && i == 2 && 1 <= j < rows[2].len() - 1 {
            let z = if state.shifted { "ZXCVBNM"@ } else { "zxcvbnm"@ };
            assert(rows[2][j] == char_row(z)[j - 1]);
        }
    }
}

proof fn lemma_char_row_keys(s: Seq<char>)
    ensures
        forall|j: int| 0 <= j < s.len() ==> (#[trigger] char_row(s)[j]).label.len() == 0
            && char_row(s)[j].action == ActionView::Char(s[j]),
{
    reveal_strlit("");
    assert(""@.len() == 0);
}

} // verus!
