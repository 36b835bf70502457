//! The text of the temporary XKB keymap that types one Unicode character.
//!
//! The keymap binds the single key `<COPY>` (XKB keycode 100, evdev scancode
//! 92) to the keysym `U` followed by the character's code point in upper-case
//! hexadecimal, at least four digits wide.

use vstd::prelude::*;
use vstd::string::StringSliceAdditionalSpecFns;

verus! {

broadcast use vstd::string::group_string_axioms;

/// The keymap text before the character's keysym digits.
pub const KEYMAP_HEAD: &'static str = "xkb_keymap {
        xkb_keycodes {
            minimum = 8;
            maximum = 100;
            <COPY> = 100;
        };
        xkb_types { include \"complete\" };
        xkb_compat { include \"complete\" };
        xkb_symbols {
            key <COPY> { [ U";

/// The keymap text after the character's keysym digits.
pub const KEYMAP_TAIL: &'static str = " ] };
        };
    };";

/// The ASCII upper-case hexadecimal digit of `d` (below 16).
pub open spec fn hex_digit(d: nat) -> u8 {
    if d < 10 { (48 + d) as u8 } else { (55 + d) as u8 }
}

/// The value of an ASCII hexadecimal digit.
pub open spec fn hex_digit_value(b: u8) -> nat {
    if 48 <= b <= 57 {
        (b - 48) as nat
    } else if 65 <= b <= 70 {
        (b - 55) as nat
    } else {
        0
    }
}

/// The upper-case hexadecimal digits of `n`, with no leading zero (a single
/// `0` for zero).
pub open spec fn hex_digits(n: nat) -> Seq<u8>
    decreases n,
{
    if n < 16 {
        seq![hex_digit(n)]
    } else {
        hex_digits(n / 16).push(hex_digit(n % 16))
    }
}

/// The hexadecimal digits of `n`, padded with zeros to at least four digits.
pub open spec fn hex_min4(n: nat) -> Seq<u8> {
    let d = hex_digits(n);
    let pad: nat = if d.len() < 4 { (4 - d.len()) as nat } else { 0 };
    Seq::new(pad, |i: int| 48u8) + d
}

/// The value of a sequence of hexadecimal digits.
pub open spec fn hex_value(s: Seq<u8>) -> nat
    decreases s.len(),
{
    if s.len() == 0 {
        0
    } else {
        hex_value(s.drop_last()) * 16 + hex_digit_value(s.last())
    }
}

/// The keymap that types `ch`.
pub open spec fn spec_character_keymap(ch: char) -> Seq<u8> {
    KEYMAP_HEAD.spec_bytes() + hex_min4(ch as nat) + KEYMAP_TAIL.spec_bytes()
}

fn push_bytes(out: &mut Vec<u8>, s: &str)
    ensures
        final(out)@ == old(out)@ + s.spec_bytes(),
{
    let bytes = s.as_bytes();
    let mut i: usize = 0;
    while i < bytes.len()
        invariant
            bytes@ == s.spec_bytes(),
            0 <= i <= bytes@.len(),
            out@ == old(out)@ + bytes@.take(i as int),
        decreases bytes@.len() - i,
    {
        out.push(bytes[i]);
        i = i + 1;
        assert(out@ =~= old(out)@ + bytes@.take(i as int));
    }
    assert(bytes@.take(i as int) =~= bytes@);
}

fn hex_digit_byte(d: u32) -> (b: u8)
    requires
        d < 16,
    ensures
        b == hex_digit(d as nat),
{
    if d < 10 {
        (48 + d) as u8
    } else {
        (55 + d) as u8
    }
}

fn push_hex_digits(out: &mut Vec<u8>, n: u32)
    ensures
        final(out)@ == old(out)@ + hex_digits(n as nat),
    decreases n,
{
    if n >= 16 {
        push_hex_digits(out, n / 16);
    }
    out.push(hex_digit_byte(n % 16));
    assert(out@ =~= old(out)@ + hex_digits(n as nat));
}

fn hex_digit_count(n: u32) -> (c: usize)
    ensures
        c == hex_digits(n as nat).len(),
        1 <= c <= 8,
    decreases n,
{
    proof {
        lemma_hex_digits_len(n as nat);
    }
    if n >= 16 {
        proof {
            lemma_hex_digits_len((n / 16) as nat);
        }
        hex_digit_count(n / 16) + 1
    } else {
        1
    }
}

proof fn lemma_hex_digits_len(n: nat)
    ensures
        hex_digits(n).len() >= 1,
        n < 0x1_0000_0000 ==> hex_digits(n).len() <= 8,
    decreases n,
{
    if n >= 16 {
        lemma_hex_digits_len(n / 16);
        assert(pow16(8) == 0x1_0000_0000) by {
            reveal_with_fuel(pow16, 9);
        }
        if n < 0x1_0000_0000 {
            lemma_hex_digits_len_bound(n, 8);
        }
    }
}

/// A number below 16^k has at most k digits.
proof fn lemma_hex_digits_len_bound(n: nat, k: nat)
    requires
        k >= 1,
        n < pow16(k),
    ensures
        hex_digits(n).len() <= k,
    decreases n,
{
    if n >= 16 {
        if k == 1 {
            assert(pow16(1) == 16 * pow16(0));
        }
        assert(k >= 2);
        let p = pow16((k - 1) as nat);
        assert(pow16(k) == 16 * p);
        assert(n / 16 < p) by (nonlinear_arith)
            requires n < 16 * p;
        lemma_hex_digits_len_bound(n / 16, (k - 1) as nat);
    }
}

spec fn pow16(k: nat) -> nat
    decreases k,
{
    if k == 0 { 1 } else { 16 * pow16((k - 1) as nat) }
}

/// Build an XKB keymap that maps a single virtual key to the given Unicode
/// character. The virtual key uses XKB keycode 100, which corresponds to Linux
/// evdev scancode 92.
pub fn build_character_keymap(ch: char) -> (keymap: Vec<u8>)
    ensures
        keymap@ == spec_character_keymap(ch),
{
    let code = ch as u32;
    let mut out: Vec<u8> = Vec::new();
    push_bytes(&mut out, KEYMAP_HEAD);
    let ghost head = out@;
    let count = hex_digit_count(code);
    let mut pad: usize = if count < 4 { 4 - count } else { 0 };
    let ghost pad0 = pad;
    while pad > 0
        invariant
            pad <= pad0,
            out@ == head + Seq::new((pad0 - pad) as nat, |i: int| 48u8),
        decreases pad,
    {
        out.push(48u8);
        pad = pad - 1;
        assert(out@ =~= head + Seq::new((pad0 - pad) as nat, |i: int| 48u8));
    }
    push_hex_digits(&mut out, code);
    push_bytes(&mut out, KEYMAP_TAIL);
    assert(out@ =~= spec_character_keymap(ch));
    out
}

proof fn lemma_hex_digit_value(d: nat)
    requires
        d < 16,
    ensures
        hex_digit_value(hex_digit(d)) == d,
{
}

/// The digits are those of the number: reading them back gives `n`.
pub proof fn lemma_hex_digits_value(n: nat)
    ensures
        hex_value(hex_digits(n)) == n,
    decreases n,
{
    if n >= 16 {
        lemma_hex_digits_value(n / 16);
        lemma_hex_digit_value(n % 16);
        let d = hex_digits(n);
        assert(d.drop_last() =~= hex_digits(n / 16));
        assert(d.last() == hex_digit(n % 16));
        assert(hex_value(d) == hex_value(d.drop_last()) * 16 + hex_digit_value(d.last()));
        assert(n == (n / 16) * 16 + n % 16) by (nonlinear_arith);
    } else {
        lemma_hex_digit_value(n);
        let d = hex_digits(n);
        assert(d.drop_last() =~= Seq::<u8>::empty());
        assert(d.last() == hex_digit(n));
        assert(hex_value(d) == hex_value(d.drop_last()) * 16 + hex_digit_value(d.last()));
    }
}

proof fn lemma_hex_value_zero_pad(k: nat, d: Seq<u8>)
    ensures
        hex_value(Seq::new(k, |i: int| 48u8) + d) == hex_value(d),
    decreases d.len(), k,
{
    let z = Seq::new(k, |i: int| 48u8);
    if d.len() > 0 {
        assert((z + d).drop_last() =~= z + d.drop_last());
        lemma_hex_value_zero_pad(k, d.drop_last());
    } else {
        assert(z + d =~= z);
        if k > 0 {
            assert(z.drop_last() =~= Seq::new((k - 1) as nat, |i: int| 48u8));
            lemma_hex_value_zero_pad((k - 1) as nat, d);
            assert(Seq::new((k - 1) as nat, |i: int| 48u8) + d =~= Seq::new((k - 1) as nat, |i: int| 48u8));
        }
    }
}

/// The keysym digits name the character: they are at least four upper-case
/// hexadecimal digits whose value is the character's code point.
pub proof fn lemma_keysym_digits(ch: char)
    ensures
        hex_value(hex_min4(ch as nat)) == ch as nat,
        hex_min4(ch as nat).len() >= 4,
        forall|i: int| 0 <= i < hex_min4(ch as nat).len() ==> {
            let b = #[trigger] hex_min4(ch as nat)[i];
            (48 <= b <= 57) || (65 <= b <= 70)
        },
{
    let n = ch as nat;
    let d = hex_digits(n);
    let pad: nat = if d.len() < 4 { (4 - d.len()) as nat } else { 0 };
    lemma_hex_value_zero_pad(pad, d);
    lemma_hex_digits_value(n);
    lemma_hex_digits_ascii(n);
    let h = hex_min4(n);
    assert forall|i: int| 0 <= i < h.len() implies {
        let b = #[trigger] h[i];
        (48 <= b <= 57) || (65 <= b <= 70)
    } by {
        if i >= pad {
            assert(h[i] == d[i - pad]);
        }
    }
}

proof fn lemma_hex_digits_ascii(n: nat)
    ensures
        forall|i: int| 0 <= i < hex_digits(n).len() ==> {
            let b = #[trigger] hex_digits(n)[i];
            (48 <= b <= 57) || (65 <= b <= 70)
        },
    decreases n,
{
    if n >= 16 {
        lemma_hex_digits_ascii(n / 16);
        let d = hex_digits(n);
        assert forall|i: int| 0 <= i < d.len() implies {
            let b = #[trigger] d[i];
            (48 <= b <= 57) || (65 <= b <= 70)
        } by {
            if i < d.len() - 1 {
                assert(d[i] == hex_digits(n / 16)[i]);
            }
        }
    }
}

} // verus!
