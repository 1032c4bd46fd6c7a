//! The in-process backend's keyboard layout: printable ASCII to US-QWERTY
//! key codes (from `linux/input-event-codes.h`) with shift handling.
use crate::text::{chars_of, concat2};
use vstd::prelude::*;

verus! {

pub const KEY_RESERVED: u16 = 0;
pub const KEY_BACKSPACE: u16 = 14;
pub const KEY_LEFTSHIFT: u16 = 42;

/// Key codes of `a`..`z`, in alphabetical order.
pub open spec fn letter_codes() -> Seq<u16> {
    seq![30, 48, 46, 32, 18, 33, 34, 35, 23, 36, 37, 38, 50, 49, 24, 25, 16, 19, 31, 20, 22, 47, 17, 45, 21, 44]
}

/// Key code of a lowercase letter (`KEY_RESERVED` for anything else).
pub open spec fn letter_code(c: char) -> u16 {
    if 'a' <= c <= 'z' {
        letter_codes()[(c as u32 - 97) as int]
    } else {
        KEY_RESERVED
    }
}

/// Key code of a digit `1`..`9` (`KEY_RESERVED` for anything else).
pub open spec fn digit_code(c: char) -> u16 {
    if '1' <= c <= '9' {
        (c as u32 - 47) as u16
    } else {
        KEY_RESERVED
    }
}

/// US-QWERTY: printable ASCII (plus tab and line breaks) to
/// `(key code, needs shift)`; anything else has no key.
pub open spec fn key_for(c: char) -> Option<(u16, bool)> {
    if 'a' <= c <= 'z' {
        Some((letter_code(c), false))
    } else if 'A' <= c <= 'Z' {
        Some((letter_code((c as u32 + 32) as char), true))
    } else if '1' <= c <= '9' {
        Some((digit_code(c), false))
    } else {
        match c {
            '0' => Some((11, false)),
            ' ' => Some((57, false)),
            '\n' | '\r' => Some((28, false)),
            '\t' => Some((15, false)),
            '.' => Some((52, false)),
            ',' => Some((51, false)),
            '/' => Some((53, false)),
            ';' => Some((39, false)),
            '\'' => Some((40, false)),
            '[' => Some((26, false)),
            ']' => Some((27, false)),
            '-' => Some((12, false)),
            '=' => Some((13, false)),
            '`' => Some((41, false)),
            '\\' => Some((43, false)),
            '!' => Some((2, true)),
            '@' => Some((3, true)),
            '#' => Some((4, true)),
            '$' => Some((5, true)),
            '%' => Some((6, true)),
            '^' => Some((7, true)),
            '&' => Some((8, true)),
            '*' => Some((9, true)),
            '(' => Some((10, true)),
            ')' => Some((11, true)),
            ':' => Some((39, true)),
            '"' => Some((40, true)),
            '<' => Some((51, true)),
            '>' => Some((52, true)),
            '?' => Some((53, true)),
            '~' => Some((41, true)),
            '_' => Some((12, true)),
            '+' => Some((13, true)),
            '{' => Some((26, true)),
            '}' => Some((27, true)),
            '|' => Some((43, true)),
            _ => None,
        }
    }
}

/// Key code of a lowercase letter.
pub fn letter_key(c: char) -> (r: u16)
    ensures
        r == letter_code(c),
{
    let letters: [u16; 26] = [
        30, 48, 46, 32, 18, 33, 34, 35, 23, 36, 37, 38, 50, 49, 24, 25, 16, 19, 31, 20, 22, 47, 17,
        45, 21, 44,
    ];
    assert(letters@ =~= letter_codes());
    if 'a' <= c && c <= 'z' {
        letters[(c as u32 - 97) as usize]
    } else {
        KEY_RESERVED
    }
}

/// Key code of a digit `1`..`9`.
pub fn digit_key(c: char) -> (r: u16)
    ensures
        r == digit_code(c),
{
    if '1' <= c && c <= '9' {
        (c as u32 - 47) as u16
    } else {
        KEY_RESERVED
    }
}

/// US-QWERTY: printable ASCII char to `(key code, needs shift)`.
/// Unsupported characters have no key (never crash a session over an
/// emoji).
pub fn lookup(c: char) -> (r: Option<(u16, bool)>)
    ensures
        r == key_for(c),
{
    if 'a' <= c && c <= 'z' {
        Some((letter_key(c), false))
    } else if 'A' <= c && c <= 'Z' {
        let lower = ((c as u32 + 32) as u8) as char;
        assert(lower == (c as u32 + 32) as char);
        Some((letter_key(lower), true))
    } else if '1' <= c && c <= '9' {
        Some((digit_key(c), false))
    } else {
        match c {
            '0' => Some((11, false)),
            ' ' => Some((57, false)),
            '\n' | '\r' => Some((28, false)),
            '\t' => Some((15, false)),
            '.' => Some((52, false)),
            ',' => Some((51, false)),
            '/' => Some((53, false)),
            ';' => Some((39, false)),
            '\'' => Some((40, false)),
            '[' => Some((26, false)),
            ']' => Some((27, false)),
            '-' => Some((12, false)),
            '=' => Some((13, false)),
            '`' => Some((41, false)),
            '\\' => Some((43, false)),
            '!' => Some((2, true)),
            '@' => Some((3, true)),
            '#' => Some((4, true)),
            '$' => Some((5, true)),
            '%' => Some((6, true)),
            '^' => Some((7, true)),
            '&' => Some((8, true)),
            '*' => Some((9, true)),
            '(' => Some((10, true)),
            ')' => Some((11, true)),
            ':' => Some((39, true)),
            '"' => Some((40, true)),
            '<' => Some((51, true)),
            '>' => Some((52, true)),
            '?' => Some((53, true)),
            '~' => Some((41, true)),
            '_' => Some((12, true)),
            '+' => Some((13, true)),
            '{' => Some((26, true)),
            '}' => Some((27, true)),
            '|' => Some((43, true)),
            _ => None,
        }
    }
}

/// Every printable ASCII character (`' '` to `'~'`) has a key on the
/// US-QWERTY layout, and an uppercase letter is its lowercase letter's key
/// with shift.
pub proof fn law_printable_ascii_has_a_key(c: char)
    ensures
        ' ' <= c <= '~' ==> (key_for(c) matches Some((k, _)) && k != KEY_RESERVED),
        'A' <= c <= 'Z' ==> key_for(c) == Some(
            (key_for((c as u32 + 32) as char).unwrap().0, true),
        ),
{
    if ' ' <= c <= '~' {
        let i = c as u32;
        if 'a' <= c <= 'z' || 'A' <= c <= 'Z' {
            assert(letter_codes().len() == 26);
            assert(forall|j: int| 0 <= j < 26 ==> letter_codes()[j] != KEY_RESERVED);
        }
    }
}

/// The key presses that type `s`: one `(code, shift)` per character with a
/// usable key, in order; the rest are skipped.
pub open spec fn taps_for(s: Seq<char>) -> Seq<(u16, bool)>
    decreases s.len(),
{
    if s.len() == 0 {
        Seq::empty()
    } else {
        let rest = taps_for(s.drop_last());
        match key_for(s.last()) {
            Some((k, shift)) => if k == KEY_RESERVED {
                rest
            } else {
                rest.push((k, shift))
            },
            None => rest,
        }
    }
}

/// The key presses that type `text` on the virtual keyboard.
pub fn key_taps(text: &str) -> (r: Vec<(u16, bool)>)
    ensures
        r@ == taps_for(text@),
{
    let v = chars_of(text);
    let mut r: Vec<(u16, bool)> = Vec::new();
    let mut i: usize = 0;
    assert(v@.take(0) =~= Seq::<char>::empty());
    while i < v.len()
        invariant
            i <= v.len(),
            v@ == text@,
            r@ == taps_for(v@.take(i as int)),
        decreases v.len() - i,
    {
        assert(v@.take(i + 1).drop_last() =~= v@.take(i as int));
        match lookup(v[i]) {
            Some((k, shift)) => {
                if k != KEY_RESERVED {
                    r.push((k, shift));
                }
            },
            None => {},
        }
        i = i + 1;
    }
    assert(v@.take(v.len() as int) =~= v@);
    r
}

/// Keys the virtual keyboard registers: shift, backspace, and every key a
/// printable ASCII character (`' '`..=`'~'`) can produce, in that order
/// (duplicates are harmless to a key set).
pub open spec fn registered_keys_spec() -> Seq<u16> {
    seq![KEY_LEFTSHIFT, KEY_BACKSPACE] + Seq::new(95, |i: int| key_code_or_zero((i + 32) as char))
}

pub open spec fn key_code_or_zero(c: char) -> u16 {
    match key_for(c) {
        Some((k, _)) => k,
        None => KEY_RESERVED,
    }
}

/// Keys the virtual keyboard needs.
pub fn registered_keys() -> (r: Vec<u16>)
    ensures
        r@ == registered_keys_spec(),
{
    let mut r: Vec<u16> = Vec::new();
    r.push(KEY_LEFTSHIFT);
    r.push(KEY_BACKSPACE);
    let mut cp: u32 = 32;
    while cp <= 126
        invariant
            32 <= cp <= 127,
            r.len() == 2 + (cp - 32),
            r@[0] == KEY_LEFTSHIFT,
            r@[1] == KEY_BACKSPACE,
            forall|j: int| 0 <= j < cp - 32 ==> #[trigger] r@[2 + j] == key_code_or_zero((j + 32) as char),
        decreases 127 - cp,
    {
        let c = (cp as u8) as char;
        assert(c == (cp as int) as char);
        let k = match lookup(c) {
            Some((k, _)) => k,
            None => KEY_RESERVED,
        };
        r.push(k);
        cp = cp + 1;
    }
    assert forall|k: int| 0 <= k < r@.len() implies r@[k] == registered_keys_spec()[k] by {
        if k >= 2 {
            assert(r@[2 + (k - 2)] == key_code_or_zero(((k - 2) + 32) as char));
        }
    }
    assert(r@ =~= registered_keys_spec());
    r
}

/// The device error, with the hint about what `uinput` needs.
pub fn device_error_message(error: &str) -> (r: String)
    ensures
        r@ == error@ + " \u{2014} uinput needs /dev/uinput and `input` group membership"@,
{
    concat2(error, " \u{2014} uinput needs /dev/uinput and `input` group membership")
}

} // verus!
