//! Recognizer-side text and timing rules: cleaning Whisper's output,
//! stitching transcriptions, and sizing the audio windows.
use crate::config::EngineConfig;
use crate::provider::{resolve, resolve_spec, GpuSet, ProviderCandidate};
use crate::text::{chars_of, concat3, is_whitespace, is_ws, push_char, str_eq, string_of, trim, trimmed};
use vstd::prelude::*;

verus! {

/// Sample rate of the audio every recognizer receives.
pub const RATE: u32 = 16_000;

/// Whisper's mel runs at 50 frames/s (16 000 / 320 samples).
pub const FRAMES_PER_SEC: usize = 50;

/// Extra encoder window beyond the buffer, so the model still sees a
/// little air after the last word.
pub const AC_GUARD_FRAMES: usize = 50;

/// The encoder window is rounded to this many frames.
pub const AC_ROUND: usize = 25;

/// The model's full (30 s) window, the ceiling for `audio_ctx`.
pub const AC_MAX: usize = 1500;

/// `ceil(a / b)`.
pub open spec fn ceil_div(a: int, b: int) -> int {
    (a + b - 1) / b
}

/// Mel frames covering `len` samples.
pub open spec fn frames_for(len: nat) -> int {
    ceil_div(len as int, 320)
}

/// Mel frames covering `len` samples.
pub fn buf_frames(len: usize) -> (r: usize)
    ensures
        r == frames_for(len as nat),
{
    len / 320 + if len % 320 == 0 {
        0
    } else {
        1
    }
}

/// Encoder window for `len` samples: the buffer plus a one-second guard,
/// rounded up to a multiple of 25 frames, kept within 25..=1500.
pub open spec fn audio_ctx_for(len: nat) -> int {
    let padded = ceil_div(frames_for(len) + AC_GUARD_FRAMES, AC_ROUND as int) * AC_ROUND;
    if padded < AC_ROUND {
        AC_ROUND as int
    } else if padded > AC_MAX {
        AC_MAX as int
    } else {
        padded
    }
}

/// Encoder window for a buffer of `len` samples, sized to the audio
/// instead of Whisper's full 30 s window.
pub fn auto_audio_ctx(len: usize) -> (r: i32)
    ensures
        r == audio_ctx_for(len as nat),
{
    let frames = buf_frames(len) + AC_GUARD_FRAMES;
    let rounds = frames / AC_ROUND + if frames % AC_ROUND == 0 {
        0
    } else {
        1
    };
    if rounds > AC_MAX / AC_ROUND {
        return AC_MAX as i32;
    }
    let padded = rounds * AC_ROUND;
    if padded < AC_ROUND {
        AC_ROUND as i32
    } else {
        padded as i32
    }
}

/// The encoder window is a multiple of 25 frames within 25..=1500, and
/// it covers the buffered audio plus the one-second guard whenever that
/// fits in Whisper's 30-second window.
pub proof fn law_window_fits_the_audio(len: nat)
    ensures
        AC_ROUND <= audio_ctx_for(len) <= AC_MAX,
        audio_ctx_for(len) % 25 == 0,
        frames_for(len) + AC_GUARD_FRAMES <= AC_MAX ==> audio_ctx_for(len) >= frames_for(len)
            + AC_GUARD_FRAMES,
{
    let f = frames_for(len) + AC_GUARD_FRAMES;
    assert(ceil_div(f, 25) * 25 >= f) by (nonlinear_arith)
        requires
            f >= 0,
    ;
    assert(ceil_div(f, 25) * 25 % 25 == 0) by (nonlinear_arith);
}

/// Milliseconds of audio in `len` samples, truncated to `u32`.
pub open spec fn ms_for(len: nat) -> u32 {
    ((len as int) * 1000 / (RATE as int)) as u32
}

/// Milliseconds of audio in `len` samples.
pub fn buf_ms(len: usize) -> (r: u32)
    requires
        len * 1000 <= u64::MAX,
    ensures
        r == ms_for(len as nat),
{
    let total = len as u64 * 1000 / RATE as u64;
    #[verifier::truncate]
    (total as u32)
}

/// Number of occurrences of `c` in `s`.
pub open spec fn count_of(s: Seq<char>, c: char) -> nat
    decreases s.len(),
{
    if s.len() == 0 {
        0
    } else {
        count_of(s.drop_last(), c) + if s.last() == c {
            1nat
        } else {
            0nat
        }
    }
}

/// The characters of `s` outside parentheses, and the nesting depth left
/// at the end (a `)` at depth 0 is ignored).
pub open spec fn outside_parens(s: Seq<char>) -> (Seq<char>, nat)
    decreases s.len(),
{
    if s.len() == 0 {
        (Seq::empty(), 0)
    } else {
        let (out, depth) = outside_parens(s.drop_last());
        let c = s.last();
        if c == '(' {
            (out, depth + 1)
        } else if c == ')' {
            (out, if depth > 0 {
                (depth - 1) as nat
            } else {
                0
            })
        } else if depth == 0 {
            (out.push(c), depth)
        } else {
            (out, depth)
        }
    }
}

/// The words of `s` joined by single spaces
/// (`s.split_whitespace().collect::<Vec<_>>().join(" ")`), and whether
/// whitespace follows the last word.
pub open spec fn squash(s: Seq<char>) -> (Seq<char>, bool)
    decreases s.len(),
{
    if s.len() == 0 {
        (Seq::empty(), false)
    } else {
        let (out, gap) = squash(s.drop_last());
        let c = s.last();
        if is_ws(c) {
            (out, true)
        } else if out.len() > 0 && gap {
            (out + seq![' ', c], false)
        } else {
            (out.push(c), false)
        }
    }
}

/// Whisper's output without its stage directions: with balanced
/// parentheses, everything inside them is dropped and the remaining words
/// are joined by single spaces; unbalanced (or no) parentheses leave the
/// text untouched.
pub open spec fn without_parens(s: Seq<char>) -> Seq<char> {
    let opens = count_of(s, '(');
    if opens == 0 || opens != count_of(s, ')') {
        s
    } else {
        squash(outside_parens(s).0).0
    }
}

fn count_char(v: &Vec<char>, c: char) -> (r: usize)
    ensures
        r == count_of(v@, c),
{
    let mut n: usize = 0;
    let mut i: usize = 0;
    assert(v@.take(0) =~= Seq::<char>::empty());
    while i < v.len()
        invariant
            i <= v.len(),
            n <= i,
            n == count_of(v@.take(i as int), c),
        decreases v.len() - i,
    {
        assert(v@.take(i + 1).drop_last() =~= v@.take(i as int));
        if v[i] == c {
            n = n + 1;
        }
        i = i + 1;
    }
    assert(v@.take(v.len() as int) =~= v@);
    n
}

fn outside(v: &Vec<char>) -> (r: Vec<char>)
    ensures
        r@ == outside_parens(v@).0,
{
    let mut out: Vec<char> = Vec::new();
    let mut depth: usize = 0;
    let mut i: usize = 0;
    assert(v@.take(0) =~= Seq::<char>::empty());
    while i < v.len()
        invariant
            i <= v.len(),
            depth <= i,
            (out@, depth as nat) == outside_parens(v@.take(i as int)),
        decreases v.len() - i,
    {
        assert(v@.take(i + 1).drop_last() =~= v@.take(i as int));
        let c = v[i];
        if c == '(' {
            depth = depth + 1;
        } else if c == ')' {
            depth = if depth > 0 {
                depth - 1
            } else {
                0
            };
        } else if depth == 0 {
            out.push(c);
        }
        i = i + 1;
    }
    assert(v@.take(v.len() as int) =~= v@);
    out
}

fn squash_words(v: &Vec<char>) -> (r: Vec<char>)
    ensures
        r@ == squash(v@).0,
{
    let mut out: Vec<char> = Vec::new();
    let mut gap = false;
    let mut i: usize = 0;
    assert(v@.take(0) =~= Seq::<char>::empty());
    while i < v.len()
        invariant
            i <= v.len(),
            (out@, gap) == squash(v@.take(i as int)),
        decreases v.len() - i,
    {
        assert(v@.take(i + 1).drop_last() =~= v@.take(i as int));
        let c = v[i];
        if is_whitespace(c) {
            gap = true;
        } else {
            if out.len() > 0 && gap {
                out.push(' ');
            }
            out.push(c);
            gap = false;
        }
        i = i + 1;
    }
    assert(v@.take(v.len() as int) =~= v@);
    out
}

/// Drop Whisper's stage directions: everything it writes in parentheses
/// ("(upbeat music)") annotates non-speech; placeholder-only output
/// becomes "", and unbalanced parentheses are left alone.
pub fn strip_parens(s: &str) -> (r: String)
    ensures
        r@ == without_parens(s@),
{
    let v = chars_of(s);
    let opens = count_char(&v, '(');
    if opens == 0 || opens != count_char(&v, ')') {
        return string_of(&v);
    }
    let kept = outside(&v);
    let words = squash_words(&kept);
    string_of(&words)
}

/// No parenthesis anywhere in `s`.
pub open spec fn no_parens(s: Seq<char>) -> bool {
    forall|i: int| 0 <= i < s.len() ==> #[trigger] s[i] != '(' && s[i] != ')'
}

/// One character of the parenthesis scan: the text kept so far and the
/// nesting depth.
pub open spec fn paren_step(st: (Seq<char>, nat), c: char) -> (Seq<char>, nat) {
    let (out, depth) = st;
    if c == '(' {
        (out, depth + 1)
    } else if c == ')' {
        (out, if depth > 0 {
            (depth - 1) as nat
        } else {
            0
        })
    } else if depth == 0 {
        (out.push(c), depth)
    } else {
        (out, depth)
    }
}

/// The parenthesis scan of `y`, started from `st`.
pub open spec fn paren_scan(st: (Seq<char>, nat), y: Seq<char>) -> (Seq<char>, nat)
    decreases y.len(),
{
    if y.len() == 0 {
        st
    } else {
        paren_step(paren_scan(st, y.drop_last()), y.last())
    }
}

proof fn lemma_outside_is_scan(s: Seq<char>)
    ensures
        outside_parens(s) == paren_scan((Seq::empty(), 0), s),
    decreases s.len(),
{
    if s.len() > 0 {
        lemma_outside_is_scan(s.drop_last());
    }
}

proof fn lemma_scan_concat(st: (Seq<char>, nat), a: Seq<char>, b: Seq<char>)
    ensures
        paren_scan(st, a + b) == paren_scan(paren_scan(st, a), b),
    decreases b.len(),
{
    if b.len() == 0 {
        assert(a + b =~= a);
    } else {
        assert((a + b).drop_last() =~= a + b.drop_last());
        assert((a + b).last() == b.last());
        lemma_scan_concat(st, a, b.drop_last());
    }
}

proof fn lemma_scan_free(out: Seq<char>, depth: nat, y: Seq<char>)
    requires
        no_parens(y),
    ensures
        depth == 0 ==> paren_scan((out, depth), y) == (out + y, 0nat),
        depth > 0 ==> paren_scan((out, depth), y) == (out, depth),
    decreases y.len(),
{
    if y.len() == 0 {
        assert(out + y =~= out);
    } else {
        let y0 = y.drop_last();
        assert(no_parens(y0)) by {
            assert forall|i: int| 0 <= i < y0.len() implies #[trigger] y0[i] != '(' && y0[i] != ')' by {
                assert(y0[i] == y[i]);
            }
        }
        assert(y[y.len() - 1] != '(' && y[y.len() - 1] != ')');
        lemma_scan_free(out, depth, y0);
        assert((out + y0).push(y.last()) =~= out + y);
    }
}

proof fn lemma_count_concat(a: Seq<char>, b: Seq<char>, c: char)
    ensures
        count_of(a + b, c) == count_of(a, c) + count_of(b, c),
    decreases b.len(),
{
    if b.len() == 0 {
        assert(a + b =~= a);
    } else {
        assert((a + b).drop_last() =~= a + b.drop_last());
        assert((a + b).last() == b.last());
        lemma_count_concat(a, b.drop_last(), c);
    }
}

proof fn lemma_count_free(y: Seq<char>)
    requires
        no_parens(y),
    ensures
        count_of(y, '(') == 0,
        count_of(y, ')') == 0,
    decreases y.len(),
{
    if y.len() > 0 {
        let y0 = y.drop_last();
        assert(no_parens(y0)) by {
            assert forall|i: int| 0 <= i < y0.len() implies #[trigger] y0[i] != '(' && y0[i] != ')' by {
                assert(y0[i] == y[i]);
            }
        }
        assert(y[y.len() - 1] != '(' && y[y.len() - 1] != ')');
        lemma_count_free(y0);
    }
}

proof fn lemma_outside_has_no_parens(s: Seq<char>)
    ensures
        no_parens(outside_parens(s).0),
    decreases s.len(),
{
    if s.len() > 0 {
        lemma_outside_has_no_parens(s.drop_last());
    }
}

proof fn lemma_squash_keeps_no_parens(t: Seq<char>)
    requires
        no_parens(t),
    ensures
        no_parens(squash(t).0),
    decreases t.len(),
{
    if t.len() > 0 {
        let t0 = t.drop_last();
        assert(no_parens(t0)) by {
            assert forall|i: int| 0 <= i < t0.len() implies #[trigger] t0[i] != '(' && t0[i] != ')' by {
                assert(t0[i] == t[i]);
            }
        }
        assert(t[t.len() - 1] != '(' && t[t.len() - 1] != ')');
        lemma_squash_keeps_no_parens(t0);
    }
}

/// Whether every character of `s` is whitespace.
pub open spec fn blank(s: Seq<char>) -> bool {
    forall|i: int| 0 <= i < s.len() ==> is_ws(#[trigger] s[i])
}

proof fn lemma_squash_blank(t: Seq<char>)
    requires
        blank(t),
    ensures
        squash(t).0.len() == 0,
    decreases t.len(),
{
    if t.len() > 0 {
        let t0 = t.drop_last();
        assert(blank(t0)) by {
            assert forall|i: int| 0 <= i < t0.len() implies is_ws(#[trigger] t0[i]) by {
                assert(t0[i] == t[i]);
            }
        }
        assert(is_ws(t[t.len() - 1]));
        lemma_squash_blank(t0);
    }
}

/// The characters of `s` that are not whitespace, in order.
pub open spec fn non_blank(s: Seq<char>) -> Seq<char>
    decreases s.len(),
{
    if s.len() == 0 {
        Seq::empty()
    } else if is_ws(s.last()) {
        non_blank(s.drop_last())
    } else {
        non_blank(s.drop_last()).push(s.last())
    }
}

/// Words separated by single spaces: no whitespace at either end, and
/// every whitespace character is a space followed by a non-whitespace one.
pub open spec fn single_spaced(s: Seq<char>) -> bool {
    &&& s.len() > 0 ==> !is_ws(s[0]) && !is_ws(s.last())
    &&& forall|i: int|
        0 <= i < s.len() && is_ws(#[trigger] s[i]) ==> s[i] == ' ' && i + 1 < s.len() && !is_ws(
            s[i + 1],
        )
}

/// Joining words by single spaces keeps every non-whitespace character in
/// order and leaves only single spaces between words.
pub proof fn law_squash_joins_words(t: Seq<char>)
    ensures
        single_spaced(squash(t).0),
        non_blank(squash(t).0) == non_blank(t),
    decreases t.len(),
{
    if t.len() > 0 {
        let t0 = t.drop_last();
        law_squash_joins_words(t0);
        let (out, gap) = squash(t0);
        let c = t.last();
        if !is_ws(c) {
            if out.len() > 0 && gap {
                let r = out + seq![' ', c];
                assert(r.drop_last() =~= out.push(' '));
                assert(out.push(' ').drop_last() =~= out);
                assert(is_ws(' ')) by {
                    assert((' ' as u32) == 32);
                }
                assert forall|i: int| 0 <= i < r.len() && is_ws(#[trigger] r[i]) implies r[i] == ' '
                    && i + 1 < r.len() && !is_ws(r[i + 1]) by {
                    if i < out.len() {
                        assert(r[i] == out[i]);
                        if i + 1 < out.len() {
                            assert(r[i + 1] == out[i + 1]);
                        }
                    }
                }
                assert(r[0] == out[0]);
                assert(non_blank(out.push(' ')) == non_blank(out));
                assert(non_blank(r) == non_blank(r.drop_last()).push(c));
            } else {
                let r = out.push(c);
                assert(r.drop_last() =~= out);
                assert forall|i: int| 0 <= i < r.len() && is_ws(#[trigger] r[i]) implies r[i] == ' '
                    && i + 1 < r.len() && !is_ws(r[i + 1]) by {
                    if i < out.len() {
                        assert(r[i] == out[i]);
                        if i + 1 < out.len() {
                            assert(r[i + 1] == out[i + 1]);
                        }
                    }
                }
            }
        }
    }
}

/// Balanced stage directions are always removed: when `s` holds as many
/// `)` as `(`, and at least one, the cleaned text holds no parenthesis and
/// its words are joined by single spaces.
pub proof fn law_balanced_text_loses_its_parens(s: Seq<char>)
    requires
        count_of(s, '(') > 0,
        count_of(s, '(') == count_of(s, ')'),
    ensures
        no_parens(without_parens(s)),
        single_spaced(without_parens(s)),
{
    law_squash_joins_words(outside_parens(s).0);
    lemma_outside_has_no_parens(s);
    lemma_squash_keeps_no_parens(outside_parens(s).0);
}

/// Everything inside a stage direction is dropped, however many there
/// are: the text around one or two parenthesized groups (themselves free
/// of parentheses) is what remains, its words joined by single spaces; so
/// text made of stage directions and whitespace alone becomes empty.
pub proof fn law_stage_directions_are_dropped(
    x: Seq<char>,
    m1: Seq<char>,
    y: Seq<char>,
    m2: Seq<char>,
    z: Seq<char>,
)
    requires
        no_parens(x),
        no_parens(m1),
        no_parens(y),
        no_parens(m2),
        no_parens(z),
    ensures
        without_parens(x + seq!['('] + m1 + seq![')'] + y) == squash(x + y).0,
        without_parens(x + seq!['('] + m1 + seq![')'] + y + seq!['('] + m2 + seq![')'] + z)
            == squash(x + y + z).0,
        blank(x) && blank(y) ==> without_parens(x + seq!['('] + m1 + seq![')'] + y).len() == 0,
        blank(x) && blank(y) && blank(z) ==> without_parens(
            x + seq!['('] + m1 + seq![')'] + y + seq!['('] + m2 + seq![')'] + z,
        ).len() == 0,
{
    let o = seq!['('];
    let c = seq![')'];
    assert(no_parens(Seq::<char>::empty()));
    let e: (Seq<char>, nat) = (Seq::empty(), 0);
    // One group.
    let s1 = x + o + m1 + c + y;
    lemma_outside_is_scan(s1);
    lemma_scan_concat(e, x + o + m1 + c, y);
    lemma_scan_concat(e, x + o + m1, c);
    lemma_scan_concat(e, x + o, m1);
    lemma_scan_concat(e, x, o);
    lemma_scan_free(Seq::empty(), 0, x);
    assert(Seq::<char>::empty() + x =~= x);
    assert(paren_scan((x, 0), o) == (x, 1nat)) by {
        assert(o.drop_last() =~= Seq::<char>::empty());
        assert(paren_scan((x, 0), o.drop_last()) == (x, 0nat));
        assert(o.last() == '(');
    }
    lemma_scan_free(x, 1, m1);
    assert(paren_scan((x, 1), c) == (x, 0nat)) by {
        assert(c.drop_last() =~= Seq::<char>::empty());
        assert(paren_scan((x, 1), c.drop_last()) == (x, 1nat));
        assert(c.last() == ')');
    }
    lemma_scan_free(x, 0, y);
    assert(outside_parens(s1) == (x + y, 0nat));
    lemma_count_free(x);
    lemma_count_free(m1);
    lemma_count_free(y);
    lemma_count_free(m2);
    lemma_count_free(z);
    assert(count_of(o, '(') == 1 && count_of(o, ')') == 0) by {
        assert(o.drop_last() =~= Seq::<char>::empty());
        assert(count_of(o.drop_last(), '(') == 0 && count_of(o.drop_last(), ')') == 0);
        assert(o.last() == '(');
    }
    assert(count_of(c, '(') == 0 && count_of(c, ')') == 1) by {
        assert(c.drop_last() =~= Seq::<char>::empty());
        assert(count_of(c.drop_last(), '(') == 0 && count_of(c.drop_last(), ')') == 0);
        assert(c.last() == ')');
    }
    lemma_count_concat(x, o, '(');
    lemma_count_concat(x + o, m1, '(');
    lemma_count_concat(x + o + m1, c, '(');
    lemma_count_concat(x + o + m1 + c, y, '(');
    lemma_count_concat(x, o, ')');
    lemma_count_concat(x + o, m1, ')');
    lemma_count_concat(x + o + m1, c, ')');
    lemma_count_concat(x + o + m1 + c, y, ')');
    // Two groups.
    let s2 = s1 + o + m2 + c + z;
    lemma_outside_is_scan(s2);
    lemma_scan_concat(e, s1 + o + m2 + c, z);
    lemma_scan_concat(e, s1 + o + m2, c);
    lemma_scan_concat(e, s1 + o, m2);
    lemma_scan_concat(e, s1, o);
    assert(paren_scan((x + y, 0), o) == (x + y, 1nat)) by {
        assert(o.drop_last() =~= Seq::<char>::empty());
        assert(paren_scan((x + y, 0), o.drop_last()) == (x + y, 0nat));
        assert(o.last() == '(');
    }
    lemma_scan_free(x + y, 1, m2);
    assert(paren_scan((x + y, 1), c) == (x + y, 0nat)) by {
        assert(c.drop_last() =~= Seq::<char>::empty());
        assert(paren_scan((x + y, 1), c.drop_last()) == (x + y, 1nat));
        assert(c.last() == ')');
    }
    lemma_scan_free(x + y, 0, z);
    assert(outside_parens(s2) == (x + y + z, 0nat));
    lemma_count_concat(s1, o, '(');
    lemma_count_concat(s1 + o, m2, '(');
    lemma_count_concat(s1 + o + m2, c, '(');
    lemma_count_concat(s1 + o + m2 + c, z, '(');
    lemma_count_concat(s1, o, ')');
    lemma_count_concat(s1 + o, m2, ')');
    lemma_count_concat(s1 + o + m2, c, ')');
    lemma_count_concat(s1 + o + m2 + c, z, ')');
    if blank(x) && blank(y) {
        assert(blank(x + y)) by {
            assert forall|i: int| 0 <= i < (x + y).len() implies is_ws(#[trigger] (x + y)[i]) by {
                if i < x.len() {
                    assert((x + y)[i] == x[i]);
                } else {
                    assert((x + y)[i] == y[i - x.len()]);
                }
            }
        }
        lemma_squash_blank(x + y);
        if blank(z) {
            assert(blank(x + y + z)) by {
                assert forall|i: int| 0 <= i < (x + y + z).len() implies is_ws(
                    #[trigger] (x + y + z)[i],
                ) by {
                    if i < (x + y).len() {
                        assert((x + y + z)[i] == (x + y)[i]);
                    } else {
                        assert((x + y + z)[i] == z[i - (x + y).len()]);
                    }
                }
            }
            lemma_squash_blank(x + y + z);
        }
    }
}

/// Two consecutive transcriptions joined without losing or gaining a
/// space at the seam.
pub open spec fn joined_parts(a: Seq<char>, b: Seq<char>) -> Seq<char> {
    if a.len() == 0 {
        b
    } else if b.len() == 0 {
        a
    } else if is_ws(b[0]) || is_ws(a.last()) {
        a + b
    } else {
        a + seq![' '] + b
    }
}

/// Concatenate two consecutive transcriptions.
pub fn join_parts(a: &str, b: &str) -> (r: String)
    ensures
        r@ == joined_parts(a@, b@),
{
    let x = chars_of(a);
    let y = chars_of(b);
    if x.len() == 0 {
        return string_of(&y);
    }
    if y.len() == 0 {
        return string_of(&x);
    }
    let mut r = string_of(&x);
    if !(is_whitespace(y[0]) || is_whitespace(x[x.len() - 1])) {
        push_char(&mut r, ' ');
    }
    r.append(b);
    r
}

/// At most the first 80 characters of `s`, for logs.
pub fn excerpt(s: &str) -> (r: String)
    ensures
        r@ == s@.take(if s@.len() < 80 {
            s@.len() as int
        } else {
            80
        }),
{
    let v = chars_of(s);
    let n = if v.len() < 80 {
        v.len()
    } else {
        80
    };
    crate::text::string_of_range(&v, 0, n)
}

/// The transcript a benchmark assembles from a streaming recognizer:
/// finalized utterances, separated by spaces, plus the last rolling
/// update still pending.
pub struct Transcript {
    pub text: String,
    pub pending: String,
}

/// `text` after appending `part` (trimmed), with a separating space when
/// `text` was not empty.
pub open spec fn append_part(text: Seq<char>, part: Seq<char>) -> Seq<char> {
    if text.len() > 0 {
        text + seq![' '] + trim(part)
    } else {
        trim(part)
    }
}

impl Transcript {
    pub fn new() -> (r: Transcript)
        ensures
            r.text@ == Seq::<char>::empty(),
            r.pending@ == Seq::<char>::empty(),
    {
        Transcript { text: String::new(), pending: String::new() }
    }

    fn append(&mut self, part: &str)
        ensures
            final(self).text@ == append_part(old(self).text@, part@),
            final(self).pending == old(self).pending,
    {
        if !self.text.as_str().is_empty() {
            push_char(&mut self.text, ' ');
        }
        let t = trimmed(part);
        self.text.append(t.as_str());
    }

    /// A result while audio is still streaming: a fresh (final) utterance
    /// is appended and supersedes the pending update; a rolling update
    /// becomes the pending one.
    pub fn feed(&mut self, part: &str, fresh: bool)
        ensures
            fresh ==> final(self).text@ == append_part(old(self).text@, part@)
                && final(self).pending@ == Seq::<char>::empty(),
            !fresh ==> final(self).text == old(self).text && final(self).pending@ == part@,
    {
        if fresh {
            self.append(part);
            self.pending = String::new();
        } else {
            self.pending = crate::text::owned(part);
        }
    }

    /// The result of the final flush: a fresh utterance is appended (the
    /// pending update stays pending), a rolling one becomes pending.
    pub fn flush(&mut self, part: &str, fresh: bool)
        ensures
            fresh ==> final(self).text@ == append_part(old(self).text@, part@)
                && final(self).pending == old(self).pending,
            !fresh ==> final(self).text == old(self).text && final(self).pending@ == part@,
    {
        if fresh {
            self.append(part);
        } else {
            self.pending = crate::text::owned(part);
        }
    }

    /// The whole transcript: the pending update, if any, goes last.
    pub fn finish(self) -> (r: String)
        ensures
            self.pending@.len() == 0 ==> r@ == self.text@,
            self.pending@.len() > 0 ==> r@ == append_part(self.text@, self.pending@),
    {
        let mut t = self;
        if !t.pending.as_str().is_empty() {
            let p = t.pending.clone();
            t.append(p.as_str());
        }
        t.text
    }
}

/// `transcript` after one decoded window: separated by a space when both
/// are non-empty, and trimmed.
pub open spec fn window_appended(transcript: Seq<char>, part: Seq<char>) -> Seq<char> {
    if transcript.len() > 0 && part.len() > 0 {
        transcript + seq![' '] + trim(part)
    } else {
        transcript + trim(part)
    }
}

/// Append one decoded window to a benchmark transcript.
pub fn append_window(transcript: &mut String, part: &str)
    ensures
        final(transcript)@ == window_appended(old(transcript)@, part@),
{
    if !transcript.as_str().is_empty() && !part.is_empty() {
        push_char(transcript, ' ');
    }
    let t = trimmed(part);
    transcript.append(t.as_str());
}

/// The recognizer family that a backend name selects.
#[derive(Clone, Copy, Debug, PartialEq, Eq, Structural)]
pub enum Recognizer {
    Whisper,
    Vosk,
    Moonshine,
    SenseVoice,
    Zipformer,
}

/// The recognizer for `backend`; `native` is the older name of Vosk.
pub open spec fn recognizer_of(backend: Seq<char>) -> Option<Recognizer> {
    if backend == "whisper"@ {
        Some(Recognizer::Whisper)
    } else if backend == "vosk"@ || backend == "native"@ {
        Some(Recognizer::Vosk)
    } else if backend == "moonshine"@ {
        Some(Recognizer::Moonshine)
    } else if backend == "sensevoice"@ {
        Some(Recognizer::SenseVoice)
    } else if backend == "zipformer"@ {
        Some(Recognizer::Zipformer)
    } else {
        None
    }
}

pub open spec fn unknown_backend_message(backend: Seq<char>) -> Seq<char> {
    "unknown backend `"@ + backend + "`"@
}

/// Pick the recognizer named by `backend`.
pub fn recognizer(backend: &str) -> (r: Result<Recognizer, String>)
    ensures
        match recognizer_of(backend@) {
            Some(k) => r == Ok::<Recognizer, String>(k),
            None => r is Err && r->Err_0@ == unknown_backend_message(backend@),
        },
{
    if str_eq(backend, "whisper") {
        Ok(Recognizer::Whisper)
    } else if str_eq(backend, "vosk") || str_eq(backend, "native") {
        Ok(Recognizer::Vosk)
    } else if str_eq(backend, "moonshine") {
        Ok(Recognizer::Moonshine)
    } else if str_eq(backend, "sensevoice") {
        Ok(Recognizer::SenseVoice)
    } else if str_eq(backend, "zipformer") {
        Ok(Recognizer::Zipformer)
    } else {
        Err(concat3("unknown backend `", backend, "`"))
    }
}

/// What building the configured recognizer starts from: the compute
/// provider (checked first, before any model loads) and the recognizer.
pub open spec fn create_spec(engine: EngineConfig) -> Result<(ProviderCandidate, Recognizer), Seq<char>> {
    match resolve_spec(engine, GpuSet::empty_spec(), GpuSet::empty_spec()) {
        Err(m) => Err(m),
        Ok(p) => match recognizer_of(engine.backend@) {
            Some(k) => Ok((p, k)),
            None => Err(unknown_backend_message(engine.backend@)),
        },
    }
}

/// Preflight the compute provider for `engine`, then pick its recognizer.
pub fn create(engine: &EngineConfig) -> (r: Result<(ProviderCandidate, Recognizer), String>)
    ensures
        match create_spec(*engine) {
            Ok(v) => r == Ok::<(ProviderCandidate, Recognizer), String>(v),
            Err(m) => r is Err && r->Err_0@ == m,
        },
{
    let provider = match resolve(engine) {
        Ok(p) => p,
        Err(m) => return Err(m),
    };
    match recognizer(engine.backend.as_str()) {
        Ok(k) => Ok((provider, k)),
        Err(m) => Err(m),
    }
}

/// A speech recognizer fed with 16 kHz mono audio.
pub trait Segmenter {
    /// Feed a chunk of about 100 ms; returns the utterance text so far
    /// and whether it starts a new utterance.
    fn feed(&mut self, chunk: &[i16]) -> Option<(String, bool)>;

    /// Flush whatever is mid-utterance on shutdown.
    fn flush(&mut self) -> Option<(String, bool)>;
}

} // verus!
