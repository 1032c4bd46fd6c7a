//! Output normalization shared by all recognition backends, and the
//! typing decision for each recognized utterance.
use crate::text::{chars_of, is_ws, push_char, string_of, string_of_range, trim, trim_bounds};
use vstd::prelude::*;

verus! {

/// `char::to_ascii_uppercase`.
pub open spec fn ascii_upper(c: char) -> char {
    if 'a' <= c <= 'z' {
        ((c as u32) - 32) as char
    } else {
        c
    }
}

/// Capitalize the first emitted character and separate later utterances.
pub struct Formatter {
    first: bool,
    last_had_space: bool,
}

/// What one `format` call yields: the text to type (if any) and the
/// formatter's next `(first, last_had_space)`.
pub open spec fn format_step(first: bool, last_had_space: bool, raw: Seq<char>) -> (
    Option<Seq<char>>,
    bool,
    bool,
) {
    let t = trim(raw);
    if t.len() == 0 {
        (None, first, last_had_space)
    } else {
        let text = if first {
            seq![ascii_upper(t[0])] + t.drop_first()
        } else if !last_had_space {
            seq![' '] + t
        } else {
            t
        };
        (Some(text), false, raw.len() > 0 && raw.last() == ' ')
    }
}

pub open spec fn opt_string_view(o: Option<String>) -> Option<Seq<char>> {
    match o {
        Some(s) => Some(s@),
        None => None,
    }
}

impl Formatter {
    pub closed spec fn is_first(&self) -> bool {
        self.first
    }

    pub closed spec fn had_space(&self) -> bool {
        self.last_had_space
    }

    /// A formatter that has emitted nothing yet.
    pub fn new() -> (r: Formatter)
        ensures
            r.is_first(),
            !r.had_space(),
    {
        Formatter { first: true, last_had_space: false }
    }

    /// The text to type for the utterance `raw`: trimmed, capitalized if it
    /// is the first one, otherwise separated from the previous one by a
    /// space unless that one ended with a space. Blank input yields `None`
    /// and leaves the formatter unchanged.
    pub fn format(&mut self, raw: &str) -> (r: Option<String>)
        ensures
            ({
                let step = format_step(old(self).is_first(), old(self).had_space(), raw@);
                &&& opt_string_view(r) == step.0
                &&& final(self).is_first() == step.1
                &&& final(self).had_space() == step.2
            }),
    {
        let v = chars_of(raw);
        let (a, b) = trim_bounds(&v);
        if a == b {
            return None;
        }
        let mut text = String::new();
        if self.first {
            let c = v[a];
            let up = if 'a' <= c && c <= 'z' {
                ((c as u8) - 32) as char
            } else {
                c
            };
            assert(up == ascii_upper(c)) by {
                if 'a' <= c <= 'z' {
                    assert((c as u8) as u32 == c as u32);
                }
            }
            push_char(&mut text, up);
            let rest = string_of_range(&v, a + 1, b);
            text.append(rest.as_str());
            self.first = false;
            assert(text@ =~= seq![ascii_upper(trim(raw@)[0])] + trim(raw@).drop_first());
        } else {
            if !self.last_had_space {
                push_char(&mut text, ' ');
            }
            let body = string_of_range(&v, a, b);
            text.append(body.as_str());
        }
        self.last_had_space = v.len() > 0 && v[v.len() - 1] == ' ';
        Some(text)
    }
}

/// Length of the longest common prefix of `a` and `b`.
pub open spec fn common_prefix_len(a: Seq<char>, b: Seq<char>) -> nat
    decreases a.len(),
{
    if a.len() > 0 && b.len() > 0 && a[0] == b[0] {
        1 + common_prefix_len(a.drop_first(), b.drop_first())
    } else {
        0
    }
}

pub proof fn lemma_common_prefix_step(a: Seq<char>, b: Seq<char>, k: int)
    requires
        0 <= k < a.len(),
        k < b.len(),
        forall|j: int| 0 <= j <= k ==> a[j] == b[j],
    ensures
        common_prefix_len(a, b) == k + 1 + common_prefix_len(a.skip(k + 1), b.skip(k + 1)),
    decreases k,
{
    if k == 0 {
        assert(a.drop_first() =~= a.skip(1));
        assert(b.drop_first() =~= b.skip(1));
    } else {
        lemma_common_prefix_step(a.drop_first(), b.drop_first(), k - 1);
        assert(a.drop_first().skip(k) =~= a.skip(k + 1));
        assert(b.drop_first().skip(k) =~= b.skip(k + 1));
    }
}

pub proof fn lemma_common_prefix_bounds(a: Seq<char>, b: Seq<char>)
    ensures
        common_prefix_len(a, b) <= a.len(),
        common_prefix_len(a, b) <= b.len(),
        a.take(common_prefix_len(a, b) as int) == b.take(common_prefix_len(a, b) as int),
    decreases a.len(),
{
    if a.len() > 0 && b.len() > 0 && a[0] == b[0] {
        lemma_common_prefix_bounds(a.drop_first(), b.drop_first());
        let k = common_prefix_len(a, b) as int;
        assert(a.take(k) =~= seq![a[0]] + a.drop_first().take(k - 1));
        assert(b.take(k) =~= seq![b[0]] + b.drop_first().take(k - 1));
    } else {
        assert(a.take(0) =~= b.take(0));
    }
}

/// Length of the longest common prefix of `a` and `b`.
pub fn common_prefix(a: &Vec<char>, b: &Vec<char>) -> (k: usize)
    ensures
        k == common_prefix_len(a@, b@),
{
    let mut k: usize = 0;
    while k < a.len() && k < b.len() && a[k] == b[k]
        invariant
            k <= a.len(),
            k <= b.len(),
            forall|j: int| 0 <= j < k ==> a@[j] == b@[j],
            k == 0 || common_prefix_len(a@, b@) == k + common_prefix_len(a@.skip(k as int), b@.skip(k as int)),
        decreases a.len() - k,
    {
        proof {
            lemma_common_prefix_step(a@, b@, k as int);
        }
        k = k + 1;
    }
    proof {
        if k == 0 {
        } else {
            assert(common_prefix_len(a@.skip(k as int), b@.skip(k as int)) == 0);
        }
    }
    k
}

/// What to do with the focused window for one recognized utterance.
#[derive(Debug)]
pub enum Injection {
    /// Nothing to type.
    Nothing,
    /// Type this text.
    Type(String),
    /// Delete this many characters left of the caret, then type the text.
    Revise(usize, String),
}

/// Type a finalized utterance, or revise a rolling Whisper prefix.
///
/// `typed` holds the raw text of the current utterance as it was typed so
/// far; `fresh` marks the start of a new utterance. A fresh utterance is
/// formatted and typed whole; a rolling update takes back only the part
/// that changed since the last update and types its replacement.
pub fn emit(formatter: &mut Formatter, typed: &mut String, full: &str, fresh: bool) -> (r:
    Injection)
    ensures
        full@.len() == 0 ==> r is Nothing && *final(formatter) == *old(formatter) && final(typed)@ == (
        if fresh {
            Seq::<char>::empty()
        } else {
            old(typed)@
        }),
        full@.len() > 0 ==> final(typed)@ == full@,
        full@.len() > 0 && fresh ==> {
            let step = format_step(old(formatter).is_first(), old(formatter).had_space(), full@);
            &&& final(formatter).is_first() == step.1
            &&& final(formatter).had_space() == step.2
            &&& match step.0 {
                Some(t) => r is Type && r->Type_0@ == t,
                None => r is Nothing,
            }
        },
        full@.len() > 0 && !fresh ==> {
            let k = common_prefix_len(old(typed)@, full@);
            let n = old(typed)@.len() - k;
            &&& *final(formatter) == *old(formatter)
            &&& if n > 0 || k < full@.len() {
                r is Revise && r->Revise_0 == n && r->Revise_1@ == full@.skip(k as int)
            } else {
                r is Nothing
            }
        },
{
    if fresh {
        *typed = String::new();
    }
    let new = chars_of(full);
    if new.len() == 0 {
        return Injection::Nothing;
    }
    if fresh {
        let text = formatter.format(full);
        *typed = string_of(&new);
        return match text {
            Some(t) => Injection::Type(t),
            None => Injection::Nothing,
        };
    }
    let old = chars_of(typed.as_str());
    let common = common_prefix(&old, &new);
    proof {
        lemma_common_prefix_bounds(old@, new@);
    }
    let backspaces = old.len() - common;
    let replacement = string_of_range(&new, common, new.len());
    *typed = string_of(&new);
    if backspaces > 0 || common < new.len() {
        Injection::Revise(backspaces, replacement)
    } else {
        Injection::Nothing
    }
}

/// Taking back `n` characters of what was typed and typing the
/// replacement leaves exactly the new utterance on screen.
pub proof fn lemma_revision_yields_new_text(typed: Seq<char>, full: Seq<char>)
    ensures
        ({
            let k = common_prefix_len(typed, full);
            typed.take(typed.len() - (typed.len() - k)) + full.skip(k as int) == full
        }),
{
    lemma_common_prefix_bounds(typed, full);
    let k = common_prefix_len(typed, full) as int;
    assert(typed.take(typed.len() - (typed.len() - k)) =~= typed.take(k));
    assert(full.take(k) + full.skip(k) =~= full);
}

} // verus!
