//! Benchmark helpers that do not need a model: word error rate of a
//! transcript, the PCM samples of a WAV recording, and which encoder
//! windows the tuning benchmark tries.
use crate::segment::{audio_ctx_for, auto_audio_ctx, buf_frames, frames_for};
use crate::text::{chars_of, concat2, concat3, decimal, decimal_string, owned};
use vstd::prelude::*;

verus! {

/// What `char::to_lowercase` yields for `c` (one to three characters,
/// by the Unicode case tables).
pub uninterp spec fn lowercase_of(c: char) -> Seq<char>;

/// `char::is_alphanumeric` (Unicode `Alphabetic` or `Numeric`).
pub uninterp spec fn alphanumeric_of(c: char) -> bool;

/// `char::to_lowercase`, collected. The result is named, not spelled
/// out: it is whatever the standard library's Unicode tables give.
#[verifier::external_body]
fn lowercase(c: char) -> (r: Vec<char>)
    ensures
        r@ == lowercase_of(c),
{
    c.to_lowercase().collect()
}

/// `char::is_alphanumeric`. The result is named, not spelled out: it is
/// whatever the standard library's Unicode tables give.
#[verifier::external_body]
fn is_alphanumeric(c: char) -> (r: bool)
    ensures
        r == alphanumeric_of(c),
{
    c.is_alphanumeric()
}

/// `s` with every character replaced by its lowercase mapping.
pub open spec fn lowered(s: Seq<char>) -> Seq<char>
    decreases s.len(),
{
    if s.len() == 0 {
        Seq::empty()
    } else {
        lowered(s.drop_last()) + lowercase_of(s.last())
    }
}

/// Characters that belong to a word: letters, digits and apostrophes.
pub open spec fn word_char(c: char) -> bool {
    alphanumeric_of(c) || c == '\''
}

/// The words finished so far and the word in progress.
pub open spec fn scan_tokens(s: Seq<char>) -> (Seq<Seq<char>>, Seq<char>)
    decreases s.len(),
{
    if s.len() == 0 {
        (Seq::empty(), Seq::empty())
    } else {
        let (w, c) = scan_tokens(s.drop_last());
        if word_char(s.last()) {
            (w, c.push(s.last()))
        } else if c.len() == 0 {
            (w, c)
        } else {
            (w.push(c), Seq::empty())
        }
    }
}

/// The words a transcript is scored on: lowercased runs of word
/// characters.
pub open spec fn score_words(text: Seq<char>) -> Seq<Seq<char>> {
    let (w, c) = scan_tokens(lowered(text));
    if c.len() == 0 {
        w
    } else {
        w.push(c)
    }
}

/// The letters, digits and apostrophes of `s`, in order.
pub open spec fn letters_digits_apostrophes(s: Seq<char>) -> Seq<char>
    decreases s.len(),
{
    if s.len() == 0 {
        Seq::empty()
    } else if alphanumeric_of(s.last()) || s.last() == '\'' {
        letters_digits_apostrophes(s.drop_last()).push(s.last())
    } else {
        letters_digits_apostrophes(s.drop_last())
    }
}

/// How many maximal runs of letters, digits and apostrophes `s` holds.
pub open spec fn run_count(s: Seq<char>) -> nat
    decreases s.len(),
{
    if s.len() == 0 {
        0
    } else {
        let x = s.last();
        let starts = (alphanumeric_of(x) || x == '\'') && (s.len() == 1 || !(alphanumeric_of(
            s[s.len() - 2],
        ) || s[s.len() - 2] == '\''));
        run_count(s.drop_last()) + if starts {
            1nat
        } else {
            0nat
        }
    }
}

/// The words one after the other, with nothing between them.
pub open spec fn concat_words(w: Seq<Seq<char>>) -> Seq<char>
    decreases w.len(),
{
    if w.len() == 0 {
        Seq::empty()
    } else {
        concat_words(w.drop_last()) + w.last()
    }
}

pub open spec fn all_scoring(w: Seq<char>) -> bool {
    forall|j: int| 0 <= j < w.len() ==> alphanumeric_of(#[trigger] w[j]) || w[j] == '\''
}

proof fn lemma_scan_tokens(s: Seq<char>)
    ensures
        ({
            let (w, c) = scan_tokens(s);
            &&& c.len() > 0 <==> (s.len() > 0 && (alphanumeric_of(s.last()) || s.last() == '\''))
            &&& w.len() + (if c.len() > 0 {
                1nat
            } else {
                0nat
            }) == run_count(s)
            &&& concat_words(w) + c == letters_digits_apostrophes(s)
            &&& forall|i: int| 0 <= i < w.len() ==> #[trigger] w[i].len() > 0 && all_scoring(w[i])
            &&& all_scoring(c)
        }),
    decreases s.len(),
{
    if s.len() > 0 {
        let s0 = s.drop_last();
        lemma_scan_tokens(s0);
        let (w0, c0) = scan_tokens(s0);
        let x = s.last();
        if s0.len() > 0 {
            assert(s[s.len() - 2] == s0.last());
        }
        if alphanumeric_of(x) || x == '\'' {
            assert(concat_words(w0) + c0.push(x) =~= (concat_words(w0) + c0).push(x));
        } else if c0.len() > 0 {
            let w = w0.push(c0);
            assert(w.drop_last() =~= w0);
            assert(concat_words(w) == concat_words(w0) + c0);
            assert(concat_words(w) + Seq::<char>::empty() =~= concat_words(w));
        }
    }
}

/// The scored words are exactly the maximal runs of letters, digits and
/// apostrophes of the lowercased text: no word is empty, every character
/// of a word is a letter, a digit or an apostrophe (so a hyphen or any
/// other punctuation splits words), the words one after the other are all
/// such characters of the text, and there is one word per run.
pub proof fn law_scored_words_are_runs(text: Seq<char>)
    ensures
        forall|i: int|
            0 <= i < score_words(text).len() ==> #[trigger] score_words(text)[i].len() > 0,
        forall|i: int, j: int|
            0 <= i < score_words(text).len() && 0 <= j < score_words(text)[i].len() ==> alphanumeric_of(
                #[trigger] score_words(text)[i][j],
            ) || score_words(text)[i][j] == '\'',
        concat_words(score_words(text)) == letters_digits_apostrophes(lowered(text)),
        score_words(text).len() == run_count(lowered(text)),
{
    let l = lowered(text);
    lemma_scan_tokens(l);
    let (w, c) = scan_tokens(l);
    if c.len() > 0 {
        let r = w.push(c);
        assert(r.drop_last() =~= w);
        assert(concat_words(r) == concat_words(w) + c);
        assert forall|i: int| 0 <= i < r.len() implies #[trigger] r[i].len() > 0 && all_scoring(r[i]) by {
            if i < w.len() {
                assert(r[i] == w[i]);
            }
        }
    } else {
        assert(concat_words(w) + c =~= concat_words(w));
    }
    assert forall|i: int, j: int|
        0 <= i < score_words(text).len() && 0 <= j < score_words(text)[i].len() implies alphanumeric_of(
            #[trigger] score_words(text)[i][j],
        ) || score_words(text)[i][j] == '\'' by {
        assert(all_scoring(score_words(text)[i]));
    }
}

fn push_str_chars(out: &mut Vec<String>, cur: &Vec<char>)
    ensures
        final(out).deep_view() == old(out).deep_view().push(cur@),
{
    let s = crate::text::string_of(cur);
    let ghost o0 = out.deep_view();
    out.push(s);
    assert(out.deep_view() =~= o0.push(cur@));
}

/// The words of `text` (see [`score_words`]).
pub fn scored_words(text: &str) -> (r: Vec<String>)
    ensures
        r.deep_view() == score_words(text@),
{
    let v = chars_of(text);
    let mut out: Vec<String> = Vec::new();
    let mut cur: Vec<char> = Vec::new();
    let mut i: usize = 0;
    assert(v@.take(0) =~= Seq::<char>::empty());
    while i < v.len()
        invariant
            i <= v.len(),
            v@ == text@,
            (out.deep_view(), cur@) == scan_tokens(lowered(v@.take(i as int))),
        decreases v.len() - i,
    {
        let low = lowercase(v[i]);
        let ghost base = lowered(v@.take(i as int));
        assert(v@.take(i + 1).drop_last() =~= v@.take(i as int));
        assert(lowered(v@.take(i + 1)) == base + low@);
        let mut k: usize = 0;
        assert(base + low@.take(0) =~= base);
        while k < low.len()
            invariant
                k <= low.len(),
                (out.deep_view(), cur@) == scan_tokens(base + low@.take(k as int)),
            decreases low.len() - k,
        {
            let c = low[k];
            let ghost w0 = out.deep_view();
            let ghost c0 = cur@;
            assert((base + low@.take(k + 1)).drop_last() =~= base + low@.take(k as int));
            assert((base + low@.take(k + 1)).last() == c);
            if is_alphanumeric(c) || c == '\'' {
                cur.push(c);
            } else if cur.len() > 0 {
                push_str_chars(&mut out, &cur);
                cur = Vec::new();
                assert(cur@ =~= Seq::<char>::empty());
            }
            k = k + 1;
        }
        assert(low@.take(low.len() as int) =~= low@);
        i = i + 1;
    }
    assert(v@.take(v.len() as int) =~= v@);
    if cur.len() > 0 {
        push_str_chars(&mut out, &cur);
    }
    out
}

pub open spec fn min3(a: int, b: int, c: int) -> int {
    if a <= b && a <= c {
        a
    } else if b <= c {
        b
    } else {
        c
    }
}

/// Word edits (insertions, deletions, substitutions) that turn the first
/// `i` words of `r` into the first `j` words of `h`.
pub open spec fn edits(r: Seq<Seq<char>>, h: Seq<Seq<char>>, i: nat, j: nat) -> nat
    decreases i + j,
{
    if i == 0 {
        j
    } else if j == 0 {
        i
    } else {
        min3(
            edits(r, h, (i - 1) as nat, j) + 1int,
            edits(r, h, i, (j - 1) as nat) + 1int,
            edits(r, h, (i - 1) as nat, (j - 1) as nat) + (if r[i - 1] == h[j - 1] {
                0int
            } else {
                1int
            }),
        ) as nat
    }
}

proof fn lemma_edits_bound(r: Seq<Seq<char>>, h: Seq<Seq<char>>, i: nat, j: nat)
    ensures
        edits(r, h, i, j) <= i + j,
    decreases i + j,
{
    if i > 0 && j > 0 {
        lemma_edits_bound(r, h, (i - 1) as nat, j);
    }
}

/// A transcript identical to its reference has no word errors, and no
/// transcript needs more edits than the longer of the two has words.
pub proof fn law_word_errors_bounds(r: Seq<Seq<char>>, h: Seq<Seq<char>>, i: nat, j: nat)
    requires
        i <= r.len(),
        j <= h.len(),
    ensures
        r == h && i == j ==> edits(r, h, i, j) == 0,
        edits(r, h, i, j) <= if i >= j {
            i
        } else {
            j
        },
    decreases i + j,
{
    if i > 0 && j > 0 {
        law_word_errors_bounds(r, h, (i - 1) as nat, (j - 1) as nat);
        law_word_errors_bounds(r, h, (i - 1) as nat, j);
        law_word_errors_bounds(r, h, i, (j - 1) as nat);
    }
}

fn same_word(a: &String, b: &String) -> (r: bool)
    ensures
        r == (a@ == b@),
{
    crate::text::str_eq(a.as_str(), b.as_str())
}

/// Word edits that turn `r` into `h` (Levenshtein distance over words).
pub fn edit_distance(r: &Vec<String>, h: &Vec<String>) -> (d: usize)
    requires
        r.len() + h.len() < usize::MAX,
    ensures
        d == edits(r.deep_view(), h.deep_view(), r.len() as nat, h.len() as nat),
{
    let ghost rs = r.deep_view();
    let ghost hs = h.deep_view();
    let n = h.len();
    let mut previous: Vec<usize> = Vec::new();
    let mut j: usize = 0;
    while j <= n
        invariant
            j <= n + 1,
            n == h.len(),
            r.len() + n < usize::MAX,
            previous.len() == j,
            forall|k: int| 0 <= k < j ==> previous@[k] == edits(rs, hs, 0, k as nat),
        decreases n + 1 - j,
    {
        previous.push(j);
        j = j + 1;
    }
    let mut i: usize = 0;
    while i < r.len()
        invariant
            i <= r.len(),
            rs == r.deep_view(),
            hs == h.deep_view(),
            n == h.len(),
            r.len() + n < usize::MAX,
            previous.len() == n + 1,
            forall|k: int| 0 <= k <= n ==> previous@[k] == edits(rs, hs, i as nat, k as nat),
        decreases r.len() - i,
    {
        let mut current: Vec<usize> = Vec::new();
        current.push(i + 1);
        let mut j: usize = 0;
        while j < n
            invariant
                j <= n,
                i < r.len(),
                rs == r.deep_view(),
                hs == h.deep_view(),
                n == h.len(),
                r.len() + n < usize::MAX,
                previous.len() == n + 1,
                forall|k: int| 0 <= k <= n ==> previous@[k] == edits(rs, hs, i as nat, k as nat),
                current.len() == j + 1,
                forall|k: int| 0 <= k <= j ==> current@[k] == edits(rs, hs, (i + 1) as nat, k as nat),
            decreases n - j,
        {
            assert(rs[i as int] == r@[i as int]@);
            assert(hs[j as int] == h@[j as int]@);
            let cost: usize = if same_word(&r[i], &h[j]) {
                0
            } else {
                1
            };
            proof {
                lemma_edits_bound(rs, hs, i as nat, (j + 1) as nat);
                lemma_edits_bound(rs, hs, (i + 1) as nat, j as nat);
                lemma_edits_bound(rs, hs, i as nat, j as nat);
            }
            let a = previous[j + 1] + 1;
            let b = current[j] + 1;
            let c = previous[j] + cost;
            let m = if a <= b && a <= c {
                a
            } else if b <= c {
                b
            } else {
                c
            };
            current.push(m);
            j = j + 1;
        }
        previous = current;
        i = i + 1;
    }
    previous[n]
}

/// Word edits of a transcript against its reference, and the number of
/// reference words.
pub open spec fn wer_of(reference: Seq<char>, hypothesis: Seq<char>) -> (nat, nat) {
    let r = score_words(reference);
    let h = score_words(hypothesis);
    (edits(r, h, r.len(), h.len()), r.len())
}

/// `(word edits, reference words)` between a reference transcript and a
/// recognized one, scored on [`score_words`].
pub fn word_error_rate(reference: &str, hypothesis: &str) -> (r: (usize, usize))
    requires
        score_words(reference@).len() + score_words(hypothesis@).len() < usize::MAX,
    ensures
        (r.0 as nat, r.1 as nat) == wer_of(reference@, hypothesis@),
{
    let rw = scored_words(reference);
    let hw = scored_words(hypothesis);
    (edit_distance(&rw, &hw), rw.len())
}

/// [`word_error_rate`] where the word counts allow it: `None` only when
/// the two transcripts together hold `usize::MAX` words or more.
pub fn word_errors(reference: &str, hypothesis: &str) -> (r: Option<(usize, usize)>)
    ensures
        match r {
            Some(x) => score_words(reference@).len() + score_words(hypothesis@).len() < usize::MAX
                && (x.0 as nat, x.1 as nat) == wer_of(reference@, hypothesis@),
            None => score_words(reference@).len() + score_words(hypothesis@).len() >= usize::MAX,
        },
{
    let rw = scored_words(reference);
    let hw = scored_words(hypothesis);
    if rw.len() >= usize::MAX - hw.len() {
        return None;
    }
    Some((edit_distance(&rw, &hw), rw.len()))
}

/// Little-endian 16-bit word at `o`.
pub open spec fn u16_at(b: Seq<u8>, o: int) -> int {
    b[o] + 256 * b[o + 1]
}

/// Little-endian 32-bit word at `o`.
pub open spec fn u32_at(b: Seq<u8>, o: int) -> int {
    u16_at(b, o) + 65536 * u16_at(b, o + 2)
}

/// Little-endian signed 16-bit sample at `o`.
pub open spec fn i16_at(b: Seq<u8>, o: int) -> int {
    if u16_at(b, o) >= 32768 {
        u16_at(b, o) - 65536
    } else {
        u16_at(b, o)
    }
}

/// The four bytes of a chunk id.
pub open spec fn tag(a: u8, b: u8, c: u8, d: u8) -> Seq<u8> {
    seq![a, b, c, d]
}

pub open spec fn fmt_tag() -> Seq<u8> {
    tag(102, 109, 116, 32)
}

pub open spec fn data_tag() -> Seq<u8> {
    tag(100, 97, 116, 97)
}

/// `(format, channels, rate, bits)` of a `fmt ` chunk.
pub type WavFormat = (u16, u16, u32, u16);

/// The chunks of a RIFF file from `pos` on: the last `fmt ` chunk of at
/// least 16 bytes and the bounds of the last `data` chunk (cut at the
/// end of the file). Chunks are word aligned.
pub open spec fn walk_chunks(
    b: Seq<u8>,
    pos: int,
    fmt: Option<WavFormat>,
    data: Option<(int, int)>,
) -> (Option<WavFormat>, Option<(int, int)>)
    decreases b.len() - pos,
{
    if pos < 0 || pos + 8 > b.len() {
        (fmt, data)
    } else {
        let size = u32_at(b, pos + 4);
        let start = pos + 8;
        let end = if start + size < b.len() {
            start + size
        } else {
            b.len() as int
        };
        let id = b.subrange(pos, pos + 4);
        let fmt2 = if id == fmt_tag() && size >= 16 {
            Some(
                (
                    u16_at(b, start) as u16,
                    u16_at(b, start + 2) as u16,
                    u32_at(b, start + 4) as u32,
                    u16_at(b, start + 14) as u16,
                ),
            )
        } else {
            fmt
        };
        let data2 = if id == data_tag() {
            Some((start, end))
        } else {
            data
        };
        let next = start + size + size % 2;
        if next > b.len() {
            (fmt2, data2)
        } else {
            walk_chunks(b, next, fmt2, data2)
        }
    }
}

/// Every `fmt ` chunk of 16 bytes or more, from `pos` on, lies inside
/// the file (a truncated one cannot be read).
pub open spec fn fmt_chunks_complete(b: Seq<u8>, pos: int) -> bool
    decreases b.len() - pos,
{
    if pos < 0 || pos + 8 > b.len() {
        true
    } else {
        let size = u32_at(b, pos + 4);
        let start = pos + 8;
        &&& (b.subrange(pos, pos + 4) == fmt_tag() && size >= 16 ==> start + 16 <= b.len())
        &&& (start + size + size % 2 <= b.len() ==> fmt_chunks_complete(
            b,
            start + size + size % 2,
        ))
    }
}

/// Integer division rounding toward zero, as Rust's `/` does.
pub open spec fn div_trunc(a: int, d: int) -> int {
    if a >= 0 {
        a / d
    } else {
        -((-a) / d)
    }
}

/// Sum of the samples of channels `0..c` of frame `f`; a sample cut off
/// by the end of the data counts as silence.
pub open spec fn frame_sum(data: Seq<u8>, channels: int, f: int, c: int) -> int
    decreases c,
{
    if c <= 0 {
        0
    } else {
        let o = (f * channels + c - 1) * 2;
        frame_sum(data, channels, f, c - 1) + if o + 1 < data.len() {
            i16_at(data, o)
        } else {
            0
        }
    }
}

/// The mono samples of 16-bit interleaved PCM: each frame's channels
/// averaged, rounding toward zero.
pub open spec fn mono_samples(data: Seq<u8>, channels: u16) -> Seq<i16> {
    let ch = if channels == 0 {
        1int
    } else {
        channels as int
    };
    Seq::new(
        (data.len() as int / 2 / ch) as nat,
        |f: int| div_trunc(frame_sum(data, channels as int, f, channels as int), ch) as i16,
    )
}

/// The file starts with a `RIFF`/`WAVE` header.
pub open spec fn wav_header(b: Seq<u8>) -> bool {
    b.len() >= 44 && b.subrange(0, 4) == tag(82, 73, 70, 70) && b.subrange(8, 12) == tag(
        87,
        65,
        86,
        69,
    )
}

/// What reading the bytes of a WAV file gives: its mono samples and
/// sample rate, or why it cannot be used.
pub open spec fn wav_spec(b: Seq<u8>) -> Result<(Seq<i16>, u32), WavError> {
    if !wav_header(b) {
        Err(WavError::NotWave)
    } else {
        let (fmt, data) = walk_chunks(b, 12, None, None);
        match fmt {
            None => Err(WavError::NoFormat),
            Some((format, channels, rate, bits)) => match data {
                None => Err(WavError::NoData),
                Some((s, e)) => if format != 1 {
                    Err(WavError::Compressed(format))
                } else if bits != 16 {
                    Err(WavError::Depth(bits))
                } else {
                    Ok((mono_samples(b.subrange(s, e), channels), rate))
                },
            },
        }
    }
}

/// Why a recording cannot be benchmarked.
#[derive(Debug, Clone, Copy, PartialEq, Eq, Structural)]
pub enum WavError {
    /// No `RIFF`/`WAVE` header.
    NotWave,
    NoFormat,
    NoData,
    /// Not PCM: the format code.
    Compressed(u16),
    /// PCM of a sample size other than 16 bits.
    Depth(u16),
}

impl WavError {
    /// The message, as the benchmark reports it for `path`.
    pub fn message(self, path: &str) -> (r: String)
        ensures
            r@ == match self {
                WavError::NotWave => path@ + ": not a RIFF/WAVE file"@,
                WavError::NoFormat => "no fmt chunk"@,
                WavError::NoData => "no data chunk"@,
                WavError::Compressed(f) => "compressed wav (format "@ + decimal(f as nat)
                    + "), need PCM"@,
                WavError::Depth(b) => decimal(b as nat) + "-bit wav unsupported for bench"@,
            },
    {
        match self {
            WavError::NotWave => concat2(path, ": not a RIFF/WAVE file"),
            WavError::NoFormat => owned("no fmt chunk"),
            WavError::NoData => owned("no data chunk"),
            WavError::Compressed(f) => {
                let n = decimal_string(f as u64);
                concat3("compressed wav (format ", n.as_str(), "), need PCM")
            },
            WavError::Depth(b) => {
                let n = decimal_string(b as u64);
                concat2(n.as_str(), "-bit wav unsupported for bench")
            },
        }
    }
}

fn u16_le(b: &[u8], o: usize) -> (r: u32)
    requires
        o + 1 < b.len(),
    ensures
        r == u16_at(b@, o as int),
{
    b[o] as u32 + 256 * b[o + 1] as u32
}

fn u32_le(b: &[u8], o: usize) -> (r: u64)
    requires
        o + 3 < b.len(),
    ensures
        r == u32_at(b@, o as int),
{
    u16_le(b, o) as u64 + 65536 * u16_le(b, o + 2) as u64
}

fn i16_le(b: &[u8], o: usize) -> (r: i32)
    requires
        o + 1 < b.len(),
    ensures
        r == i16_at(b@, o as int),
{
    let u = u16_le(b, o) as i32;
    if u >= 32768 {
        u - 65536
    } else {
        u
    }
}

fn is_tag(b: &[u8], at: usize, a: u8, c: u8, d: u8, e: u8) -> (r: bool)
    requires
        at + 4 <= b.len(),
    ensures
        r == (b@.subrange(at as int, at + 4) == tag(a, c, d, e)),
{
    let r = b[at] == a && b[at + 1] == c && b[at + 2] == d && b[at + 3] == e;
    if r {
        assert(b@.subrange(at as int, at + 4) =~= tag(a, c, d, e));
    } else {
        proof {
            if b@.subrange(at as int, at + 4) == tag(a, c, d, e) {
                assert(b@.subrange(at as int, at + 4)[0] == a);
                assert(b@.subrange(at as int, at + 4)[1] == c);
                assert(b@.subrange(at as int, at + 4)[2] == d);
                assert(b@.subrange(at as int, at + 4)[3] == e);
            }
        }
    }
    r
}

/// The `fmt ` and `data` chunks of a RIFF file (see [`walk_chunks`]).
fn find_chunks(b: &[u8]) -> (r: (Option<WavFormat>, Option<(usize, usize)>))
    requires
        b.len() >= 12,
        fmt_chunks_complete(b@, 12),
    ensures
        (r.0, match r.1 {
            Some((s, e)) => Some((s as int, e as int)),
            None => None,
        }) == walk_chunks(b@, 12, None, None),
        r.1 matches Some((s, e)) ==> s <= e <= b.len(),
{
    let len = b.len();
    let mut pos: usize = 12;
    let mut fmt: Option<WavFormat> = None;
    let mut data: Option<(usize, usize)> = None;
    while pos <= len && len - pos >= 8
        invariant
            len == b.len(),
            12 <= pos,
            fmt_chunks_complete(b@, pos as int),
            walk_chunks(b@, pos as int, fmt, match data {
                Some((s, e)) => Some((s as int, e as int)),
                None => None,
            }) == walk_chunks(b@, 12, None, None),
            data matches Some((s, e)) ==> s <= e <= b.len(),
        decreases len - pos,
    {
        let size = u32_le(b, pos + 4);
        let start = pos + 8;
        let rest = len - start;
        let end = if (size as u128) < (rest as u128) {
            start + size as usize
        } else {
            len
        };
        if is_tag(b, pos, 102, 109, 116, 32) && size >= 16 {
            fmt = Some((u16_le(b, start) as u16, u16_le(b, start + 2) as u16, u32_le(b, start + 4) as u32, u16_le(b, start + 14) as u16));
        }
        if is_tag(b, pos, 100, 97, 116, 97) {
            data = Some((start, end));
        }
        let step = size + size % 2;
        if (step as u128) > (rest as u128) {
            return (fmt, data);
        }
        pos = start + step as usize;
    }
    (fmt, data)
}

/// Sum of the first `channels` samples of frame `f` of `b[s..e]`.
fn sum_frame(b: &[u8], s: usize, e: usize, channels: u16, f: usize) -> (r: i32)
    requires
        s <= e <= b.len(),
        channels >= 1,
        (f + 1) * channels as int * 2 <= e - s,
    ensures
        r == frame_sum(b@.subrange(s as int, e as int), channels as int, f as int, channels as int),
        -32768 * channels <= r <= 32767 * channels,
{
    let ghost data = b@.subrange(s as int, e as int);
    let ch = channels as usize;
    let mut acc: i32 = 0;
    let mut c: usize = 0;
    while c < ch
        invariant
            s <= e <= b.len(),
            data == b@.subrange(s as int, e as int),
            ch == channels as usize,
            ch >= 1,
            (f + 1) * ch * 2 <= e - s,
            c <= ch,
            acc == frame_sum(data, ch as int, f as int, c as int),
            -32768 * c <= acc <= 32767 * c,
        decreases ch - c,
    {
        assert((f * ch + c) * 2 + 1 < e - s) by (nonlinear_arith)
            requires
                c < ch,
                (f + 1) * ch * 2 <= e - s,
        ;
        let o = (f * ch + c) * 2;
        let v = i16_le(b, s + o);
        assert(i16_at(data, o as int) == i16_at(b@, (s + o) as int));
        assert(-32768 * (c + 1) <= acc + v <= 32767 * (c + 1)) by (nonlinear_arith)
            requires
                -32768 * c <= acc <= 32767 * c,
                -32768 <= v <= 32767,
        ;
        assert(c + 1 <= 65535);
        acc = acc + v;
        c = c + 1;
    }
    acc
}

/// Reads the mono samples and sample rate out of the bytes of a WAV file
/// (see [`wav_spec`]). A `fmt ` chunk that runs past the end of the file
/// cannot be read.
pub fn read_wav(b: &[u8]) -> (r: Result<(Vec<i16>, u32), WavError>)
    requires
        wav_header(b@) ==> fmt_chunks_complete(b@, 12),
    ensures
        match r {
            Ok((samples, rate)) => wav_spec(b@) == Ok::<(Seq<i16>, u32), WavError>((samples@, rate)),
            Err(e) => wav_spec(b@) == Err::<(Seq<i16>, u32), WavError>(e),
        },
{
    if b.len() < 44 || !is_tag(b, 0, 82, 73, 70, 70) || !is_tag(b, 8, 87, 65, 86, 69) {
        return Err(WavError::NotWave);
    }
    let (fmt, data) = find_chunks(b);
    let (format, channels, rate, bits) = match fmt {
        None => return Err(WavError::NoFormat),
        Some(f) => f,
    };
    let (s, e) = match data {
        None => return Err(WavError::NoData),
        Some(d) => d,
    };
    if format != 1 {
        return Err(WavError::Compressed(format));
    }
    if bits != 16 {
        return Err(WavError::Depth(bits));
    }
    let ghost bytes = b@.subrange(s as int, e as int);
    let ch: u16 = if channels == 0 {
        1
    } else {
        channels
    };
    let frames = (e - s) / 2 / ch as usize;
    let mut mono: Vec<i16> = Vec::new();
    let mut f: usize = 0;
    while f < frames
        invariant
            s <= e <= b.len(),
            bytes == b@.subrange(s as int, e as int),
            ch >= 1,
            ch == (if channels == 0 {
                1u16
            } else {
                channels
            }),
            frames == (e - s) / 2 / ch as int,
            f <= frames,
            mono.len() == f,
            forall|k: int| 0 <= k < f ==> mono@[k] == mono_samples(bytes, channels)[k],
        decreases frames - f,
    {
        let avg: i32 = if channels == 0 {
            0
        } else {
            assert((f + 1) * ch as int * 2 <= e - s) by (nonlinear_arith)
                requires
                    f < frames,
                    frames == (e - s) / 2 / ch as int,
                    ch >= 1,
            ;
            let acc = sum_frame(b, s, e, ch, f);
            let chi = ch as i32;
            if acc >= 0 {
                assert(acc / chi <= 32767) by (nonlinear_arith)
                    requires
                        0 <= acc <= 32767 * chi,
                        chi >= 1,
                ;
                acc / chi
            } else {
                let neg: i32 = -acc;
                assert(neg / chi <= 32768) by (nonlinear_arith)
                    requires
                        0 < neg <= 32768 * chi,
                        chi >= 1,
                ;
                -(neg / chi)
            }
        };
        proof {
            if channels == 0 {
                assert(frame_sum(bytes, 0, f as int, 0) == 0);
            }
        }
        mono.push(avg as i16);
        f = f + 1;
    }
    assert(mono@ =~= mono_samples(bytes, channels));
    Ok((mono, rate))
}

/// Samples in a `secs`-second prefix of a recording of `len` samples.
pub open spec fn prefix_len(secs: int, len: int) -> int {
    if secs * 16000 < len {
        secs * 16000
    } else {
        len
    }
}

/// One decode of the encoder-window comparison: the window
/// (`0`: Whisper's default 30 s), the seconds of audio and their samples.
pub type WindowRun = (i32, usize, usize);

/// The runs for window `ac`: every length of 1, 2, 4 and 8 s (cut at the
/// recording's end) except those the window is too small for.
pub open spec fn window_runs(ac: i32, len: int) -> Seq<(i32, usize, usize)> {
    seq![1usize, 2, 4, 8].filter(|secs: usize| !(ac > 0 && ac < frames_for(prefix_len(secs as int, len) as nat))).map_values(
        |secs: usize| (ac, secs, prefix_len(secs as int, len) as usize),
    )
}

/// Decodes `benchmark-tune` runs to compare encoder windows: none when
/// the recording is shorter than half a second.
pub open spec fn tune_runs(len: int) -> Seq<(i32, usize, usize)> {
    if len < 8000 {
        Seq::empty()
    } else {
        window_runs(0, len) + window_runs(600, len) + window_runs(300, len) + window_runs(150, len)
    }
}

fn add_window_runs(runs: &mut Vec<(i32, usize, usize)>, ac: i32, len: usize)
    requires
        len >= 8000,
    ensures
        final(runs)@ == old(runs)@ + window_runs(ac, len as int),
{
    let secs_list: [usize; 4] = [1, 2, 4, 8];
    let ghost keep = |secs: usize| !(ac > 0 && ac < frames_for(prefix_len(secs as int, len as int) as nat));
    let ghost mk = |secs: usize| (ac, secs, prefix_len(secs as int, len as int) as usize);
    let ghost start = runs@;
    let mut k: usize = 0;
    proof {
        reveal(Seq::filter);
        assert(secs_list@ =~= seq![1usize, 2, 4, 8]);
        assert(secs_list@.take(0).filter(keep) =~= Seq::<usize>::empty());
        assert(runs@ =~= start + secs_list@.take(0).filter(keep).map_values(mk));
    }
    while k < 4
        invariant
            k <= 4,
            len >= 8000,
            secs_list@ == seq![1usize, 2, 4, 8],
            keep == (|secs: usize| !(ac > 0 && ac < frames_for(prefix_len(secs as int, len as int) as nat))),
            mk == (|secs: usize| (ac, secs, prefix_len(secs as int, len as int) as usize)),
            runs@ == start + secs_list@.take(k as int).filter(keep).map_values(mk),
        decreases 4 - k,
    {
        let secs = secs_list[k];
        let n = if secs * 16000 < len {
            secs * 16000
        } else {
            len
        };
        let needed = buf_frames(n) as i32;
        let ghost before = secs_list@.take(k as int).filter(keep);
        proof {
            reveal(Seq::filter);
            assert(secs_list@.take(k + 1).drop_last() =~= secs_list@.take(k as int));
            assert(secs_list@.take(k + 1).last() == secs);
        }
        if !(ac > 0 && ac < needed) {
            runs.push((ac, secs, n));
            proof {
                assert(secs_list@.take(k + 1).filter(keep) == before.push(secs));
                assert(before.push(secs).map_values(mk) =~= before.map_values(mk).push(mk(secs)));
            }
        }
        k = k + 1;
    }
    proof {
        assert(secs_list@.take(4) =~= secs_list@);
    }
}

/// The encoder-window runs of `benchmark-tune` (see [`tune_runs`]).
pub fn window_plan(len: usize) -> (r: Vec<(i32, usize, usize)>)
    ensures
        r@ == tune_runs(len as int),
{
    let mut runs: Vec<(i32, usize, usize)> = Vec::new();
    if len < 8000 {
        assert(runs@ =~= tune_runs(len as int));
        return runs;
    }
    add_window_runs(&mut runs, 0, len);
    add_window_runs(&mut runs, 600, len);
    add_window_runs(&mut runs, 300, len);
    add_window_runs(&mut runs, 150, len);
    assert(runs@ =~= tune_runs(len as int));
    runs
}

/// The thread-scaling runs of `benchmark-tune`: 1, 2, 4 and 8 threads on
/// 1 s and 4 s of audio (cut at the recording's end), each with the
/// encoder window sized to it; none for less than half a second.
pub open spec fn thread_runs(len: int) -> Seq<(i32, usize, usize, i32)> {
    if len < 8000 {
        Seq::empty()
    } else {
        seq![1i32, 2, 4, 8].map_values(
            |t: i32|
                seq![
                    (t, 1usize, prefix_len(1, len) as usize, audio_ctx_for(prefix_len(1, len) as nat) as i32),
                    (t, 4usize, prefix_len(4, len) as usize, audio_ctx_for(prefix_len(4, len) as nat) as i32),
                ],
        ).flatten()
    }
}

/// The thread-scaling runs of `benchmark-tune`: `(threads, seconds,
/// samples, encoder window)` (see [`thread_runs`]).
pub fn thread_plan(len: usize) -> (r: Vec<(i32, usize, usize, i32)>)
    ensures
        r@ == thread_runs(len as int),
{
    let mut runs: Vec<(i32, usize, usize, i32)> = Vec::new();
    if len < 8000 {
        assert(runs@ =~= thread_runs(len as int));
        return runs;
    }
    let one = if 16000 < len {
        16000
    } else {
        len
    };
    let four = if 64000 < len {
        64000
    } else {
        len
    };
    let ctx_one = auto_audio_ctx(one);
    let ctx_four = auto_audio_ctx(four);
    let threads: [i32; 4] = [1, 2, 4, 8];
    let ghost per = |t: i32|
        seq![
            (t, 1usize, prefix_len(1, len as int) as usize, audio_ctx_for(prefix_len(1, len as int) as nat) as i32),
            (t, 4usize, prefix_len(4, len as int) as usize, audio_ctx_for(prefix_len(4, len as int) as nat) as i32),
        ];
    let mut k: usize = 0;
    assert(threads@ =~= seq![1i32, 2, 4, 8]);
    assert(threads@.take(0).map_values(per).flatten() =~= Seq::<(i32, usize, usize, i32)>::empty());
    while k < 4
        invariant
            k <= 4,
            len >= 8000,
            threads@ == seq![1i32, 2, 4, 8],
            one == prefix_len(1, len as int),
            four == prefix_len(4, len as int),
            ctx_one == audio_ctx_for(one as nat),
            ctx_four == audio_ctx_for(four as nat),
            per == (|t: i32|
                seq![
                    (t, 1usize, prefix_len(1, len as int) as usize, audio_ctx_for(prefix_len(1, len as int) as nat) as i32),
                    (t, 4usize, prefix_len(4, len as int) as usize, audio_ctx_for(prefix_len(4, len as int) as nat) as i32),
                ]),
            runs@ == threads@.take(k as int).map_values(per).flatten(),
        decreases 4 - k,
    {
        let t = threads[k];
        runs.push((t, 1, one, ctx_one));
        runs.push((t, 4, four, ctx_four));
        proof {
            let pre = threads@.take(k as int).map_values(per);
            assert(threads@.take(k + 1).map_values(per) =~= pre.push(per(t)));
            pre.lemma_flatten_push(per(t));
            assert(runs@ =~= pre.flatten() + per(t));
        }
        k = k + 1;
    }
    assert(threads@.take(4) =~= threads@);
    runs
}

/// The column label of a window run.
pub fn window_label(ac: i32) -> (r: String)
    requires
        ac >= 0,
    ensures
        r@ == (if ac == 0 {
            "default(30s)"@
        } else {
            "audio_ctx="@ + decimal(ac as nat)
        }),
{
    if ac == 0 {
        owned("default(30s)")
    } else {
        let n = decimal_string(ac as u64);
        concat2("audio_ctx=", n.as_str())
    }
}

/// Whether [`read_wav`] can read `b`: every `fmt ` chunk it meets lies
/// inside the file.
pub fn wav_readable(b: &[u8]) -> (r: bool)
    ensures
        r == (wav_header(b@) ==> fmt_chunks_complete(b@, 12)),
{
    let len = b.len();
    if len < 44 || !is_tag(b, 0, 82, 73, 70, 70) || !is_tag(b, 8, 87, 65, 86, 69) {
        return true;
    }
    let mut pos: usize = 12;
    while pos <= len && len - pos >= 8
        invariant
            len == b.len(),
            12 <= pos,
            fmt_chunks_complete(b@, 12) == fmt_chunks_complete(b@, pos as int),
            wav_header(b@),
        decreases len - pos,
    {
        let size = u32_le(b, pos + 4);
        let start = pos + 8;
        let rest = len - start;
        if is_tag(b, pos, 102, 109, 116, 32) && size >= 16 && rest < 16 {
            return false;
        }
        let step = size + size % 2;
        if (step as u128) > (rest as u128) {
            return true;
        }
        pos = start + step as usize;
    }
    true
}

} // verus!
