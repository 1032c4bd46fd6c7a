//! The speech detector of the Whisper backend: when a stretch of microphone
//! audio opens an utterance, when a rolling transcription of the buffer
//! is due, and when the utterance ends and what is then decoded. The
//! loudness test, the clock and the model stay with the caller, which
//! hands in whether a chunk was voiced and whether the decode cadence
//! has passed.
use crate::segment::{audio_ctx_for, auto_audio_ctx, buf_ms, joined_parts, join_parts, ms_for};
use crate::text::owned;
use vstd::prelude::*;

verus! {

/// Wall time of buffered audio before the first rolling transcription.
pub const FIRST_CHUNK_MS: u32 = 1000;

/// Consecutive quiet that ends an utterance.
pub const SILENCE_END_MS: u32 = 500;

/// Speech shorter than this is a noise blip and is not transcribed.
pub const MIN_SPEECH_MS: u32 = 200;

/// Utterances are split after this much buffered audio.
pub const MAX_SEGMENT_MS: u32 = 6000;

/// The detector, as plain values.
pub struct DetectorState {
    pub in_speech: bool,
    pub speech_ms: u32,
    pub silence_ms: u32,
    pub buffered: nat,
    pub transcribed: nat,
    pub emitted: bool,
    pub decoded: bool,
    pub last_text: Seq<char>,
}

/// What ending an utterance decodes: the buffer from `from` on, with
/// encoder window `ctx`; a tail decode is joined onto `prior`.
pub struct FinalView {
    pub from: nat,
    pub ctx: int,
    pub prior: Seq<char>,
    pub tail: bool,
    pub fresh: bool,
}

/// What a chunk of audio leads to.
pub enum DetectorDecision {
    /// Nothing to decode.
    Wait,
    /// Transcribe the whole buffer with this encoder window.
    Rolling(int),
    /// The utterance ended; decode as planned, if anything.
    Finish(Option<FinalView>),
}

/// The detector of a fresh backend: quiet, nothing buffered.
pub open spec fn idle() -> DetectorState {
    DetectorState {
        in_speech: false,
        speech_ms: 0,
        silence_ms: 0,
        buffered: 0,
        transcribed: 0,
        emitted: false,
        decoded: false,
        last_text: Seq::empty(),
    }
}

/// Ends the utterance: the detector goes idle and the plan says what is left
/// to decode. Nothing is decoded after less than `MIN_SPEECH_MS` of
/// speech or without audio. Once a rolling transcription was emitted,
/// only the audio after it is decoded and joined onto its text.
pub open spec fn finalize_spec(g: DetectorState) -> (DetectorState, Option<FinalView>) {
    let heard = g.speech_ms >= MIN_SPEECH_MS;
    let plan = if !heard || g.buffered == 0 {
        None
    } else {
        let tail = g.emitted && g.transcribed > 0 && g.transcribed <= g.buffered;
        Some(
            FinalView {
                from: if tail {
                    g.transcribed
                } else {
                    0
                },
                ctx: audio_ctx_for(
                    if tail {
                        (g.buffered - g.transcribed) as nat
                    } else {
                        g.buffered
                    },
                ),
                prior: g.last_text,
                tail,
                fresh: !g.emitted,
            },
        )
    };
    (idle(), plan)
}

/// Whether `feed_spec` can take a chunk of `n` samples without an
/// arithmetic overflow.
pub open spec fn feed_fits(g: DetectorState, n: nat) -> bool {
    &&& (g.buffered + n) * 1000 <= u64::MAX
    &&& g.buffered + n <= usize::MAX
    &&& g.speech_ms + ms_for(n) <= u32::MAX
    &&& g.silence_ms + ms_for(n) <= u32::MAX
}

/// A chunk of `n` samples arrives; `voiced` tells whether it is loud
/// enough to be speech and `cadence` whether the rolling-decode interval
/// has passed since the last rolling decode. Quiet audio outside an
/// utterance is dropped; voiced audio opens one (the second result).
pub open spec fn feed_spec(g: DetectorState, n: nat, voiced: bool, cadence: bool) -> (
    DetectorState,
    bool,
    DetectorDecision,
) {
    if !g.in_speech && !voiced {
        (g, false, DetectorDecision::Wait)
    } else {
        let opened = !g.in_speech;
        let g1 = if opened {
            DetectorState {
                in_speech: true,
                speech_ms: 0,
                silence_ms: 0,
                buffered: 0,
                decoded: false,
                ..g
            }
        } else {
            g
        };
        let cms = ms_for(n);
        let g2 = DetectorState {
            buffered: g1.buffered + n,
            speech_ms: if voiced {
                (g1.speech_ms + cms) as u32
            } else {
                g1.speech_ms
            },
            silence_ms: if voiced {
                0
            } else {
                (g1.silence_ms + cms) as u32
            },
            ..g1
        };
        let ms = ms_for(g2.buffered);
        if g2.silence_ms == 0 && ms >= FIRST_CHUNK_MS && (!g2.decoded || cadence) {
            (g2, opened, DetectorDecision::Rolling(audio_ctx_for(g2.buffered)))
        } else if (g2.silence_ms >= SILENCE_END_MS && g2.speech_ms >= MIN_SPEECH_MS) || ms
            >= MAX_SEGMENT_MS {
            (finalize_spec(g2).0, opened, DetectorDecision::Finish(finalize_spec(g2).1))
        } else {
            (g2, opened, DetectorDecision::Wait)
        }
    }
}

/// The result of a rolling decode of the whole buffer: the decode time
/// is now set; non-empty text is emitted (fresh when it is the first of
/// the utterance) and becomes the base of the final tail decode.
pub open spec fn rolling_spec(g: DetectorState, text: Seq<char>) -> (DetectorState, Option<(Seq<char>, bool)>) {
    let g1 = DetectorState { decoded: true, ..g };
    if text.len() == 0 {
        (g1, None)
    } else {
        (
            DetectorState { last_text: text, emitted: true, transcribed: g.buffered, ..g1 },
            Some((text, !g.emitted)),
        )
    }
}

/// The text an utterance ends with, from what the plan decoded.
pub open spec fn finish_spec(plan: FinalView, decoded: Seq<char>) -> Option<(Seq<char>, bool)> {
    let text = if plan.tail {
        joined_parts(plan.prior, decoded)
    } else {
        decoded
    };
    if text.len() == 0 {
        None
    } else {
        Some((text, plan.fresh))
    }
}

/// A detector that emitted text holds that text.
pub open spec fn detector_inv(g: DetectorState) -> bool {
    g.emitted ==> g.last_text.len() > 0
}

/// Every operation of the detector keeps [`detector_inv`].
pub proof fn law_detector_inv_kept(g: DetectorState, n: nat, voiced: bool, cadence: bool, text: Seq<char>)
    requires
        detector_inv(g),
    ensures
        detector_inv(idle()),
        detector_inv(feed_spec(g, n, voiced, cadence).0),
        detector_inv(rolling_spec(g, text).0),
        detector_inv(finalize_spec(g).0),
{
}

/// Once a rolling transcription was typed, the text the utterance ends
/// with begins with it: ending the utterance only ever appends.
pub proof fn law_final_text_extends_rolling(g: DetectorState, decoded: Seq<char>)
    requires
        detector_inv(g),
        finalize_spec(g).1 matches Some(plan) && plan.tail,
    ensures
        finish_spec(finalize_spec(g).1.unwrap(), decoded) matches Some((text, fresh)) && !fresh
            && text.subrange(0, g.last_text.len() as int) == g.last_text,
{
    let plan = finalize_spec(g).1.unwrap();
    let t = joined_parts(g.last_text, decoded);
    if g.last_text.len() == 0 {
        assert(t.subrange(0, 0) =~= g.last_text);
        if decoded.len() == 0 {
            assert(t.len() == 0);
        }
    } else {
        assert(t.subrange(0, g.last_text.len() as int) =~= g.last_text);
    }
}

/// Within one utterance the first emitted text is fresh and every later
/// one (rolling or final) revises it; quiet audio outside an utterance
/// changes nothing.
pub proof fn law_one_fresh_text_per_utterance(g: DetectorState, text: Seq<char>, n: nat, cadence: bool)
    ensures
        text.len() > 0 ==> rolling_spec(g, text).1 == Some((text, !g.emitted)),
        text.len() > 0 ==> rolling_spec(g, text).0.emitted,
        g.emitted ==> (finalize_spec(g).1 matches Some(plan) ==> !plan.fresh),
        !g.in_speech ==> feed_spec(g, n, false, cadence) == (g, false, DetectorDecision::Wait),
{
}

/// Outside an utterance nothing has been emitted.
pub open spec fn segment_inv(g: DetectorState) -> bool {
    !g.in_speech ==> !g.emitted
}

/// Every operation keeps [`segment_inv`] (a rolling decode happens only
/// inside an utterance).
pub proof fn law_segment_inv_kept(g: DetectorState, n: nat, voiced: bool, cadence: bool, text: Seq<char>)
    requires
        segment_inv(g),
    ensures
        segment_inv(idle()),
        segment_inv(feed_spec(g, n, voiced, cadence).0),
        segment_inv(finalize_spec(g).0),
        g.in_speech ==> segment_inv(rolling_spec(g, text).0),
{
}

/// Within one utterance every text handed out is non-empty, and it is
/// fresh exactly when nothing was handed out before in that utterance:
/// an utterance opens with nothing emitted, a rolling text is fresh only
/// while nothing was emitted and marks the utterance as emitted, and the
/// final text is fresh only when no rolling text came before it.
pub proof fn law_fresh_exactly_first(
    g: DetectorState,
    n: nat,
    voiced: bool,
    cadence: bool,
    text: Seq<char>,
    decoded: Seq<char>,
)
    requires
        segment_inv(g),
    ensures
        !g.in_speech ==> !feed_spec(g, n, voiced, cadence).0.emitted,
        rolling_spec(g, text).1 matches Some((t, fresh)) ==> t.len() > 0 && fresh == !g.emitted
            && rolling_spec(g, text).0.emitted,
        rolling_spec(g, text).1 is None ==> rolling_spec(g, text).0.emitted == g.emitted,
        finalize_spec(g).1 matches Some(plan) ==> (finish_spec(plan, decoded) matches Some(
            (t, fresh),
        ) ==> t.len() > 0 && fresh == !g.emitted),
        feed_spec(g, n, voiced, cadence).2 matches DetectorDecision::Finish(Some(plan)) ==> (
        finish_spec(plan, decoded) matches Some((t, fresh)) ==> t.len() > 0 && fresh == !(
        g.in_speech && g.emitted)),
{
}

/// The detector of the Whisper backend.
#[derive(Debug)]
pub struct SpeechDetector {
    pub in_speech: bool,
    pub speech_ms: u32,
    pub silence_ms: u32,
    /// Samples buffered in the current utterance.
    pub buffered: usize,
    /// Samples covered by the last emitted rolling transcription.
    pub transcribed: usize,
    /// A rolling transcription was emitted in this utterance.
    pub emitted: bool,
    /// A rolling decode ran in this utterance (its time is the cadence
    /// reference).
    pub decoded: bool,
    /// Text of the last rolling transcription.
    pub last_text: String,
}

pub open spec fn detector_view(g: SpeechDetector) -> DetectorState {
    DetectorState {
        in_speech: g.in_speech,
        speech_ms: g.speech_ms,
        silence_ms: g.silence_ms,
        buffered: g.buffered as nat,
        transcribed: g.transcribed as nat,
        emitted: g.emitted,
        decoded: g.decoded,
        last_text: g.last_text@,
    }
}

/// What ending an utterance decodes (see [`FinalView`]).
#[derive(Debug)]
pub struct FinalPlan {
    pub from: usize,
    pub ctx: i32,
    pub prior: String,
    pub tail: bool,
    pub fresh: bool,
}

pub open spec fn plan_view(p: FinalPlan) -> FinalView {
    FinalView { from: p.from as nat, ctx: p.ctx as int, prior: p.prior@, tail: p.tail, fresh: p.fresh }
}

pub open spec fn opt_plan_view(p: Option<FinalPlan>) -> Option<FinalView> {
    match p {
        Some(x) => Some(plan_view(x)),
        None => None,
    }
}

/// What a chunk leads to (see [`DetectorDecision`]).
#[derive(Debug)]
pub enum Decision {
    Wait,
    Rolling(i32),
    Finish(Option<FinalPlan>),
}

pub open spec fn decision_view(d: Decision) -> DetectorDecision {
    match d {
        Decision::Wait => DetectorDecision::Wait,
        Decision::Rolling(c) => DetectorDecision::Rolling(c as int),
        Decision::Finish(p) => DetectorDecision::Finish(opt_plan_view(p)),
    }
}

pub open spec fn text_view(r: Option<(String, bool)>) -> Option<(Seq<char>, bool)> {
    match r {
        Some((t, f)) => Some((t@, f)),
        None => None,
    }
}

impl SpeechDetector {
    pub fn new() -> (r: SpeechDetector)
        ensures
            detector_view(r) == idle(),
    {
        let r = SpeechDetector {
            in_speech: false,
            speech_ms: 0,
            silence_ms: 0,
            buffered: 0,
            transcribed: 0,
            emitted: false,
            decoded: false,
            last_text: String::new(),
        };
        assert(detector_view(r) =~= idle());
        r
    }

    /// Ends the utterance (see [`finalize_spec`]).
    pub fn finalize(&mut self) -> (r: Option<FinalPlan>)
        ensures
            (detector_view(*final(self)), opt_plan_view(r)) == finalize_spec(detector_view(*old(self))),
    {
        let heard = self.speech_ms >= MIN_SPEECH_MS;
        let was_emitted = self.emitted;
        let transcribed = self.transcribed;
        let buffered = self.buffered;
        let mut prior = String::new();
        std::mem::swap(&mut prior, &mut self.last_text);
        self.in_speech = false;
        self.speech_ms = 0;
        self.silence_ms = 0;
        self.buffered = 0;
        self.transcribed = 0;
        self.emitted = false;
        self.decoded = false;
        assert(detector_view(*self) =~= idle());
        if !heard || buffered == 0 {
            return None;
        }
        let tail = was_emitted && transcribed > 0 && transcribed <= buffered;
        let plan = if tail {
            FinalPlan { from: transcribed, ctx: auto_audio_ctx(buffered - transcribed), prior, tail, fresh: !was_emitted }
        } else {
            FinalPlan { from: 0, ctx: auto_audio_ctx(buffered), prior, tail, fresh: !was_emitted }
        };
        Some(plan)
    }

    /// Whether a chunk of `n` samples can be fed (see [`feed_fits`]).
    pub fn can_feed(&self, n: usize) -> (r: bool)
        ensures
            r == feed_fits(detector_view(*self), n as nat),
    {
        if self.buffered > usize::MAX - n {
            return false;
        }
        let total = self.buffered + n;
        if total as u128 * 1000 > u64::MAX as u128 {
            return false;
        }
        let cms = buf_ms(n);
        self.speech_ms as u64 + cms as u64 <= u32::MAX as u64 && self.silence_ms as u64
            + cms as u64 <= u32::MAX as u64
    }

    /// A chunk of `n` samples arrives (see [`feed_spec`]); the flag tells
    /// whether it opened an utterance.
    pub fn feed(&mut self, n: usize, voiced: bool, cadence: bool) -> (r: (bool, Decision))
        requires
            feed_fits(detector_view(*old(self)), n as nat),
        ensures
            (detector_view(*final(self)), r.0, decision_view(r.1)) == feed_spec(
                detector_view(*old(self)),
                n as nat,
                voiced,
                cadence,
            ),
    {
        if !self.in_speech && !voiced {
            return (false, Decision::Wait);
        }
        let opened = !self.in_speech;
        if opened {
            self.in_speech = true;
            self.speech_ms = 0;
            self.silence_ms = 0;
            self.buffered = 0;
            self.decoded = false;
        }
        self.buffered = self.buffered + n;
        let cms = buf_ms(n);
        if voiced {
            self.speech_ms = self.speech_ms + cms;
            self.silence_ms = 0;
        } else {
            self.silence_ms = self.silence_ms + cms;
        }
        let ms = buf_ms(self.buffered);
        if self.silence_ms == 0 && ms >= FIRST_CHUNK_MS && (!self.decoded || cadence) {
            return (opened, Decision::Rolling(auto_audio_ctx(self.buffered)));
        }
        if (self.silence_ms >= SILENCE_END_MS && self.speech_ms >= MIN_SPEECH_MS) || ms >= MAX_SEGMENT_MS {
            let plan = self.finalize();
            return (opened, Decision::Finish(plan));
        }
        (opened, Decision::Wait)
    }

    /// The text of a rolling decode (see [`rolling_spec`]).
    pub fn rolling_done(&mut self, text: String) -> (r: Option<(String, bool)>)
        ensures
            (detector_view(*final(self)), text_view(r)) == rolling_spec(detector_view(*old(self)), text@),
    {
        self.decoded = true;
        if text.as_str().is_empty() {
            return None;
        }
        let fresh = !self.emitted;
        self.last_text = owned(text.as_str());
        self.emitted = true;
        self.transcribed = self.buffered;
        Some((text, fresh))
    }

    /// Shutdown: ends an open utterance, if there is one.
    pub fn flush(&mut self) -> (r: Option<FinalPlan>)
        ensures
            detector_view(*old(self)).in_speech ==> (detector_view(*final(self)), opt_plan_view(r))
                == finalize_spec(detector_view(*old(self))),
            !detector_view(*old(self)).in_speech ==> r is None && *final(self) == *old(self),
    {
        if self.in_speech {
            self.finalize()
        } else {
            None
        }
    }
}

/// The text an utterance ends with (see [`finish_spec`]).
pub fn finish(plan: &FinalPlan, decoded: &str) -> (r: Option<(String, bool)>)
    ensures
        text_view(r) == finish_spec(plan_view(*plan), decoded@),
{
    let text = if plan.tail {
        join_parts(plan.prior.as_str(), decoded)
    } else {
        owned(decoded)
    };
    if text.as_str().is_empty() {
        None
    } else {
        Some((text, plan.fresh))
    }
}

/// The speech detector of the offline (Moonshine, SenseVoice) backends,
/// as plain values: it buffers from the first voiced chunk and decodes
/// the whole buffer, optionally re-decoding it while the speech goes on.
pub struct OfflineState {
    pub in_speech: bool,
    pub speech_ms: u32,
    pub silence_ms: u32,
    pub buffered: nat,
    pub decoded: bool,
    pub last_text: Seq<char>,
}

/// What a chunk leads to in an offline backend.
pub enum OfflineDecision {
    Wait,
    /// Decode the whole buffer for a rolling update.
    Rolling,
    /// The utterance ended; decode the buffer when `true` (enough speech
    /// was heard), then start over.
    Finish(bool),
}

pub open spec fn offline_idle() -> OfflineState {
    OfflineState {
        in_speech: false,
        speech_ms: 0,
        silence_ms: 0,
        buffered: 0,
        decoded: false,
        last_text: Seq::empty(),
    }
}

/// A chunk of `n` samples arrives in an offline backend that ends an
/// utterance after `max` buffered samples and, when `rolling`, decodes
/// the buffer while speech goes on (`cadence`: the rolling interval has
/// passed). The flag tells whether the chunk was voiced (the busy marker
/// is then set).
pub open spec fn offline_feed_spec(
    g: OfflineState,
    n: nat,
    voiced: bool,
    cadence: bool,
    max: nat,
    rolling: bool,
) -> (OfflineState, bool, OfflineDecision) {
    if n == 0 {
        (g, false, OfflineDecision::Wait)
    } else {
        let ms = ms_for(n);
        let g1 = if voiced {
            OfflineState {
                in_speech: true,
                speech_ms: (g.speech_ms + ms) as u32,
                silence_ms: 0,
                ..g
            }
        } else if g.in_speech {
            OfflineState { silence_ms: (g.silence_ms + ms) as u32, ..g }
        } else {
            g
        };
        let g2 = if g1.in_speech {
            OfflineState { buffered: g1.buffered + n, ..g1 }
        } else {
            g1
        };
        if g2.in_speech && (g2.silence_ms >= SILENCE_END_MS || g2.buffered >= max) {
            (offline_idle(), voiced, OfflineDecision::Finish(g2.speech_ms >= MIN_SPEECH_MS))
        } else if rolling && g2.in_speech && g2.speech_ms >= MIN_SPEECH_MS && (!g2.decoded
            || cadence) {
            (OfflineState { decoded: true, ..g2 }, voiced, OfflineDecision::Rolling)
        } else {
            (g2, voiced, OfflineDecision::Wait)
        }
    }
}

/// An offline utterance is decoded only when it held enough speech: when
/// a chunk ends the utterance, the decode flag is set exactly when the
/// voiced time, this chunk included, reaches `MIN_SPEECH_MS`; shorter
/// noise blips are dropped undecoded.
pub proof fn law_offline_blips_are_not_decoded(
    g: OfflineState,
    n: nat,
    voiced: bool,
    cadence: bool,
    max: nat,
    rolling: bool,
)
    requires
        offline_fits(g, n),
    ensures
        offline_feed_spec(g, n, voiced, cadence, max, rolling).2 matches OfflineDecision::Finish(
            decode,
        ) ==> (decode <==> g.speech_ms + (if voiced {
            ms_for(n) as int
        } else {
            0
        }) >= 200),
        offline_feed_spec(g, n, voiced, cadence, max, rolling).2 is Finish
            ==> offline_feed_spec(g, n, voiced, cadence, max, rolling).0 == offline_idle(),
{
}

/// When an offline utterance ends: a non-empty chunk finishes it exactly
/// when, after the chunk, speech is under way and either 500 ms of quiet
/// followed it or the buffer reached `max` samples. Quiet outside an
/// utterance changes nothing, and a rolling decode is asked for only by a
/// rolling backend after at least 200 ms of speech.
pub proof fn law_offline_utterance_ends(
    g: OfflineState,
    n: nat,
    voiced: bool,
    cadence: bool,
    max: nat,
    rolling: bool,
)
    requires
        offline_fits(g, n),
        n > 0,
    ensures
        ({
            let speaking = g.in_speech || voiced;
            let quiet: int = if voiced {
                0
            } else if g.in_speech {
                g.silence_ms + ms_for(n)
            } else {
                g.silence_ms as int
            };
            let buffered: int = if speaking {
                (g.buffered + n) as int
            } else {
                g.buffered as int
            };
            offline_feed_spec(g, n, voiced, cadence, max, rolling).2 is Finish <==> (speaking && (
            quiet >= 500 || buffered >= max))
        }),
        !g.in_speech && !voiced ==> offline_feed_spec(g, n, voiced, cadence, max, rolling) == (
            g,
            false,
            OfflineDecision::Wait,
        ),
        offline_feed_spec(g, n, voiced, cadence, max, rolling).2 is Rolling ==> rolling
            && g.speech_ms + (if voiced {
            ms_for(n) as int
        } else {
            0
        }) >= 200,
{
}

/// Whether `offline_feed_spec` can take `n` samples without overflow.
pub open spec fn offline_fits(g: OfflineState, n: nat) -> bool {
    &&& n * 1000 <= u64::MAX
    &&& g.buffered + n <= usize::MAX
    &&& g.speech_ms + ms_for(n) <= u32::MAX
    &&& g.silence_ms + ms_for(n) <= u32::MAX
}

/// A rolling decode's text is emitted (as a revision) when it is new.
pub open spec fn offline_rolling_spec(g: OfflineState, text: Seq<char>) -> (OfflineState, Option<(Seq<char>, bool)>) {
    if text.len() > 0 && text != g.last_text {
        (OfflineState { last_text: text, ..g }, Some((text, false)))
    } else {
        (g, None)
    }
}

/// The speech detector of an offline backend.
#[derive(Debug)]
pub struct OfflineDetector {
    pub in_speech: bool,
    pub speech_ms: u32,
    pub silence_ms: u32,
    pub buffered: usize,
    pub decoded: bool,
    pub last_text: String,
    /// Samples after which an utterance is cut.
    pub max_samples: usize,
    /// Whether the buffer is re-decoded while speech goes on.
    pub rolling: bool,
}

pub open spec fn offline_view(g: OfflineDetector) -> OfflineState {
    OfflineState {
        in_speech: g.in_speech,
        speech_ms: g.speech_ms,
        silence_ms: g.silence_ms,
        buffered: g.buffered as nat,
        decoded: g.decoded,
        last_text: g.last_text@,
    }
}

#[derive(Debug, PartialEq, Eq)]
pub enum Offline {
    Wait,
    Rolling,
    Finish(bool),
}

pub open spec fn offline_decision(d: Offline) -> OfflineDecision {
    match d {
        Offline::Wait => OfflineDecision::Wait,
        Offline::Rolling => OfflineDecision::Rolling,
        Offline::Finish(h) => OfflineDecision::Finish(h),
    }
}

impl OfflineDetector {
    /// An idle detector cutting utterances at `max_samples`.
    pub fn new(max_samples: usize, rolling: bool) -> (r: OfflineDetector)
        ensures
            offline_view(r) == offline_idle(),
            r.max_samples == max_samples,
            r.rolling == rolling,
    {
        let r = OfflineDetector {
            in_speech: false,
            speech_ms: 0,
            silence_ms: 0,
            buffered: 0,
            decoded: false,
            last_text: String::new(),
            max_samples,
            rolling,
        };
        assert(offline_view(r) =~= offline_idle());
        r
    }

    fn reset(&mut self)
        ensures
            offline_view(*final(self)) == offline_idle(),
            final(self).max_samples == old(self).max_samples,
            final(self).rolling == old(self).rolling,
    {
        self.in_speech = false;
        self.speech_ms = 0;
        self.silence_ms = 0;
        self.buffered = 0;
        self.decoded = false;
        self.last_text = String::new();
        assert(offline_view(*self) =~= offline_idle());
    }

    /// Whether a chunk of `n` samples can be fed (see [`offline_fits`]).
    pub fn can_feed(&self, n: usize) -> (r: bool)
        ensures
            r == offline_fits(offline_view(*self), n as nat),
    {
        if n as u128 * 1000 > u64::MAX as u128 || self.buffered > usize::MAX - n {
            return false;
        }
        let ms = buf_ms(n);
        self.speech_ms as u64 + ms as u64 <= u32::MAX as u64 && self.silence_ms as u64
            + ms as u64 <= u32::MAX as u64
    }

    /// A chunk of `n` samples arrives (see [`offline_feed_spec`]).
    pub fn feed(&mut self, n: usize, voiced: bool, cadence: bool) -> (r: (bool, Offline))
        requires
            offline_fits(offline_view(*old(self)), n as nat),
        ensures
            (offline_view(*final(self)), r.0, offline_decision(r.1)) == offline_feed_spec(
                offline_view(*old(self)),
                n as nat,
                voiced,
                cadence,
                old(self).max_samples as nat,
                old(self).rolling,
            ),
            final(self).max_samples == old(self).max_samples,
            final(self).rolling == old(self).rolling,
    {
        if n == 0 {
            return (false, Offline::Wait);
        }
        let ms = buf_ms(n);
        if voiced {
            self.in_speech = true;
            self.speech_ms = self.speech_ms + ms;
            self.silence_ms = 0;
        } else if self.in_speech {
            self.silence_ms = self.silence_ms + ms;
        }
        if self.in_speech {
            self.buffered = self.buffered + n;
        }
        if self.in_speech && (self.silence_ms >= SILENCE_END_MS || self.buffered >= self.max_samples) {
            let heard = self.speech_ms >= MIN_SPEECH_MS;
            self.reset();
            return (voiced, Offline::Finish(heard));
        }
        if self.rolling && self.in_speech && self.speech_ms >= MIN_SPEECH_MS && (!self.decoded || cadence) {
            self.decoded = true;
            return (voiced, Offline::Rolling);
        }
        (voiced, Offline::Wait)
    }

    /// The text of a rolling decode (see [`offline_rolling_spec`]).
    pub fn rolling_done(&mut self, text: String) -> (r: Option<(String, bool)>)
        ensures
            (offline_view(*final(self)), text_view(r)) == offline_rolling_spec(offline_view(*old(self)), text@),
            final(self).max_samples == old(self).max_samples,
            final(self).rolling == old(self).rolling,
    {
        if !text.as_str().is_empty() && !crate::text::str_eq(text.as_str(), self.last_text.as_str()) {
            self.last_text = owned(text.as_str());
            return Some((text, false));
        }
        None
    }

    /// Shutdown: an open utterance ends (decode when `true`).
    pub fn flush(&mut self) -> (r: Option<bool>)
        ensures
            offline_view(*old(self)).in_speech ==> offline_view(*final(self)) == offline_idle() && r
                == Some(old(self).speech_ms >= MIN_SPEECH_MS),
            !offline_view(*old(self)).in_speech ==> r is None && *final(self) == *old(self),
            final(self).max_samples == old(self).max_samples,
            final(self).rolling == old(self).rolling,
    {
        if self.in_speech {
            let heard = self.speech_ms >= MIN_SPEECH_MS;
            self.reset();
            Some(heard)
        } else {
            None
        }
    }
}

/// The final text of an offline utterance: typed whole when not empty.
pub fn offline_final(text: String) -> (r: Option<(String, bool)>)
    ensures
        text_view(r) == (if text@.len() > 0 {
            Some((text@, true))
        } else {
            None::<(Seq<char>, bool)>
        }),
{
    if text.as_str().is_empty() {
        None
    } else {
        Some((text, true))
    }
}

/// A streaming backend's partial text: emitted, as a revision, when it
/// is not empty and differs from the last one.
pub fn partial_text(last: &mut String, text: String) -> (r: Option<(String, bool)>)
    ensures
        text@.len() > 0 && text@ != old(last)@ ==> text_view(r) == Some((text@, false))
            && final(last)@ == text@,
        !(text@.len() > 0 && text@ != old(last)@) ==> r is None && final(last)@ == old(last)@,
{
    if !text.as_str().is_empty() && !crate::text::str_eq(text.as_str(), last.as_str()) {
        *last = owned(text.as_str());
        return Some((text, false));
    }
    None
}

} // verus!
