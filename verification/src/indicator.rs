//! What the indicator pill shows for each session state, where it sits
//! on screen, its stylesheet, and when the state watcher refreshes it.
//! Drawing, the compositor and the file watcher stay with the caller.
use crate::config::{Anchor, Horizontal, IndicatorConfig, Vertical};
use crate::paths::{paths_equal, same_path};
use crate::session::SessionState;
use crate::text::{chars_of, has_prefix, string_of};
use vstd::prelude::*;

verus! {

/// Interval of the microphone pulse while listening, in milliseconds.
pub const PULSE_MS: u64 = 700;

/// How the pill looks in one session state.
#[derive(Debug, Clone, Copy)]
pub struct PillView {
    /// Mapped and shown; hidden pills are unmapped and click-through.
    pub visible: bool,
    /// The label text, when shown.
    pub label: Option<&'static str>,
    /// The tooltip, when shown.
    pub tooltip: Option<&'static str>,
    /// Name of the icon shown: the microphone or the spinner.
    pub icon: Option<&'static str>,
    /// The spinner turns while the last audio is transcribed.
    pub spinning: bool,
    /// The microphone pulses while listening.
    pub pulsing: bool,
}

/// The pill for `state`: hidden when off; a pulsing microphone while
/// listening; a spinner while the final transcription runs.
pub open spec fn pill_spec(state: SessionState) -> (bool, Option<Seq<char>>, Option<Seq<char>>, Option<Seq<char>>, bool, bool) {
    match state {
        SessionState::Off => (false, None, None, None, false, false),
        SessionState::Listening => (
            true,
            Some("Listening..."@),
            Some("Microphone is on. Click to stop dictation."@),
            Some("listening"@),
            false,
            true,
        ),
        SessionState::Dictating => (
            true,
            Some("Dictating..."@),
            Some("Microphone is off. Finishing the final transcription."@),
            Some("dictating"@),
            true,
            false,
        ),
    }
}

pub open spec fn opt_str(o: Option<&'static str>) -> Option<Seq<char>> {
    match o {
        Some(s) => Some(s@),
        None => None,
    }
}

pub open spec fn pill_view_of(v: PillView) -> (bool, Option<Seq<char>>, Option<Seq<char>>, Option<Seq<char>>, bool, bool) {
    (v.visible, opt_str(v.label), opt_str(v.tooltip), opt_str(v.icon), v.spinning, v.pulsing)
}

pub fn pill_view(state: SessionState) -> (r: PillView)
    ensures
        pill_view_of(r) == pill_spec(state),
{
    match state {
        SessionState::Off => PillView {
            visible: false,
            label: None,
            tooltip: None,
            icon: None,
            spinning: false,
            pulsing: false,
        },
        SessionState::Listening => PillView {
            visible: true,
            label: Some("Listening..."),
            tooltip: Some("Microphone is on. Click to stop dictation."),
            icon: Some("listening"),
            spinning: false,
            pulsing: true,
        },
        SessionState::Dictating => PillView {
            visible: true,
            label: Some("Dictating..."),
            tooltip: Some("Microphone is off. Finishing the final transcription."),
            icon: Some("dictating"),
            spinning: true,
            pulsing: false,
        },
    }
}

/// Code of the view last applied: 0 hidden, 1 listening, 2 dictating.
pub open spec fn view_code_of(state: SessionState) -> u8 {
    match state {
        SessionState::Off => 0,
        SessionState::Listening => 1,
        SessionState::Dictating => 2,
    }
}

/// The view code of `state`; a refresh that finds the code unchanged
/// leaves the window alone. Start from `u8::MAX` so the first refresh
/// always applies.
pub fn view_code(state: SessionState) -> (r: u8)
    ensures
        r == view_code_of(state),
{
    match state {
        SessionState::Off => 0,
        SessionState::Listening => 1,
        SessionState::Dictating => 2,
    }
}

/// Layer-shell anchoring of the pill: the horizontal and vertical edge
/// and their margins.
#[derive(Debug, Clone, Copy, PartialEq, Eq, Structural)]
pub struct Placement {
    /// Anchored to the right edge (else to the left one).
    pub right: bool,
    pub horizontal_margin: i32,
    /// Anchored to the top edge (else to the bottom one).
    pub top: bool,
    pub vertical_margin: i32,
}

/// Where the pill sits for `anchor` on an output `output_width` pixels
/// wide: corner anchors use the configured margin; centered pills are
/// anchored left and pushed to the middle by their margin (never
/// negative).
pub open spec fn placement_spec(anchor: Anchor, margin: i32, width: i32, output_width: i32) -> Placement {
    let center = (output_width - width) / 2;
    Placement {
        right: anchor.horizontal_of() == Horizontal::Right,
        horizontal_margin: match anchor.horizontal_of() {
            Horizontal::Center => if output_width - width >= 0 {
                center as i32
            } else {
                0
            },
            _ => margin,
        },
        top: anchor.vertical_of() == Vertical::Top,
        vertical_margin: margin,
    }
}

/// The pill follows the edges its anchor names: it sits at the top edge
/// exactly for the three top anchors and at the right edge exactly for
/// the two right anchors; the vertical margin is always the configured
/// one, and so is the horizontal one for the corner anchors.
pub proof fn law_placement_follows_anchor(anchor: Anchor, margin: i32, width: i32, output_width: i32)
    ensures
        placement_spec(anchor, margin, width, output_width).top <==> (anchor == Anchor::TopLeft
            || anchor == Anchor::TopCenter || anchor == Anchor::TopRight),
        placement_spec(anchor, margin, width, output_width).right <==> (anchor == Anchor::TopRight
            || anchor == Anchor::BottomRight),
        placement_spec(anchor, margin, width, output_width).vertical_margin == margin,
        !(anchor == Anchor::TopCenter || anchor == Anchor::BottomCenter) ==> placement_spec(
            anchor,
            margin,
            width,
            output_width,
        ).horizontal_margin == margin,
        (anchor == Anchor::TopCenter || anchor == Anchor::BottomCenter) && width <= output_width
            ==> placement_spec(anchor, margin, width, output_width).horizontal_margin == (
        output_width - width) / 2,
{
}

pub fn placement(ind: &IndicatorConfig, output_width: i32) -> (r: Placement)
    requires
        i32::MIN <= output_width - ind.width <= i32::MAX,
    ensures
        r == placement_spec(ind.anchor, ind.margin, ind.width, output_width),
{
    let h = ind.anchor.horizontal();
    let v = ind.anchor.vertical();
    let hm = match h {
        Horizontal::Center => {
            let d = output_width - ind.width;
            if d >= 0 {
                d / 2
            } else {
                0
            }
        },
        _ => ind.margin,
    };
    Placement {
        right: match h {
            Horizontal::Right => true,
            _ => false,
        },
        horizontal_margin: hm,
        top: match v {
            Vertical::Top => true,
            Vertical::Bottom => false,
        },
        vertical_margin: ind.margin,
    }
}

/// `s` with every non-overlapping occurrence of `from` (not empty),
/// scanned from the left, replaced by `to` (`str::replace`).
pub open spec fn replaced(s: Seq<char>, from: Seq<char>, to: Seq<char>) -> Seq<char>
    decreases s.len(),
{
    if s.len() == 0 || from.len() == 0 {
        s
    } else if has_prefix(s, from) {
        to + replaced(s.skip(from.len() as int), from, to)
    } else {
        seq![s[0]] + replaced(s.drop_first(), from, to)
    }
}

fn prefix_at(v: &Vec<char>, p: &Vec<char>, i: usize) -> (r: bool)
    requires
        i <= v.len(),
    ensures
        r == has_prefix(v@.skip(i as int), p@),
{
    if p.len() > v.len() - i {
        return false;
    }
    let mut k: usize = 0;
    while k < p.len()
        invariant
            k <= p.len(),
            i + p.len() <= v.len(),
            forall|j: int| 0 <= j < k ==> v@[i + j] == p@[j],
        decreases p.len() - k,
    {
        if v[i + k] != p[k] {
            assert(v@.skip(i as int).subrange(0, p.len() as int)[k as int] != p@[k as int]);
            return false;
        }
        k = k + 1;
    }
    assert(v@.skip(i as int).subrange(0, p.len() as int) =~= p@);
    true
}

/// `s.replace(from, to)` for a non-empty `from`.
pub fn replace_all(s: &str, from: &str, to: &str) -> (r: String)
    requires
        from@.len() > 0,
    ensures
        r@ == replaced(s@, from@, to@),
{
    let v = chars_of(s);
    let p = chars_of(from);
    let t = chars_of(to);
    let mut out: Vec<char> = Vec::new();
    let mut i: usize = 0;
    assert(v@.skip(0) =~= v@);
    while i < v.len()
        invariant
            i <= v.len(),
            v@ == s@,
            p@ == from@,
            t@ == to@,
            p.len() > 0,
            out@ + replaced(v@.skip(i as int), p@, t@) == replaced(s@, from@, to@),
        decreases v.len() - i,
    {
        let ghost rest = v@.skip(i as int);
        if prefix_at(&v, &p, i) {
            let mut k: usize = 0;
            let ghost o0 = out@;
            while k < t.len()
                invariant
                    k <= t.len(),
                    out@ == o0 + t@.take(k as int),
                decreases t.len() - k,
            {
                out.push(t[k]);
                assert(t@.take(k + 1) =~= t@.take(k as int).push(t@[k as int]));
                k = k + 1;
            }
            assert(t@.take(t.len() as int) =~= t@);
            assert(rest.skip(p.len() as int) =~= v@.skip(i + p.len()));
            assert(o0 + (t@ + replaced(v@.skip(i + p.len()), p@, t@)) =~= out@ + replaced(v@.skip(i + p.len()), p@, t@));
            i = i + p.len();
        } else {
            let ghost o0 = out@;
            out.push(v[i]);
            assert(rest.drop_first() =~= v@.skip(i + 1));
            assert(o0 + (seq![v@[i as int]] + replaced(v@.skip(i + 1), p@, t@)) =~= out@ + replaced(v@.skip(i + 1), p@, t@));
            i = i + 1;
        }
    }
    assert(out@ + Seq::<char>::empty() =~= out@);
    string_of(&out)
}

/// The built-in stylesheet with the configured colors and font filled
/// in for `@BG@`, `@ACCENT@`, `@TEXT@` and `@FONT@`.
pub open spec fn stylesheet_spec(template: Seq<char>, ind: IndicatorConfig) -> Seq<char> {
    replaced(
        replaced(
            replaced(replaced(template, "@BG@"@, ind.background@), "@ACCENT@"@, ind.accent@),
            "@TEXT@"@,
            ind.text@,
        ),
        "@FONT@"@,
        ind.font@,
    )
}

pub fn stylesheet(template: &str, ind: &IndicatorConfig) -> (r: String)
    ensures
        r@ == stylesheet_spec(template@, *ind),
{
    proof {
        reveal_strlit("@BG@");
        reveal_strlit("@ACCENT@");
        reveal_strlit("@TEXT@");
        reveal_strlit("@FONT@");
    }
    let a = replace_all(template, "@BG@", ind.background.as_str());
    let b = replace_all(a.as_str(), "@ACCENT@", ind.accent.as_str());
    let c = replace_all(b.as_str(), "@TEXT@", ind.text.as_str());
    replace_all(c.as_str(), "@FONT@", ind.font.as_str())
}

/// Kinds of file-system events the watcher reports.
#[derive(Debug, Clone, Copy, PartialEq, Eq, Structural)]
pub enum ChangeKind {
    Any,
    Access,
    Create,
    Modify,
    Remove,
    Other,
}

/// An event that touches the session marker or the daemon pidfile and
/// creates, removes or modifies something (or is unclassified).
pub open spec fn relevant_spec(kind: ChangeKind, paths: Seq<Seq<char>>, marker: Seq<char>, pidfile: Seq<char>) -> bool {
    (kind == ChangeKind::Create || kind == ChangeKind::Remove || kind == ChangeKind::Modify || kind
        == ChangeKind::Other) && exists|i: int|
        0 <= i < paths.len() && (same_path(#[trigger] paths[i], marker) || same_path(paths[i], pidfile))
}

pub fn relevant_change(kind: ChangeKind, paths: &Vec<String>, marker: &str, pidfile: &str) -> (r: bool)
    ensures
        r == relevant_spec(kind, paths.deep_view(), marker@, pidfile@),
{
    match kind {
        ChangeKind::Create | ChangeKind::Remove | ChangeKind::Modify | ChangeKind::Other => {},
        _ => return false,
    }
    let ghost ps = paths.deep_view();
    let mut i: usize = 0;
    while i < paths.len()
        invariant
            i <= paths.len(),
            ps == paths.deep_view(),
            ps.len() == paths.len(),
            kind == ChangeKind::Create || kind == ChangeKind::Remove || kind == ChangeKind::Modify
                || kind == ChangeKind::Other,
            forall|k: int| 0 <= k < i ==> !(same_path(#[trigger] ps[k], marker@) || same_path(ps[k], pidfile@)),
        decreases paths.len() - i,
    {
        assert(ps[i as int] == paths@[i as int]@);
        if paths_equal(paths[i].as_str(), marker) || paths_equal(paths[i].as_str(), pidfile) {
            assert(same_path(ps[i as int], marker@) || same_path(ps[i as int], pidfile@));
            return true;
        }
        i = i + 1;
    }
    false
}

/// The watcher's 100 ms tick: the count goes up, and the view refreshes
/// on a reported change or, as a backstop for lost events, every third
/// tick.
pub fn tick(ticks: u32, changed: bool) -> (r: (u32, bool))
    requires
        ticks < u32::MAX,
    ensures
        r.0 == ticks + 1,
        r.1 == (changed || (ticks + 1) % 3 == 0),
{
    let next = ticks + 1;
    (next, changed || next % 3 == 0)
}

} // verus!
