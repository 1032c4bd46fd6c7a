//! Text injection: the typing interface, the runtime fallback to the
//! in-process keyboard, and the command lines of the four external tools
//! (`wtype`, `dotool`, `ydotool`, `xdotool`).
//!
//! Running a tool is left to the caller: every tool operation here yields
//! the [`Invocation`] to spawn, so the exact argv and stdin are stated in
//! the contracts.
use crate::config::{EngineConfig, TypingBackend};
use crate::text::{chars_of, concat2, concat3, owned, push_char, split_on};
use tools::Tool;

pub mod tools;
pub mod uinput;
use vstd::prelude::*;

verus! {

/// The kind of an injection failure.
#[derive(Debug, Clone, Copy, PartialEq, Eq, Structural)]
pub enum ErrorKind {
    /// A program or device is missing.
    NotFound,
    /// The request cannot be served by this backend.
    InvalidInput,
    /// Anything else; the message says what.
    Other,
}

/// An injection failure: a kind and a human-readable message.
#[derive(Debug, Clone)]
pub struct InjectError {
    pub kind: ErrorKind,
    pub message: String,
}

impl InjectError {
    pub fn new(kind: ErrorKind, message: String) -> (r: InjectError)
        ensures
            r.kind == kind,
            r.message@ == message@,
    {
        InjectError { kind, message }
    }

    pub fn kind(&self) -> (r: ErrorKind)
        ensures
            r == self.kind,
    {
        self.kind
    }

    /// The message, as `Display` would print it.
    pub fn to_string(&self) -> (r: String)
        ensures
            r@ == self.message@,
    {
        self.message.clone()
    }
}

/// A text injector.
///
/// `&mut self` because the in-process backend owns a device handle.
///
/// What an operation does is described, for each kind of typer, by the
/// relations [`Typer::types_spec`] and [`Typer::backspaces_spec`]: which
/// typers an operation may leave behind, with which outcome.
pub trait Typer {
    /// Whether typing `text` may turn `self` into `after` with outcome `r`.
    /// A typer that does not describe its operations claims nothing.
    open spec fn types_spec(&self, text: Seq<char>, after: &Self, r: Result<(), InjectError>) -> bool {
        true
    }

    /// Whether deleting `n` characters may turn `self` into `after` with
    /// outcome `r`.
    open spec fn backspaces_spec(&self, n: nat, after: &Self, r: Result<(), InjectError>) -> bool {
        true
    }

    /// Whether `name` may be the backend name this typer reports.
    open spec fn named(&self, name: Seq<char>) -> bool {
        true
    }

    /// Type `text` into whatever window currently has focus.
    fn type_text(&mut self, text: &str) -> (r: Result<(), InjectError>)
        ensures
            old(self).types_spec(text@, final(self), r),
    ;

    /// Delete `n` characters to the left of the caret.
    fn backspace(&mut self, n: usize) -> (r: Result<(), InjectError>)
        ensures
            old(self).backspaces_spec(n as nat, final(self), r),
    ;

    /// Take back `n` characters and type `text` in their place. The
    /// default performs the two steps separately, skipping an empty one,
    /// and stops at the first failure.
    fn revise(&mut self, n: usize, text: &str) -> (r: Result<(), InjectError>)
        default_ensures
            n > 0 ==> exists|mid: &Self, rb: Result<(), InjectError>|
                #[trigger] old(self).backspaces_spec(n as nat, mid, rb) && match rb {
                    Ok(_) => if text@.len() == 0 {
                        r == Ok::<(), InjectError>(()) && &*final(self) == mid
                    } else {
                        mid.types_spec(text@, final(self), r)
                    },
                    Err(e) => r == Err::<(), InjectError>(e) && &*final(self) == mid,
                },
            n == 0 ==> if text@.len() == 0 {
                r == Ok::<(), InjectError>(()) && &*final(self) == &*old(self)
            } else {
                old(self).types_spec(text@, final(self), r)
            },
    {
        if n > 0 {
            let ghost before = &*self;
            let rb = self.backspace(n);
            let ghost mid = &*self;
            let ghost rbg = rb;
            assert(before.backspaces_spec(n as nat, mid, rbg));
            match rb {
                Ok(()) => {
                    if !text.is_empty() {
                        self.type_text(text)
                    } else {
                        Ok(())
                    }
                },
                Err(e) => Err(e),
            }
        } else if !text.is_empty() {
            self.type_text(text)
        } else {
            Ok(())
        }
    }

    /// Backend name, for logs.
    fn name(&self) -> (r: &'static str)
        ensures
            self.named(r@),
    ;
}

/// Builds the fallback typer on first need.
pub trait MakeTyper {
    type Output: Typer;

    /// Whether building may turn `self` into `after` with outcome `r`.
    /// A builder that does not describe itself claims nothing.
    open spec fn makes_spec(&self, after: &Self, r: Result<Self::Output, InjectError>) -> bool {
        true
    }

    fn make(&mut self) -> (r: Result<Self::Output, InjectError>)
        ensures
            old(self).makes_spec(final(self), r),
    ;
}

/// One typing operation, applied to whichever typer is current.
pub enum TypingOp<'a> {
    Type(&'a str),
    Backspace(usize),
}

/// A typing operation, as a value of the contracts.
pub enum OpView {
    Type(Seq<char>),
    Backspace(nat),
}

pub open spec fn op_view(op: TypingOp) -> OpView {
    match op {
        TypingOp::Type(t) => OpView::Type(t@),
        TypingOp::Backspace(n) => OpView::Backspace(n as nat),
    }
}

/// Whether `op` may turn `t` into `after` with outcome `r`.
pub open spec fn applies<T: Typer>(t: T, op: OpView, after: T, r: Result<(), InjectError>) -> bool {
    match op {
        OpView::Type(text) => t.types_spec(text, &after, r),
        OpView::Backspace(n) => t.backspaces_spec(n, &after, r),
    }
}

fn apply<T: Typer>(t: &mut T, op: &TypingOp) -> (r: Result<(), InjectError>)
    ensures
        applies(*old(t), op_view(*op), *final(t), r),
{
    match op {
        TypingOp::Type(text) => t.type_text(text),
        TypingOp::Backspace(n) => t.backspace(*n),
    }
}

/// The configured tool with a permanent safety net.
///
/// The fallback is built lazily, on the first failure of the primary, and
/// from then on every operation goes straight to it: a tool that failed
/// once is never retried.
#[verifier::reject_recursive_types(F)]
pub struct Fallback<P: Typer, F: Typer, M: MakeTyper<Output = F>> {
    pub primary: P,
    /// Built on first failure by `make_fallback`.
    pub fallback: Option<F>,
    /// One-way: after the first failure the primary is never touched.
    pub switched: bool,
    pub make_fallback: M,
}

/// `op` on a switched `s`: on the fallback, which is built first when
/// there is none yet; a failed build is the outcome.
pub open spec fn on_fallback<P: Typer, F: Typer, M: MakeTyper<Output = F>>(
    s: Fallback<P, F, M>,
    op: OpView,
    after: Fallback<P, F, M>,
    r: Result<(), InjectError>,
) -> bool {
    match s.fallback {
        Some(f) => exists|f2: F|
            #[trigger] applies(f, op, f2, r) && after == Fallback { fallback: Some(f2), ..s },
        None => exists|m2: M, mr: Result<F, InjectError>|
            #[trigger] s.make_fallback.makes_spec(&m2, mr) && match mr {
                Err(e) => r == Err::<(), InjectError>(e) && after == Fallback {
                    make_fallback: m2,
                    ..s
                },
                Ok(f) => exists|f2: F|
                    #[trigger] applies(f, op, f2, r) && after == Fallback {
                        fallback: Some(f2),
                        make_fallback: m2,
                        ..s
                    },
            },
    }
}

/// `op` on `before`: on the primary until it fails once; the failing
/// operation and every later one go to the fallback.
pub open spec fn fallback_runs<P: Typer, F: Typer, M: MakeTyper<Output = F>>(
    before: Fallback<P, F, M>,
    op: OpView,
    after: Fallback<P, F, M>,
    r: Result<(), InjectError>,
) -> bool {
    if before.switched {
        on_fallback(before, op, after, r)
    } else {
        exists|p2: P, rp: Result<(), InjectError>|
            #[trigger] applies(before.primary, op, p2, rp) && match rp {
                Ok(_) => r == rp && after == Fallback { primary: p2, ..before },
                Err(_) => on_fallback(Fallback { primary: p2, switched: true, ..before }, op, after, r),
            }
    }
}

impl<P: Typer, F: Typer, M: MakeTyper<Output = F>> Fallback<P, F, M> {
    /// Run `op` on the primary until it fails once; afterwards, and for the
    /// failing operation itself, run it on the fallback (built here the
    /// first time it is needed).
    pub fn run(&mut self, op: &TypingOp) -> (r: Result<(), InjectError>)
        ensures
            fallback_runs(*old(self), op_view(*op), *final(self), r),
            // The switch is one-way.
            old(self).switched ==> final(self).switched,
            // Once switched, the primary is never touched again.
            old(self).switched ==> final(self).primary == old(self).primary,
            // Staying on the primary means the primary succeeded, and the
            // fallback was neither built nor used.
            !final(self).switched ==> r is Ok && final(self).fallback == old(self).fallback
                && final(self).make_fallback == old(self).make_fallback,
            // A fallback that exists is never built a second time.
            old(self).fallback is Some ==> final(self).make_fallback == old(self).make_fallback,
            // After switching, the fallback exists unless building it failed.
            final(self).switched && r is Ok ==> final(self).fallback is Some,
    {
        if !self.switched {
            let ghost before = *self;
            let rp = apply(&mut self.primary, op);
            let ghost p2 = self.primary;
            let ghost rpg = rp;
            assert(applies(before.primary, op_view(*op), p2, rpg));
            if rp.is_ok() {
                return rp;
            }
            self.switched = true;
            let r = self.run_fallback(op);
            return r;
        }
        self.run_fallback(op)
    }

    /// `op` on the fallback of a switched typer (see [`on_fallback`]).
    fn run_fallback(&mut self, op: &TypingOp) -> (r: Result<(), InjectError>)
        requires
            old(self).switched,
        ensures
            on_fallback(*old(self), op_view(*op), *final(self), r),
            final(self).switched,
            final(self).primary == old(self).primary,
            old(self).fallback is Some ==> final(self).make_fallback == old(self).make_fallback,
            r is Ok ==> final(self).fallback is Some,
    {
        let ghost s = *self;
        if self.fallback.is_none() {
            match self.make_fallback.make() {
                Ok(f) => {
                    let ghost m2 = self.make_fallback;
                    let ghost fg = f;
                    assert(s.make_fallback.makes_spec(&m2, Ok(fg)));
                    self.fallback = Some(f);
                },
                Err(e) => {
                    let ghost m2 = self.make_fallback;
                    let ghost eg = e;
                    assert(s.make_fallback.makes_spec(&m2, Err(eg)));
                    return Err(e);
                },
            }
        }
        let ghost mid = *self;
        match &mut self.fallback {
            Some(f) => {
                let ghost f0 = *f;
                let r = apply(f, op);
                proof {
                    assert(applies(f0, op_view(*op), *f, r));
                }
                r
            },
            None => Ok(()),
        }
    }
}

impl<P: Typer, F: Typer, M: MakeTyper<Output = F>> Typer for Fallback<P, F, M> {
    open spec fn types_spec(&self, text: Seq<char>, after: &Self, r: Result<(), InjectError>) -> bool {
        fallback_runs(*self, OpView::Type(text), *after, r)
    }

    open spec fn backspaces_spec(&self, n: nat, after: &Self, r: Result<(), InjectError>) -> bool {
        fallback_runs(*self, OpView::Backspace(n), *after, r)
    }

    /// The fallback's name once switched to a built fallback, else the
    /// primary's.
    open spec fn named(&self, name: Seq<char>) -> bool {
        if self.switched {
            match self.fallback {
                Some(f) => f.named(name),
                None => self.primary.named(name),
            }
        } else {
            self.primary.named(name)
        }
    }

    fn type_text(&mut self, text: &str) -> (r: Result<(), InjectError>) {
        self.run(&TypingOp::Type(text))
    }

    fn backspace(&mut self, n: usize) -> (r: Result<(), InjectError>) {
        self.run(&TypingOp::Backspace(n))
    }

    fn name(&self) -> (r: &'static str) {
        if self.switched {
            match &self.fallback {
                Some(f) => f.name(),
                None => self.primary.name(),
            }
        } else {
            self.primary.name()
        }
    }
}

/// How the daemon types, decided once at startup.
#[derive(Debug)]
pub enum TyperPlan {
    /// The in-process virtual keyboard, as configured.
    Uinput,
    /// The configured tool, with the in-process keyboard as a lazy,
    /// permanent fallback after its first failure.
    Tool(Tool),
    /// The configured tool is unusable: type with the in-process keyboard
    /// instead (this error is logged).
    UinputInstead(InjectError),
}

/// Choose how to type for `engine.typing_backend`, given the outcome of
/// building its external tool: the in-process keyboard when configured,
/// else the tool guarded by a fallback, else the in-process keyboard with
/// the tool's error kept for the log.
pub fn create(engine: &EngineConfig, tool: Result<Tool, InjectError>) -> (r: TyperPlan)
    ensures
        engine.typing_backend == TypingBackend::Uinput ==> r is Uinput,
        engine.typing_backend != TypingBackend::Uinput ==> match tool {
            Ok(t) => r is Tool && r->Tool_0 == t,
            Err(e) => r is UinputInstead && r->UinputInstead_0 == e,
        },
{
    if engine.typing_backend == TypingBackend::Uinput {
        return TyperPlan::Uinput;
    }
    match tool {
        Ok(t) => TyperPlan::Tool(t),
        Err(e) => TyperPlan::UinputInstead(e),
    }
}

/// Log line for a configured tool that cannot be used.
pub fn unavailable_message(backend: TypingBackend, error: &InjectError) -> (r: String)
    ensures
        r@ == "typing backend `"@ + backend.name() + "` unavailable: "@ + error.message@,
{
    let mut m = concat3("typing backend `", backend.as_str(), "` unavailable: ");
    m.append(error.message.as_str());
    m
}

/// The error when neither the configured tool nor the in-process keyboard
/// can be used.
pub fn unusable_error(backend: TypingBackend, tool_error: &InjectError, uinput_error: &str) -> (r:
    InjectError)
    ensures
        r.kind == ErrorKind::Other,
        r.message@ == "`"@ + backend.name() + "`: "@ + tool_error.message@
            + "; the uinput fallback is unusable too: "@ + uinput_error@,
{
    let mut m = concat3("`", backend.as_str(), "`: ");
    m.append(tool_error.message.as_str());
    m.append("; the uinput fallback is unusable too: ");
    m.append(uinput_error);
    InjectError::new(ErrorKind::Other, m)
}

/// Log line when the primary tool fails and typing moves to uinput for good.
pub fn switch_message(name: &str, error: &InjectError) -> (r: String)
    ensures
        r@ == "typing backend `"@ + name@ + "` failed: "@ + error.message@
            + "; permanently switching to uinput"@,
{
    let mut m = concat3("typing backend `", name, "` failed: ");
    m.append(error.message.as_str());
    m.append("; permanently switching to uinput");
    m
}

// ------------------------------------------------------------ invocations

/// One process to spawn: the program, its arguments, and the text to feed
/// on stdin (`None`: stdin is closed and the arguments carry everything).
#[derive(Debug, Clone)]
pub struct Invocation {
    pub program: String,
    pub args: Vec<String>,
    pub stdin: Option<String>,
}

pub open spec fn strs(v: Seq<&str>) -> Seq<Seq<char>> {
    v.map_values(|s: &str| s@)
}

/// `block` repeated `n` times.
pub open spec fn repeat_args(block: Seq<Seq<char>>, n: nat) -> Seq<Seq<char>>
    decreases n,
{
    if n == 0 {
        Seq::empty()
    } else {
        repeat_args(block, (n - 1) as nat) + block
    }
}

/// `block` repeated `n` times, as characters.
pub open spec fn repeat_text(block: Seq<char>, n: nat) -> Seq<char>
    decreases n,
{
    if n == 0 {
        Seq::empty()
    } else {
        repeat_text(block, (n - 1) as nat) + block
    }
}

pub(crate) fn push_all(v: &mut Vec<String>, items: &[&str])
    ensures
        final(v).deep_view() == old(v).deep_view() + strs(items@),
{
    let mut i: usize = 0;
    let ghost start = v.deep_view();
    let ghost n0 = v.len();
    while i < items.len()
        invariant
            i <= items.len(),
            n0 == start.len(),
            v.len() == n0 + i,
            forall|k: int| 0 <= k < n0 ==> #[trigger] v@[k]@ == start[k],
            forall|k: int| 0 <= k < i ==> #[trigger] v@[n0 + k]@ == items@[k]@,
        decreases items.len() - i,
    {
        v.push(owned(items[i]));
        i = i + 1;
    }
    assert(v.deep_view() =~= start + strs(items@)) by {
        assert forall|k: int| 0 <= k < v.len() implies v.deep_view()[k] == (start + strs(items@))[k] by {
            if k >= n0 {
                assert(v@[n0 + (k - n0)]@ == items@[k - n0]@);
            }
        }
    }
}

fn repeated(items: &[&str], n: usize) -> (r: Vec<String>)
    ensures
        r.deep_view() == repeat_args(strs(items@), n as nat),
{
    let mut r: Vec<String> = Vec::new();
    let mut i: usize = 0;
    assert(r.deep_view() =~= repeat_args(strs(items@), 0));
    while i < n
        invariant
            i <= n,
            r.deep_view() == repeat_args(strs(items@), i as nat),
        decreases n - i,
    {
        push_all(&mut r, items);
        i = i + 1;
    }
    r
}

/// `-` is wtype's "read the text from stdin" placeholder.
pub fn wtype_argv() -> (r: [&'static str; 1])
    ensures
        strs(r@) == seq!["-"@],
{
    let r = ["-"];
    assert(strs(r@) =~= seq!["-"@]);
    r
}

pub open spec fn wtype_backspace_block() -> Seq<Seq<char>> {
    seq!["-P"@, "BackSpace"@, "-p"@, "BackSpace"@]
}

/// One `-P`/`-p` pair per character: wtype takes keysyms by name.
pub fn wtype_backspace_argv(n: usize) -> (r: Vec<String>)
    ensures
        r.deep_view() == repeat_args(wtype_backspace_block(), n as nat),
{
    let block = ["-P", "BackSpace", "-p", "BackSpace"];
    assert(strs(block@) =~= wtype_backspace_block());
    repeated(&block, n)
}

/// The dotool action line(s) for one line of text: a `key enter` before
/// every line but the first, and a `type` action for a non-empty line
/// (one trailing `\r` is dropped).
pub open spec fn dotool_piece(index: int, line: Seq<char>) -> Seq<char> {
    let body = if line.len() > 0 && line.last() == '\r' {
        line.drop_last()
    } else {
        line
    };
    (if index > 0 {
        "key enter\n"@
    } else {
        Seq::empty()
    }) + (if body.len() > 0 {
        "type "@ + body + seq!['\n']
    } else {
        Seq::empty()
    })
}

/// `text` split at every `\n` (`str::split('\n')`).
pub open spec fn split_lines(text: Seq<char>) -> Seq<Seq<char>> {
    split_on(text, '\n')
}

/// The dotool script for the lines `lines`.
pub open spec fn dotool_lines(lines: Seq<Seq<char>>) -> Seq<char>
    decreases lines.len(),
{
    if lines.len() == 0 {
        Seq::empty()
    } else {
        dotool_lines(lines.drop_last()) + dotool_piece(lines.len() - 1, lines.last())
    }
}

/// dotool actions that type `text`.
pub open spec fn dotool_script(text: Seq<char>) -> Seq<char> {
    dotool_lines(split_lines(text))
}

fn push_piece(script: &mut String, index: usize, line: &Vec<char>)
    ensures
        final(script)@ == old(script)@ + dotool_piece(index as int, line@),
{
    let mut end = line.len();
    if end > 0 && line[end - 1] == '\r' {
        end = end - 1;
    }
    let ghost body = if line@.len() > 0 && line@.last() == '\r' {
        line@.drop_last()
    } else {
        line@
    };
    assert(line@.subrange(0, end as int) =~= body);
    if index > 0 {
        script.append("key enter\n");
    }
    if end > 0 {
        script.append("type ");
        let mut k: usize = 0;
        let ghost before = script@;
        while k < end
            invariant
                k <= end <= line.len(),
                script@ == before + line@.subrange(0, k as int),
            decreases end - k,
        {
            push_char(script, line[k]);
            assert(line@.subrange(0, k + 1) =~= line@.subrange(0, k as int).push(line@[k as int]));
            k = k + 1;
        }
        push_char(script, '\n');
    }
    assert(script@ =~= old(script)@ + dotool_piece(index as int, line@));
}

/// dotool actions that type `text`: one `type` action per source line,
/// with an explicit `key enter` for the newlines that `type` cannot carry.
pub fn dotool_type_script(text: &str) -> (r: String)
    ensures
        r@ == dotool_script(text@),
{
    let v = chars_of(text);
    let mut script = String::new();
    let mut line: Vec<char> = Vec::new();
    let mut index: usize = 0;
    let mut i: usize = 0;
    proof {
        assert(v@.take(0) =~= Seq::<char>::empty());
    }
    while i < v.len()
        invariant
            i <= v.len(),
            index <= i,
            v@ == text@,
            split_lines(v@.take(i as int)).len() == index + 1,
            split_lines(v@.take(i as int)).last() == line@,
            script@ == dotool_lines(split_lines(v@.take(i as int)).drop_last()),
        decreases v.len() - i,
    {
        let ghost prev = split_lines(v@.take(i as int));
        assert(v@.take(i + 1).drop_last() =~= v@.take(i as int));
        if v[i] == '\n' {
            assert(prev.drop_last().push(prev.last()) =~= prev);
            push_piece(&mut script, index, &line);
            line = Vec::new();
            assert(split_lines(v@.take(i + 1)).drop_last() =~= prev);
            index = index + 1;
        } else {
            line.push(v[i]);
            assert(split_lines(v@.take(i + 1)).drop_last() =~= prev.drop_last());
        }
        i = i + 1;
    }
    let ghost all = split_lines(v@.take(i as int));
    assert(all.drop_last().push(all.last()) =~= all);
    push_piece(&mut script, index, &line);
    assert(v@.take(v.len() as int) =~= v@);
    script
}

pub open spec fn dotool_backspace_line() -> Seq<char> {
    "key backspace\n"@
}

/// One `key backspace` action per character.
pub fn dotool_backspace_script(n: usize) -> (r: String)
    ensures
        r@ == repeat_text(dotool_backspace_line(), n as nat),
{
    let mut r = String::new();
    let mut i: usize = 0;
    while i < n
        invariant
            i <= n,
            r@ == repeat_text(dotool_backspace_line(), i as nat),
        decreases n - i,
    {
        r.append("key backspace\n");
        i = i + 1;
    }
    r
}

/// Both halves of a revision in one stdin script: the backspaces, then
/// the replacement's `type` lines.
pub fn dotool_revise_script(n: usize, text: &str) -> (r: String)
    ensures
        r@ == repeat_text(dotool_backspace_line(), n as nat) + dotool_script(text@),
{
    let mut r = dotool_backspace_script(n);
    let t = dotool_type_script(text);
    r.append(t.as_str());
    r
}

/// `type` with `-f -`: read the text from stdin.
pub fn ydotool_type_argv() -> (r: [&'static str; 3])
    ensures
        strs(r@) == seq!["type"@, "-f"@, "-"@],
{
    let r = ["type", "-f", "-"];
    assert(strs(r@) =~= seq!["type"@, "-f"@, "-"@]);
    r
}

/// `ydotool key` takes `<keycode>:<pressed>` pairs; 14 is `KEY_BACKSPACE`.
pub fn ydotool_backspace_argv(n: usize) -> (r: Vec<String>)
    ensures
        r.deep_view() == seq!["key"@] + repeat_args(seq!["14:1"@, "14:0"@], n as nat),
{
    let mut r: Vec<String> = Vec::new();
    r.push(owned("key"));
    let block = ["14:1", "14:0"];
    assert(strs(block@) =~= seq!["14:1"@, "14:0"@]);
    let mut rest = repeated(&block, n);
    let ghost (a, b) = (r.deep_view(), rest.deep_view());
    r.append(&mut rest);
    assert(r.deep_view() =~= a + b);
    r
}

pub open spec fn xdotool_type_args(text: Seq<char>) -> Seq<Seq<char>> {
    seq!["type"@, "--clearmodifiers"@, "--"@, text]
}

pub open spec fn xdotool_backspace_args(n: nat) -> Seq<Seq<char>> {
    seq!["key"@, "--clearmodifiers"@] + repeat_args(seq!["BackSpace"@], n)
}

/// `--` ends option parsing, so an utterance that starts with `-` is typed
/// as text; the text is one argument.
pub fn xdotool_type_argv(text: &str) -> (r: Vec<String>)
    ensures
        r.deep_view() == xdotool_type_args(text@),
{
    let mut r: Vec<String> = Vec::new();
    r.push(owned("type"));
    r.push(owned("--clearmodifiers"));
    r.push(owned("--"));
    r.push(owned(text));
    assert(r.deep_view() =~= xdotool_type_args(text@));
    r
}

/// `xdotool key` consumes the rest of its arguments, so `n` keysyms in one
/// invocation is `n` backspaces.
pub fn xdotool_backspace_argv(n: usize) -> (r: Vec<String>)
    ensures
        r.deep_view() == xdotool_backspace_args(n as nat),
{
    let mut r: Vec<String> = Vec::new();
    r.push(owned("key"));
    r.push(owned("--clearmodifiers"));
    let block = ["BackSpace"];
    assert(strs(block@) =~= seq!["BackSpace"@]);
    let mut rest = repeated(&block, n);
    let ghost (a, b) = (r.deep_view(), rest.deep_view());
    r.append(&mut rest);
    assert(r.deep_view() =~= a + b);
    r
}

pub open spec fn xdotool_revise_args(n: nat, text: Seq<char>) -> Seq<Seq<char>> {
    (if n > 0 {
        xdotool_backspace_args(n)
    } else {
        Seq::empty()
    }) + (if text.len() > 0 {
        xdotool_type_args(text)
    } else {
        Seq::empty()
    })
}

/// A revision as one argv: `key` presses BackSpace `n` times, then `type`
/// delivers the replacement.
pub fn xdotool_revise_argv(n: usize, text: &str) -> (r: Vec<String>)
    ensures
        r.deep_view() == xdotool_revise_args(n as nat, text@),
{
    let mut r: Vec<String> = Vec::new();
    if n > 0 {
        r = xdotool_backspace_argv(n);
    }
    if !text.is_empty() {
        let mut t = xdotool_type_argv(text);
        let ghost (a, b) = (r.deep_view(), t.deep_view());
        r.append(&mut t);
        assert(r.deep_view() =~= a + b);
    }
    assert(r.deep_view() =~= xdotool_revise_args(n as nat, text@));
    r
}

} // verus!
