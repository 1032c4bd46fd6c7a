//! The four external typing backends and the decisions around them:
//! locating the program, checking the session it needs, and the
//! processes each operation spawns.
use super::{
    dotool_backspace_line, dotool_backspace_script, dotool_revise_script, dotool_script,
    dotool_type_script, repeat_args, repeat_text, strs, wtype_argv, wtype_backspace_argv,
    wtype_backspace_block, xdotool_backspace_args, xdotool_backspace_argv, xdotool_revise_args,
    xdotool_revise_argv, xdotool_type_args, xdotool_type_argv, ydotool_backspace_argv,
    ydotool_type_argv, ErrorKind, InjectError, Invocation,
};
use crate::config::TypingBackend;
use crate::text::{
    chars_of, concat3, has_char, join, join_path, lemma_split_on_nonempty, owned, push_char,
    split_on, string_of, trim, trimmed,
};
use vstd::prelude::*;

verus! {

pub open spec fn inv_view(i: Invocation) -> (Seq<char>, Seq<Seq<char>>, Option<Seq<char>>) {
    (
        i.program@,
        i.args.deep_view(),
        match i.stdin {
            Some(s) => Some(s@),
            None => None,
        },
    )
}

pub open spec fn opt_inv_view(o: Option<Invocation>) -> Option<
    (Seq<char>, Seq<Seq<char>>, Option<Seq<char>>),
> {
    match o {
        Some(i) => Some(inv_view(i)),
        None => None,
    }
}

pub open spec fn invs_view(v: Seq<Invocation>) -> Seq<(Seq<char>, Seq<Seq<char>>, Option<Seq<char>>)> {
    v.map_values(|i: Invocation| inv_view(i))
}

/// The error for a program that is nowhere to be found.
pub open spec fn not_installed_message(program: Seq<char>) -> Seq<char> {
    "`"@ + program + "` is not installed (not in PATH)"@
}

pub fn not_installed(program: &str) -> (r: InjectError)
    ensures
        r.kind == ErrorKind::NotFound,
        r.message@ == not_installed_message(program@),
{
    InjectError::new(ErrorKind::NotFound, concat3("`", program, "` is not installed (not in PATH)"))
}

/// The error for a tool that exited unsuccessfully: which tool, its exit
/// status, and what it wrote to stderr (trimmed), or `no stderr`.
pub open spec fn exit_failure_message(name: Seq<char>, status: Seq<char>, stderr: Seq<char>) -> Seq<
    char,
> {
    name + " exited with "@ + status + ": "@ + if trim(stderr).len() == 0 {
        "no stderr"@
    } else {
        trim(stderr)
    }
}

/// The error for `name` exiting with `status` after writing `stderr`.
pub fn exit_failure(name: &str, status: &str, stderr: &str) -> (r: InjectError)
    ensures
        r.kind == ErrorKind::Other,
        r.message@ == exit_failure_message(name@, status@, stderr@),
{
    let detail = trimmed(stderr);
    let mut m = concat3(name, " exited with ", status);
    m.append(": ");
    if detail.as_str().is_empty() {
        m.append("no stderr");
    } else {
        m.append(detail.as_str());
    }
    InjectError::new(ErrorKind::Other, m)
}

/// Where a program is looked for, the way a shell does it: a name with a
/// `/` is taken as given, a bare name is tried in every `$PATH` entry.
pub open spec fn search_paths(program: Seq<char>, path_var: Seq<char>) -> Seq<Seq<char>> {
    if program.contains('/') {
        seq![program]
    } else {
        split_on(path_var, ':').map_values(|dir: Seq<char>| join_path(dir, program))
    }
}

/// The candidate files for `program` under the search path `path_var`.
pub fn candidates(program: &str, path_var: &str) -> (r: Vec<String>)
    ensures
        r.deep_view() == search_paths(program@, path_var@),
{
    let p = chars_of(program);
    if has_char(&p, '/') {
        let mut r: Vec<String> = Vec::new();
        r.push(owned(program));
        assert(r.deep_view() =~= seq![program@]);
        return r;
    }
    let dirs = crate::text::split(path_var, ':');
    let mut r: Vec<String> = Vec::new();
    let mut k: usize = 0;
    while k < dirs.len()
        invariant
            k <= dirs.len(),
            r.len() == k,
            forall|j: int| 0 <= j < k ==> #[trigger] r@[j]@ == join_path(dirs@[j]@, program@),
        decreases dirs.len() - k,
    {
        r.push(join(dirs[k].as_str(), program));
        k = k + 1;
    }
    assert(r.deep_view() =~= search_paths(program@, path_var@));
    r
}

/// Index of the first `true` in `present` (within `n`), if any.
pub open spec fn first_present(present: Seq<bool>, n: int) -> Option<int> {
    if exists|i: int| 0 <= i < n && 0 <= i < present.len() && #[trigger] present[i] {
        let i = choose|i: int|
            0 <= i < n && 0 <= i < present.len() && #[trigger] present[i] && forall|j: int|
                0 <= j < i ==> !present[j];
        Some(i)
    } else {
        None
    }
}

/// Locate `program`: the first of `candidates` that is a file
/// (`present[i]` says whether `candidates[i]` is one).
pub fn resolve(program: &str, candidates: &Vec<String>, present: &Vec<bool>) -> (r: Result<
    String,
    InjectError,
>)
    ensures
        match r {
            Ok(path) => exists|i: int|
                0 <= i < candidates.len() && i < present.len() && present@[i] && (forall|j: int|
                    0 <= j < i ==> !present@[j]) && path@ == #[trigger] candidates@[i]@,
            Err(e) => e.kind == ErrorKind::NotFound && e.message@ == not_installed_message(
                program@,
            ) && forall|i: int|
                0 <= i < candidates.len() && i < present.len() ==> !#[trigger] present@[i],
        },
{
    let mut i: usize = 0;
    while i < candidates.len() && i < present.len()
        invariant
            i <= candidates.len(),
            forall|j: int| 0 <= j < i && j < present.len() ==> !#[trigger] present@[j],
        decreases candidates.len() - i,
    {
        if present[i] {
            let path = candidates[i].clone();
            assert(path@ == candidates@[i as int]@);
            return Ok(path);
        }
        i = i + 1;
    }
    Err(not_installed(program))
}

/// The program an external backend runs (`None` for the in-process one).
pub open spec fn program_name(backend: TypingBackend) -> Option<Seq<char>> {
    match backend {
        TypingBackend::Uinput => None,
        _ => Some(backend.name()),
    }
}

/// The program to look up for an external backend.
pub fn tool_program(backend: TypingBackend) -> (r: Option<&'static str>)
    ensures
        match r {
            Some(p) => program_name(backend) == Some(p@),
            None => program_name(backend) is None,
        },
{
    match backend {
        TypingBackend::Uinput => None,
        _ => Some(backend.as_str()),
    }
}

/// What the session offers the tools: a Wayland socket, an X display,
/// and a writable `/dev/uinput`.
#[derive(Debug, Clone, Copy)]
pub struct SessionEnv {
    pub wayland_display: bool,
    pub x_display: bool,
    pub uinput_device: bool,
}

/// `wtype`: the Wayland virtual-keyboard protocol; text on stdin.
#[derive(Debug, Clone)]
pub struct Wtype {
    pub program: String,
}

/// `dotool`: newline-delimited actions on stdin.
#[derive(Debug, Clone)]
pub struct Dotool {
    pub program: String,
}

/// `ydotool` plus its daemon; text on stdin.
#[derive(Debug, Clone)]
pub struct Ydotool {
    pub program: String,
}

/// `xdotool`: X11/XTEST; text in argv.
#[derive(Debug, Clone)]
pub struct Xdotool {
    pub program: String,
}

/// One of the external typing backends.
#[derive(Debug, Clone)]
pub enum Tool {
    Wtype(Wtype),
    Dotool(Dotool),
    Ydotool(Ydotool),
    Xdotool(Xdotool),
}

pub open spec fn wtype_session_message() -> Seq<char> {
    "wtype needs a Wayland session (WAYLAND_DISPLAY is unset)"@
}

pub open spec fn dotool_device_message() -> Seq<char> {
    "dotool needs /dev/uinput (load the `uinput` module and make sure the `input` group can write it)"@
}

pub open spec fn xdotool_display_message() -> Seq<char> {
    "xdotool needs an X display (DISPLAY is unset) \u{2014} it can only reach X11/XWayland windows"@
}

pub open spec fn in_process_message() -> Seq<char> {
    "`uinput` is the in-process backend, not an external tool"@
}

pub open spec fn tool_program_view(t: Tool) -> Seq<char> {
    match t {
        Tool::Wtype(w) => w.program@,
        Tool::Dotool(d) => d.program@,
        Tool::Ydotool(y) => y.program@,
        Tool::Xdotool(x) => x.program@,
    }
}

pub open spec fn tool_backend(t: Tool) -> TypingBackend {
    match t {
        Tool::Wtype(_) => TypingBackend::Wtype,
        Tool::Dotool(_) => TypingBackend::Dotool,
        Tool::Ydotool(_) => TypingBackend::Ydotool,
        Tool::Xdotool(_) => TypingBackend::Xdotool,
    }
}

/// Build the backend named by `engine.typing_backend`, from the outcome of
/// looking up its program and from what the session offers.
///
/// The in-process `uinput` backend is never an external tool.
pub fn create(backend: TypingBackend, program: Result<String, InjectError>, env: SessionEnv) -> (r:
    Result<Tool, InjectError>)
    ensures
        backend == TypingBackend::Uinput ==> r is Err && r->Err_0.kind == ErrorKind::InvalidInput
            && r->Err_0.message@ == in_process_message(),
        backend != TypingBackend::Uinput ==> match program {
            Err(e) => r is Err && r->Err_0.kind == e.kind && r->Err_0.message@ == e.message@,
            Ok(p) => {
                if backend == TypingBackend::Wtype && !env.wayland_display {
                    r is Err && r->Err_0.kind == ErrorKind::Other && r->Err_0.message@
                        == wtype_session_message()
                } else if backend == TypingBackend::Dotool && !env.uinput_device {
                    r is Err && r->Err_0.kind == ErrorKind::Other && r->Err_0.message@
                        == dotool_device_message()
                } else if backend == TypingBackend::Xdotool && !env.x_display {
                    r is Err && r->Err_0.kind == ErrorKind::Other && r->Err_0.message@
                        == xdotool_display_message()
                } else {
                    r is Ok && tool_backend(r->Ok_0) == backend && tool_program_view(r->Ok_0)
                        == p@
                }
            },
        },
{
    if backend == TypingBackend::Uinput {
        return Err(
            InjectError::new(
                ErrorKind::InvalidInput,
                owned("`uinput` is the in-process backend, not an external tool"),
            ),
        );
    }
    let program = match program {
        Ok(p) => p,
        Err(e) => {
            return Err(e);
        },
    };
    match backend {
        TypingBackend::Wtype => {
            if !env.wayland_display {
                return Err(
                    InjectError::new(
                        ErrorKind::Other,
                        owned("wtype needs a Wayland session (WAYLAND_DISPLAY is unset)"),
                    ),
                );
            }
            Ok(Tool::Wtype(Wtype { program }))
        },
        TypingBackend::Dotool => {
            if !env.uinput_device {
                return Err(
                    InjectError::new(
                        ErrorKind::Other,
                        owned(
                            "dotool needs /dev/uinput (load the `uinput` module and make sure the `input` group can write it)",
                        ),
                    ),
                );
            }
            Ok(Tool::Dotool(Dotool { program }))
        },
        TypingBackend::Ydotool => Ok(Tool::Ydotool(Ydotool { program })),
        _ => {
            if !env.x_display {
                return Err(
                    InjectError::new(
                        ErrorKind::Other,
                        owned(
                            "xdotool needs an X display (DISPLAY is unset) \u{2014} it can only reach X11/XWayland windows",
                        ),
                    ),
                );
            }
            Ok(Tool::Xdotool(Xdotool { program }))
        },
    }
}

fn args_of(items: &[&str]) -> (r: Vec<String>)
    ensures
        r.deep_view() == strs(items@),
{
    let mut r: Vec<String> = Vec::new();
    let mut i: usize = 0;
    while i < items.len()
        invariant
            i <= items.len(),
            r.len() == i,
            forall|j: int| 0 <= j < i ==> #[trigger] r@[j]@ == items@[j]@,
        decreases items.len() - i,
    {
        r.push(owned(items[i]));
        i = i + 1;
    }
    assert(r.deep_view() =~= strs(items@));
    r
}

fn with_stdin(program: &String, args: Vec<String>, stdin: &str) -> (r: Invocation)
    ensures
        inv_view(r) == (program@, args.deep_view(), Some(stdin@)),
{
    Invocation { program: program.clone(), args, stdin: Some(owned(stdin)) }
}

fn with_args(program: &String, args: Vec<String>) -> (r: Invocation)
    ensures
        inv_view(r) == (program@, args.deep_view(), None::<Seq<char>>),
{
    Invocation { program: program.clone(), args, stdin: None }
}

/// The process that types `text` (none for empty text), for a tool.
pub open spec fn type_spec(t: Tool, text: Seq<char>) -> Option<
    (Seq<char>, Seq<Seq<char>>, Option<Seq<char>>),
> {
    let p = tool_program_view(t);
    match t {
        Tool::Wtype(_) => if text.len() == 0 {
            None
        } else {
            Some((p, seq!["-"@], Some(text)))
        },
        Tool::Dotool(_) => if dotool_script(text).len() == 0 {
            None
        } else {
            Some((p, Seq::empty(), Some(dotool_script(text))))
        },
        Tool::Ydotool(_) => if text.len() == 0 {
            None
        } else {
            Some((p, seq!["type"@, "-f"@, "-"@], Some(text)))
        },
        Tool::Xdotool(_) => if text.len() == 0 {
            None
        } else {
            Some((p, xdotool_type_args(text), None))
        },
    }
}

/// Only xdotool takes the utterance as an argument: every other tool gets
/// the same arguments whatever is typed, so dashes, quotes and newlines
/// in speech are never parsed as options.
pub proof fn law_utterance_stays_out_of_argv(t: Tool, a: Seq<char>, b: Seq<char>)
    requires
        !(t is Xdotool),
        type_spec(t, a) is Some,
        type_spec(t, b) is Some,
    ensures
        type_spec(t, a).unwrap().1 == type_spec(t, b).unwrap().1,
{
}

/// The process that deletes `n` characters (none for `n == 0`).
pub open spec fn backspace_spec(t: Tool, n: nat) -> Option<
    (Seq<char>, Seq<Seq<char>>, Option<Seq<char>>),
> {
    let p = tool_program_view(t);
    if n == 0 {
        None
    } else {
        match t {
            Tool::Wtype(_) => Some((p, repeat_args(wtype_backspace_block(), n), None)),
            Tool::Dotool(_) => Some(
                (p, Seq::empty(), Some(repeat_text(dotool_backspace_line(), n))),
            ),
            Tool::Ydotool(_) => Some(
                (p, seq!["key"@] + repeat_args(seq!["14:1"@, "14:0"@], n), None),
            ),
            Tool::Xdotool(_) => Some((p, xdotool_backspace_args(n), None)),
        }
    }
}

pub open spec fn opt_seq(o: Option<(Seq<char>, Seq<Seq<char>>, Option<Seq<char>>)>) -> Seq<
    (Seq<char>, Seq<Seq<char>>, Option<Seq<char>>),
> {
    match o {
        Some(x) => seq![x],
        None => Seq::empty(),
    }
}

/// The processes of one revision: dotool and xdotool take both halves in
/// one process; wtype and ydotool need a backspace process and a typing
/// process (each skipped when empty).
pub open spec fn revise_spec(t: Tool, n: nat, text: Seq<char>) -> Seq<
    (Seq<char>, Seq<Seq<char>>, Option<Seq<char>>),
> {
    let p = tool_program_view(t);
    match t {
        Tool::Dotool(_) => {
            let script = repeat_text(dotool_backspace_line(), n) + dotool_script(text);
            if script.len() == 0 {
                Seq::empty()
            } else {
                seq![(p, Seq::empty(), Some(script))]
            }
        },
        Tool::Xdotool(_) => {
            let args = xdotool_revise_args(n, text);
            if args.len() == 0 {
                Seq::empty()
            } else {
                seq![(p, args, None)]
            }
        },
        _ => opt_seq(backspace_spec(t, n)) + opt_seq(type_spec(t, text)),
    }
}

impl Tool {
    pub fn program(&self) -> (r: &String)
        ensures
            r@ == tool_program_view(*self),
    {
        match self {
            Tool::Wtype(w) => &w.program,
            Tool::Dotool(d) => &d.program,
            Tool::Ydotool(y) => &y.program,
            Tool::Xdotool(x) => &x.program,
        }
    }

    /// Backend name, for logs.
    pub fn name(&self) -> (r: &'static str)
        ensures
            r@ == tool_backend(*self).name(),
    {
        match self {
            Tool::Wtype(_) => "wtype",
            Tool::Dotool(_) => "dotool",
            Tool::Ydotool(_) => "ydotool",
            Tool::Xdotool(_) => "xdotool",
        }
    }

    /// The process that types `text` into the focused window.
    pub fn type_text(&self, text: &str) -> (r: Option<Invocation>)
        ensures
            opt_inv_view(r) == type_spec(*self, text@),
    {
        let program = self.program();
        match self {
            Tool::Dotool(_) => {
                let script = dotool_type_script(text);
                if script.as_str().is_empty() {
                    None
                } else {
                    Some(with_stdin(program, Vec::new(), script.as_str()))
                }
            },
            _ => {
                if text.is_empty() {
                    return None;
                }
                match self {
                    Tool::Wtype(_) => {
                        let argv = wtype_argv();
                        Some(with_stdin(program, args_of(&argv), text))
                    },
                    Tool::Ydotool(_) => {
                        let argv = ydotool_type_argv();
                        Some(with_stdin(program, args_of(&argv), text))
                    },
                    _ => Some(with_args(program, xdotool_type_argv(text))),
                }
            },
        }
    }

    /// The process that deletes `n` characters left of the caret.
    pub fn backspace(&self, n: usize) -> (r: Option<Invocation>)
        ensures
            opt_inv_view(r) == backspace_spec(*self, n as nat),
    {
        if n == 0 {
            return None;
        }
        let program = self.program();
        match self {
            Tool::Wtype(_) => Some(with_args(program, wtype_backspace_argv(n))),
            Tool::Dotool(_) => {
                let script = dotool_backspace_script(n);
                Some(with_stdin(program, Vec::new(), script.as_str()))
            },
            Tool::Ydotool(_) => Some(with_args(program, ydotool_backspace_argv(n))),
            Tool::Xdotool(_) => Some(with_args(program, xdotool_backspace_argv(n))),
        }
    }

    /// The processes of one revision: take back `n` characters and type
    /// `text` in their place.
    pub fn revise(&self, n: usize, text: &str) -> (r: Vec<Invocation>)
        ensures
            invs_view(r@) == revise_spec(*self, n as nat, text@),
    {
        let program = self.program();
        let mut r: Vec<Invocation> = Vec::new();
        match self {
            Tool::Dotool(_) => {
                let script = dotool_revise_script(n, text);
                if !script.as_str().is_empty() {
                    let e: Vec<String> = Vec::new();
                    assert(e.deep_view() =~= Seq::<Seq<char>>::empty());
                    r.push(with_stdin(program, e, script.as_str()));
                }
                assert(invs_view(r@) =~= revise_spec(*self, n as nat, text@));
            },
            Tool::Xdotool(_) => {
                let argv = xdotool_revise_argv(n, text);
                if argv.len() > 0 {
                    r.push(with_args(program, argv));
                }
                assert(invs_view(r@) =~= revise_spec(*self, n as nat, text@));
            },
            _ => {
                let b = self.backspace(n);
                let t = self.type_text(text);
                match b {
                    Some(i) => r.push(i),
                    None => {},
                }
                let ghost mid = r@;
                match t {
                    Some(i) => r.push(i),
                    None => {},
                }
                proof {
                    assert(invs_view(mid) =~= opt_seq(opt_inv_view(b)));
                    assert(invs_view(r@) =~= opt_seq(opt_inv_view(b)) + opt_seq(opt_inv_view(t)));
                }
            },
        }
        assert(invs_view(r@) =~= revise_spec(*self, n as nat, text@));
        r
    }
}

} // verus!
