//! The `dictation` command line: what each invocation asks for, the
//! options of `benchmark`, and the text the status and diagnostic
//! commands print. Running the request is left to the caller.
use crate::config::TypingBackend;
use crate::models::{arg_at, arg_spec};
use crate::paths::opt_view;
use crate::session::SessionState;
use crate::text::{concat2, concat3, owned, starts_with, str_eq};
use vstd::prelude::*;

verus! {

/// Help text of the command.
pub open spec fn usage_spec() -> Seq<char> {
    "Usage: dictation <command>\n\nCommands:\n  toggle    Start or stop dictation  (bind THIS to your key)\n  begin     Start dictation\n  end       Stop dictation\n  status    Show current state\n  config    Print the config file path; `config check` validates settings\n  benchmark [wav] [--model PATH ...] [--backend moonshine|zipformer ...] [--reference TEXT]\n            Compare recognition backends for speed, memory, and transcript quality\n            (`--reference-file PATH` accepts a transcript file)\n  benchmark-tune [wav] Compare encoder windows and thread counts for current model\n  model <check|list|info|install|remove|set|recommend|benchmark|management> Manage recognition models\n  doctor    Diagnose configuration, model, audio and typing setup\n"@
}

/// Help text of the command.
pub fn usage() -> (r: &'static str)
    ensures
        r@ == usage_spec(),
{
    "Usage: dictation <command>\n\nCommands:\n  toggle    Start or stop dictation  (bind THIS to your key)\n  begin     Start dictation\n  end       Stop dictation\n  status    Show current state\n  config    Print the config file path; `config check` validates settings\n  benchmark [wav] [--model PATH ...] [--backend moonshine|zipformer ...] [--reference TEXT]\n            Compare recognition backends for speed, memory, and transcript quality\n            (`--reference-file PATH` accepts a transcript file)\n  benchmark-tune [wav] Compare encoder windows and thread counts for current model\n  model <check|list|info|install|remove|set|recommend|benchmark|management> Manage recognition models\n  doctor    Diagnose configuration, model, audio and typing setup\n"
}



/// One invocation of `dictation`, as plain text.
pub enum Request {
    /// `__native-run`: become the engine daemon.
    NativeRun,
    /// A hidden command without a required operand; exits with status 2.
    Missing(Seq<char>),
    /// `__whisper-bench-one WAV MODEL [REFERENCE]`.
    WhisperBenchOne(Seq<char>, Seq<char>, Option<Seq<char>>),
    /// `__streaming-bench-one WAV BACKEND [REFERENCE]`.
    StreamingBenchOne(Seq<char>, Seq<char>, Option<Seq<char>>),
    WhisperSelftest,
    Benchmark,
    Model,
    Doctor,
    /// `benchmark-tune [WAV]`.
    BenchmarkTune(Option<Seq<char>>),
    /// `__type [TEXT]`.
    TypeText(Seq<char>),
    Toggle,
    Begin,
    End,
    Status,
    Config,
    Help,
    /// Anything else: print the usage to stderr, exit with status 2.
    Usage,
}

/// One invocation of `dictation`.
#[derive(Debug)]
pub enum Invocation {
    NativeRun,
    Missing(String),
    WhisperBenchOne(String, String, Option<String>),
    StreamingBenchOne(String, String, Option<String>),
    WhisperSelftest,
    Benchmark,
    Model,
    Doctor,
    BenchmarkTune(Option<String>),
    TypeText(String),
    Toggle,
    Begin,
    End,
    Status,
    Config,
    Help,
    Usage,
}

pub open spec fn request_of(c: Invocation) -> Request {
    match c {
        Invocation::NativeRun => Request::NativeRun,
        Invocation::Missing(m) => Request::Missing(m@),
        Invocation::WhisperBenchOne(w, m, r) => Request::WhisperBenchOne(w@, m@, opt_view(r)),
        Invocation::StreamingBenchOne(w, b, r) => Request::StreamingBenchOne(w@, b@, opt_view(r)),
        Invocation::WhisperSelftest => Request::WhisperSelftest,
        Invocation::Benchmark => Request::Benchmark,
        Invocation::Model => Request::Model,
        Invocation::Doctor => Request::Doctor,
        Invocation::BenchmarkTune(w) => Request::BenchmarkTune(opt_view(w)),
        Invocation::TypeText(t) => Request::TypeText(t@),
        Invocation::Toggle => Request::Toggle,
        Invocation::Begin => Request::Begin,
        Invocation::End => Request::End,
        Invocation::Status => Request::Status,
        Invocation::Config => Request::Config,
        Invocation::Help => Request::Help,
        Invocation::Usage => Request::Usage,
    }
}

/// The optional reference transcript of a one-model benchmark: `-`
/// stands for none.
pub open spec fn reference_arg(args: Seq<Seq<char>>) -> Option<Seq<char>> {
    match arg_spec(args, 4) {
        Some(r) => if r == "-"@ {
            None
        } else {
            Some(r)
        },
        None => None,
    }
}

/// What `dictation args[1] args[2..]` asks for.
pub open spec fn request(args: Seq<Seq<char>>) -> Request {
    let cmd = match arg_spec(args, 1) {
        Some(c) => c,
        None => ""@,
    };
    let a2 = arg_spec(args, 2);
    let a3 = arg_spec(args, 3);
    if cmd == "__native-run"@ {
        Request::NativeRun
    } else if cmd == "__whisper-bench-one"@ {
        match (a2, a3) {
            (Some(w), Some(m)) => Request::WhisperBenchOne(w, m, reference_arg(args)),
            (None, _) => Request::Missing("missing benchmark WAV path"@),
            (Some(_), None) => Request::Missing("missing benchmark model path"@),
        }
    } else if cmd == "__streaming-bench-one"@ {
        match (a2, a3) {
            (Some(w), Some(b)) => Request::StreamingBenchOne(w, b, reference_arg(args)),
            (None, _) => Request::Missing("missing benchmark WAV path"@),
            (Some(_), None) => Request::Missing("missing backend name"@),
        }
    } else if cmd == "__whisper-selftest"@ {
        Request::WhisperSelftest
    } else if cmd == "benchmark"@ {
        Request::Benchmark
    } else if cmd == "model"@ {
        Request::Model
    } else if cmd == "doctor"@ {
        Request::Doctor
    } else if cmd == "benchmark-tune"@ || cmd == "__whisper-bench"@ {
        Request::BenchmarkTune(a2)
    } else if cmd == "__type"@ {
        Request::TypeText(
            match a2 {
                Some(t) => t,
                None => ""@,
            },
        )
    } else if cmd == "toggle"@ {
        Request::Toggle
    } else if cmd == "begin"@ || cmd == "start"@ {
        Request::Begin
    } else if cmd == "end"@ || cmd == "stop"@ {
        Request::End
    } else if cmd == "status"@ {
        Request::Status
    } else if cmd == "config"@ {
        Request::Config
    } else if cmd == "-h"@ || cmd == "--help"@ || cmd == "help"@ {
        Request::Help
    } else {
        Request::Usage
    }
}

/// Every command word names one request, whatever follows it on the
/// command line: `toggle`; `begin` or `start`; `end` or `stop`; `status`;
/// `config`; `doctor`; `model`; `benchmark`; `help`, `-h` or `--help`; and
/// the daemon's own `__native-run` and `__whisper-selftest`.
pub proof fn law_command_words(args: Seq<Seq<char>>)
    requires
        args.len() >= 2,
    ensures
        args[1] == "toggle"@ ==> request(args) == Request::Toggle,
        args[1] == "begin"@ || args[1] == "start"@ ==> request(args) == Request::Begin,
        args[1] == "end"@ || args[1] == "stop"@ ==> request(args) == Request::End,
        args[1] == "status"@ ==> request(args) == Request::Status,
        args[1] == "config"@ ==> request(args) == Request::Config,
        args[1] == "doctor"@ ==> request(args) == Request::Doctor,
        args[1] == "model"@ ==> request(args) == Request::Model,
        args[1] == "benchmark"@ ==> request(args) == Request::Benchmark,
        args[1] == "help"@ || args[1] == "-h"@ || args[1] == "--help"@ ==> request(args)
            == Request::Help,
        args[1] == "__native-run"@ ==> request(args) == Request::NativeRun,
        args[1] == "__whisper-selftest"@ ==> request(args) == Request::WhisperSelftest,
{
    reveal_strlit("__native-run");
    reveal_strlit("__whisper-bench-one");
    reveal_strlit("__streaming-bench-one");
    reveal_strlit("__whisper-selftest");
    reveal_strlit("benchmark");
    reveal_strlit("model");
    reveal_strlit("doctor");
    reveal_strlit("benchmark-tune");
    reveal_strlit("__whisper-bench");
    reveal_strlit("__type");
    reveal_strlit("toggle");
    reveal_strlit("begin");
    reveal_strlit("start");
    reveal_strlit("end");
    reveal_strlit("stop");
    reveal_strlit("status");
    reveal_strlit("config");
    reveal_strlit("-h");
    reveal_strlit("--help");
    reveal_strlit("help");
    assert("__whisper-selftest"@ != "__native-run"@) by { assert("__whisper-selftest"@.len() != "__native-run"@.len()); }
    assert("__whisper-selftest"@ != "__whisper-bench-one"@) by { assert("__whisper-selftest"@.len() != "__whisper-bench-one"@.len()); }
    assert("__whisper-selftest"@ != "__streaming-bench-one"@) by { assert("__whisper-selftest"@.len() != "__streaming-bench-one"@.len()); }
    assert("benchmark"@ != "__native-run"@) by { assert("benchmark"@.len() != "__native-run"@.len()); }
    assert("benchmark"@ != "__whisper-bench-one"@) by { assert("benchmark"@.len() != "__whisper-bench-one"@.len()); }
    assert("benchmark"@ != "__streaming-bench-one"@) by { assert("benchmark"@.len() != "__streaming-bench-one"@.len()); }
    assert("benchmark"@ != "__whisper-selftest"@) by { assert("benchmark"@.len() != "__whisper-selftest"@.len()); }
    assert("model"@ != "__native-run"@) by { assert("model"@.len() != "__native-run"@.len()); }
    assert("model"@ != "__whisper-bench-one"@) by { assert("model"@.len() != "__whisper-bench-one"@.len()); }
    assert("model"@ != "__streaming-bench-one"@) by { assert("model"@.len() != "__streaming-bench-one"@.len()); }
    assert("model"@ != "__whisper-selftest"@) by { assert("model"@.len() != "__whisper-selftest"@.len()); }
    assert("model"@ != "benchmark"@) by { assert("model"@.len() != "benchmark"@.len()); }
    assert("doctor"@ != "__native-run"@) by { assert("doctor"@.len() != "__native-run"@.len()); }
    assert("doctor"@ != "__whisper-bench-one"@) by { assert("doctor"@.len() != "__whisper-bench-one"@.len()); }
    assert("doctor"@ != "__streaming-bench-one"@) by { assert("doctor"@.len() != "__streaming-bench-one"@.len()); }
    assert("doctor"@ != "__whisper-selftest"@) by { assert("doctor"@.len() != "__whisper-selftest"@.len()); }
    assert("doctor"@ != "benchmark"@) by { assert("doctor"@.len() != "benchmark"@.len()); }
    assert("doctor"@ != "model"@) by { assert("doctor"@.len() != "model"@.len()); }
    assert("toggle"@ != "__native-run"@) by { assert("toggle"@.len() != "__native-run"@.len()); }
    assert("toggle"@ != "__whisper-bench-one"@) by { assert("toggle"@.len() != "__whisper-bench-one"@.len()); }
    assert("toggle"@ != "__streaming-bench-one"@) by { assert("toggle"@.len() != "__streaming-bench-one"@.len()); }
    assert("toggle"@ != "__whisper-selftest"@) by { assert("toggle"@.len() != "__whisper-selftest"@.len()); }
    assert("toggle"@ != "benchmark"@) by { assert("toggle"@.len() != "benchmark"@.len()); }
    assert("toggle"@ != "model"@) by { assert("toggle"@.len() != "model"@.len()); }
    assert("toggle"@ != "doctor"@) by { assert("toggle"@[0] != "doctor"@[0]); }
    assert("toggle"@ != "benchmark-tune"@) by { assert("toggle"@.len() != "benchmark-tune"@.len()); }
    assert("toggle"@ != "__whisper-bench"@) by { assert("toggle"@.len() != "__whisper-bench"@.len()); }
    assert("toggle"@ != "__type"@) by { assert("toggle"@[0] != "__type"@[0]); }
    assert("begin"@ != "__native-run"@) by { assert("begin"@.len() != "__native-run"@.len()); }
    assert("begin"@ != "__whisper-bench-one"@) by { assert("begin"@.len() != "__whisper-bench-one"@.len()); }
    assert("begin"@ != "__streaming-bench-one"@) by { assert("begin"@.len() != "__streaming-bench-one"@.len()); }
    assert("begin"@ != "__whisper-selftest"@) by { assert("begin"@.len() != "__whisper-selftest"@.len()); }
    assert("begin"@ != "benchmark"@) by { assert("begin"@.len() != "benchmark"@.len()); }
    assert("begin"@ != "model"@) by { assert("begin"@[0] != "model"@[0]); }
    assert("begin"@ != "doctor"@) by { assert("begin"@.len() != "doctor"@.len()); }
    assert("begin"@ != "benchmark-tune"@) by { assert("begin"@.len() != "benchmark-tune"@.len()); }
    assert("begin"@ != "__whisper-bench"@) by { assert("begin"@.len() != "__whisper-bench"@.len()); }
    assert("begin"@ != "__type"@) by { assert("begin"@.len() != "__type"@.len()); }
    assert("begin"@ != "toggle"@) by { assert("begin"@.len() != "toggle"@.len()); }
    assert("start"@ != "__native-run"@) by { assert("start"@.len() != "__native-run"@.len()); }
    assert("start"@ != "__whisper-bench-one"@) by { assert("start"@.len() != "__whisper-bench-one"@.len()); }
    assert("start"@ != "__streaming-bench-one"@) by { assert("start"@.len() != "__streaming-bench-one"@.len()); }
    assert("start"@ != "__whisper-selftest"@) by { assert("start"@.len() != "__whisper-selftest"@.len()); }
    assert("start"@ != "benchmark"@) by { assert("start"@.len() != "benchmark"@.len()); }
    assert("start"@ != "model"@) by { assert("start"@[0] != "model"@[0]); }
    assert("start"@ != "doctor"@) by { assert("start"@.len() != "doctor"@.len()); }
    assert("start"@ != "benchmark-tune"@) by { assert("start"@.len() != "benchmark-tune"@.len()); }
    assert("start"@ != "__whisper-bench"@) by { assert("start"@.len() != "__whisper-bench"@.len()); }
    assert("start"@ != "__type"@) by { assert("start"@.len() != "__type"@.len()); }
    assert("start"@ != "toggle"@) by { assert("start"@.len() != "toggle"@.len()); }
    assert("start"@ != "begin"@) by { assert("start"@[0] != "begin"@[0]); }
    assert("end"@ != "__native-run"@) by { assert("end"@.len() != "__native-run"@.len()); }
    assert("end"@ != "__whisper-bench-one"@) by { assert("end"@.len() != "__whisper-bench-one"@.len()); }
    assert("end"@ != "__streaming-bench-one"@) by { assert("end"@.len() != "__streaming-bench-one"@.len()); }
    assert("end"@ != "__whisper-selftest"@) by { assert("end"@.len() != "__whisper-selftest"@.len()); }
    assert("end"@ != "benchmark"@) by { assert("end"@.len() != "benchmark"@.len()); }
    assert("end"@ != "model"@) by { assert("end"@.len() != "model"@.len()); }
    assert("end"@ != "doctor"@) by { assert("end"@.len() != "doctor"@.len()); }
    assert("end"@ != "benchmark-tune"@) by { assert("end"@.len() != "benchmark-tune"@.len()); }
    assert("end"@ != "__whisper-bench"@) by { assert("end"@.len() != "__whisper-bench"@.len()); }
    assert("end"@ != "__type"@) by { assert("end"@.len() != "__type"@.len()); }
    assert("end"@ != "toggle"@) by { assert("end"@.len() != "toggle"@.len()); }
    assert("end"@ != "begin"@) by { assert("end"@.len() != "begin"@.len()); }
    assert("end"@ != "start"@) by { assert("end"@.len() != "start"@.len()); }
    assert("stop"@ != "__native-run"@) by { assert("stop"@.len() != "__native-run"@.len()); }
    assert("stop"@ != "__whisper-bench-one"@) by { assert("stop"@.len() != "__whisper-bench-one"@.len()); }
    assert("stop"@ != "__streaming-bench-one"@) by { assert("stop"@.len() != "__streaming-bench-one"@.len()); }
    assert("stop"@ != "__whisper-selftest"@) by { assert("stop"@.len() != "__whisper-selftest"@.len()); }
    assert("stop"@ != "benchmark"@) by { assert("stop"@.len() != "benchmark"@.len()); }
    assert("stop"@ != "model"@) by { assert("stop"@.len() != "model"@.len()); }
    assert("stop"@ != "doctor"@) by { assert("stop"@.len() != "doctor"@.len()); }
    assert("stop"@ != "benchmark-tune"@) by { assert("stop"@.len() != "benchmark-tune"@.len()); }
    assert("stop"@ != "__whisper-bench"@) by { assert("stop"@.len() != "__whisper-bench"@.len()); }
    assert("stop"@ != "__type"@) by { assert("stop"@.len() != "__type"@.len()); }
    assert("stop"@ != "toggle"@) by { assert("stop"@.len() != "toggle"@.len()); }
    assert("stop"@ != "begin"@) by { assert("stop"@.len() != "begin"@.len()); }
    assert("stop"@ != "start"@) by { assert("stop"@.len() != "start"@.len()); }
    assert("stop"@ != "end"@) by { assert("stop"@.len() != "end"@.len()); }
    assert("status"@ != "__native-run"@) by { assert("status"@.len() != "__native-run"@.len()); }
    assert("status"@ != "__whisper-bench-one"@) by { assert("status"@.len() != "__whisper-bench-one"@.len()); }
    assert("status"@ != "__streaming-bench-one"@) by { assert("status"@.len() != "__streaming-bench-one"@.len()); }
    assert("status"@ != "__whisper-selftest"@) by { assert("status"@.len() != "__whisper-selftest"@.len()); }
    assert("status"@ != "benchmark"@) by { assert("status"@.len() != "benchmark"@.len()); }
    assert("status"@ != "model"@) by { assert("status"@.len() != "model"@.len()); }
    assert("status"@ != "doctor"@) by { assert("status"@[0] != "doctor"@[0]); }
    assert("status"@ != "benchmark-tune"@) by { assert("status"@.len() != "benchmark-tune"@.len()); }
    assert("status"@ != "__whisper-bench"@) by { assert("status"@.len() != "__whisper-bench"@.len()); }
    assert("status"@ != "__type"@) by { assert("status"@[0] != "__type"@[0]); }
    assert("status"@ != "toggle"@) by { assert("status"@[0] != "toggle"@[0]); }
    assert("status"@ != "begin"@) by { assert("status"@.len() != "begin"@.len()); }
    assert("status"@ != "start"@) by { assert("status"@.len() != "start"@.len()); }
    assert("status"@ != "end"@) by { assert("status"@.len() != "end"@.len()); }
    assert("status"@ != "stop"@) by { assert("status"@.len() != "stop"@.len()); }
    assert("config"@ != "__native-run"@) by { assert("config"@.len() != "__native-run"@.len()); }
    assert("config"@ != "__whisper-bench-one"@) by { assert("config"@.len() != "__whisper-bench-one"@.len()); }
    assert("config"@ != "__streaming-bench-one"@) by { assert("config"@.len() != "__streaming-bench-one"@.len()); }
    assert("config"@ != "__whisper-selftest"@) by { assert("config"@.len() != "__whisper-selftest"@.len()); }
    assert("config"@ != "benchmark"@) by { assert("config"@.len() != "benchmark"@.len()); }
    assert("config"@ != "model"@) by { assert("config"@.len() != "model"@.len()); }
    assert("config"@ != "doctor"@) by { assert("config"@[0] != "doctor"@[0]); }
    assert("config"@ != "benchmark-tune"@) by { assert("config"@.len() != "benchmark-tune"@.len()); }
    assert("config"@ != "__whisper-bench"@) by { assert("config"@.len() != "__whisper-bench"@.len()); }
    assert("config"@ != "__type"@) by { assert("config"@[0] != "__type"@[0]); }
    assert("config"@ != "toggle"@) by { assert("config"@[0] != "toggle"@[0]); }
    assert("config"@ != "begin"@) by { assert("config"@.len() != "begin"@.len()); }
    assert("config"@ != "start"@) by { assert("config"@.len() != "start"@.len()); }
    assert("config"@ != "end"@) by { assert("config"@.len() != "end"@.len()); }
    assert("config"@ != "stop"@) by { assert("config"@.len() != "stop"@.len()); }
    assert("config"@ != "status"@) by { assert("config"@[0] != "status"@[0]); }
    assert("-h"@ != "__native-run"@) by { assert("-h"@.len() != "__native-run"@.len()); }
    assert("-h"@ != "__whisper-bench-one"@) by { assert("-h"@.len() != "__whisper-bench-one"@.len()); }
    assert("-h"@ != "__streaming-bench-one"@) by { assert("-h"@.len() != "__streaming-bench-one"@.len()); }
    assert("-h"@ != "__whisper-selftest"@) by { assert("-h"@.len() != "__whisper-selftest"@.len()); }
    assert("-h"@ != "benchmark"@) by { assert("-h"@.len() != "benchmark"@.len()); }
    assert("-h"@ != "model"@) by { assert("-h"@.len() != "model"@.len()); }
    assert("-h"@ != "doctor"@) by { assert("-h"@.len() != "doctor"@.len()); }
    assert("-h"@ != "benchmark-tune"@) by { assert("-h"@.len() != "benchmark-tune"@.len()); }
    assert("-h"@ != "__whisper-bench"@) by { assert("-h"@.len() != "__whisper-bench"@.len()); }
    assert("-h"@ != "__type"@) by { assert("-h"@.len() != "__type"@.len()); }
    assert("-h"@ != "toggle"@) by { assert("-h"@.len() != "toggle"@.len()); }
    assert("-h"@ != "begin"@) by { assert("-h"@.len() != "begin"@.len()); }
    assert("-h"@ != "start"@) by { assert("-h"@.len() != "start"@.len()); }
    assert("-h"@ != "end"@) by { assert("-h"@.len() != "end"@.len()); }
    assert("-h"@ != "stop"@) by { assert("-h"@.len() != "stop"@.len()); }
    assert("-h"@ != "status"@) by { assert("-h"@.len() != "status"@.len()); }
    assert("-h"@ != "config"@) by { assert("-h"@.len() != "config"@.len()); }
    assert("--help"@ != "__native-run"@) by { assert("--help"@.len() != "__native-run"@.len()); }
    assert("--help"@ != "__whisper-bench-one"@) by { assert("--help"@.len() != "__whisper-bench-one"@.len()); }
    assert("--help"@ != "__streaming-bench-one"@) by { assert("--help"@.len() != "__streaming-bench-one"@.len()); }
    assert("--help"@ != "__whisper-selftest"@) by { assert("--help"@.len() != "__whisper-selftest"@.len()); }
    assert("--help"@ != "benchmark"@) by { assert("--help"@.len() != "benchmark"@.len()); }
    assert("--help"@ != "model"@) by { assert("--help"@.len() != "model"@.len()); }
    assert("--help"@ != "doctor"@) by { assert("--help"@[0] != "doctor"@[0]); }
    assert("--help"@ != "benchmark-tune"@) by { assert("--help"@.len() != "benchmark-tune"@.len()); }
    assert("--help"@ != "__whisper-bench"@) by { assert("--help"@.len() != "__whisper-bench"@.len()); }
    assert("--help"@ != "__type"@) by { assert("--help"@[0] != "__type"@[0]); }
    assert("--help"@ != "toggle"@) by { assert("--help"@[0] != "toggle"@[0]); }
    assert("--help"@ != "begin"@) by { assert("--help"@.len() != "begin"@.len()); }
    assert("--help"@ != "start"@) by { assert("--help"@.len() != "start"@.len()); }
    assert("--help"@ != "end"@) by { assert("--help"@.len() != "end"@.len()); }
    assert("--help"@ != "stop"@) by { assert("--help"@.len() != "stop"@.len()); }
    assert("--help"@ != "status"@) by { assert("--help"@[0] != "status"@[0]); }
    assert("--help"@ != "config"@) by { assert("--help"@[0] != "config"@[0]); }
    assert("--help"@ != "-h"@) by { assert("--help"@.len() != "-h"@.len()); }
    assert("help"@ != "__native-run"@) by { assert("help"@.len() != "__native-run"@.len()); }
    assert("help"@ != "__whisper-bench-one"@) by { assert("help"@.len() != "__whisper-bench-one"@.len()); }
    assert("help"@ != "__streaming-bench-one"@) by { assert("help"@.len() != "__streaming-bench-one"@.len()); }
    assert("help"@ != "__whisper-selftest"@) by { assert("help"@.len() != "__whisper-selftest"@.len()); }
    assert("help"@ != "benchmark"@) by { assert("help"@.len() != "benchmark"@.len()); }
    assert("help"@ != "model"@) by { assert("help"@.len() != "model"@.len()); }
    assert("help"@ != "doctor"@) by { assert("help"@.len() != "doctor"@.len()); }
    assert("help"@ != "benchmark-tune"@) by { assert("help"@.len() != "benchmark-tune"@.len()); }
    assert("help"@ != "__whisper-bench"@) by { assert("help"@.len() != "__whisper-bench"@.len()); }
    assert("help"@ != "__type"@) by { assert("help"@.len() != "__type"@.len()); }
    assert("help"@ != "toggle"@) by { assert("help"@.len() != "toggle"@.len()); }
    assert("help"@ != "begin"@) by { assert("help"@.len() != "begin"@.len()); }
    assert("help"@ != "start"@) by { assert("help"@.len() != "start"@.len()); }
    assert("help"@ != "end"@) by { assert("help"@.len() != "end"@.len()); }
    assert("help"@ != "stop"@) by { assert("help"@[0] != "stop"@[0]); }
    assert("help"@ != "status"@) by { assert("help"@.len() != "status"@.len()); }
    assert("help"@ != "config"@) by { assert("help"@.len() != "config"@.len()); }
    assert("help"@ != "-h"@) by { assert("help"@.len() != "-h"@.len()); }
    assert("help"@ != "--help"@) by { assert("help"@.len() != "--help"@.len()); }
}

fn reference_of(args: &Vec<String>) -> (r: Option<String>)
    ensures
        opt_view(r) == reference_arg(args.deep_view()),
{
    match arg_at(args, 4) {
        Some(r) => if str_eq(r.as_str(), "-") {
            None
        } else {
            Some(r)
        },
        None => None,
    }
}

/// Parses an invocation (see [`request`]).
pub fn parse_invocation(args: &Vec<String>) -> (r: Invocation)
    ensures
        request_of(r) == request(args.deep_view()),
{
    let first = arg_at(args, 1);
    let cmd: &str = match &first {
        Some(c) => c.as_str(),
        None => "",
    };
    let a2 = arg_at(args, 2);
    let a3 = arg_at(args, 3);
    if str_eq(cmd, "__native-run") {
        Invocation::NativeRun
    } else if str_eq(cmd, "__whisper-bench-one") {
        match (a2, a3) {
            (Some(w), Some(m)) => Invocation::WhisperBenchOne(w, m, reference_of(args)),
            (None, _) => Invocation::Missing(owned("missing benchmark WAV path")),
            (Some(_), None) => Invocation::Missing(owned("missing benchmark model path")),
        }
    } else if str_eq(cmd, "__streaming-bench-one") {
        match (a2, a3) {
            (Some(w), Some(b)) => Invocation::StreamingBenchOne(w, b, reference_of(args)),
            (None, _) => Invocation::Missing(owned("missing benchmark WAV path")),
            (Some(_), None) => Invocation::Missing(owned("missing backend name")),
        }
    } else if str_eq(cmd, "__whisper-selftest") {
        Invocation::WhisperSelftest
    } else if str_eq(cmd, "benchmark") {
        Invocation::Benchmark
    } else if str_eq(cmd, "model") {
        Invocation::Model
    } else if str_eq(cmd, "doctor") {
        Invocation::Doctor
    } else if str_eq(cmd, "benchmark-tune") || str_eq(cmd, "__whisper-bench") {
        Invocation::BenchmarkTune(a2)
    } else if str_eq(cmd, "__type") {
        Invocation::TypeText(
            match a2 {
                Some(t) => t,
                None => owned(""),
            },
        )
    } else if str_eq(cmd, "toggle") {
        Invocation::Toggle
    } else if str_eq(cmd, "begin") || str_eq(cmd, "start") {
        Invocation::Begin
    } else if str_eq(cmd, "end") || str_eq(cmd, "stop") {
        Invocation::End
    } else if str_eq(cmd, "status") {
        Invocation::Status
    } else if str_eq(cmd, "config") {
        Invocation::Config
    } else if str_eq(cmd, "-h") || str_eq(cmd, "--help") || str_eq(cmd, "help") {
        Invocation::Help
    } else {
        Invocation::Usage
    }
}

/// What the `benchmark` options said so far, as plain text:
/// `(wav, reference, models, backends, next argument)`.
pub type BenchView = (Option<Seq<char>>, Option<Seq<char>>, Seq<Seq<char>>, Seq<Seq<char>>, int);

/// How reading the `benchmark` options stopped.
pub enum BenchOutcome {
    /// Every argument was read.
    Done,
    /// `--reference-file PATH`: the caller reads the file, stores its
    /// text as the reference and continues.
    ReadReference(Seq<char>),
    Failed(Seq<char>),
}

/// The `benchmark` options read so far.
#[derive(Debug)]
pub struct BenchOptions {
    pub wav: Option<String>,
    pub reference: Option<String>,
    pub models: Vec<String>,
    pub backends: Vec<String>,
    /// Position of the next argument to read.
    pub next: usize,
}

/// How reading the `benchmark` options stopped.
#[derive(Debug)]
pub enum BenchStep {
    Done,
    ReadReference(String),
    Failed(String),
}

pub open spec fn bench_view(o: BenchOptions) -> BenchView {
    (opt_view(o.wav), opt_view(o.reference), o.models.deep_view(), o.backends.deep_view(), o.next as int)
}

pub open spec fn outcome_of(s: BenchStep) -> BenchOutcome {
    match s {
        BenchStep::Done => BenchOutcome::Done,
        BenchStep::ReadReference(p) => BenchOutcome::ReadReference(p@),
        BenchStep::Failed(m) => BenchOutcome::Failed(m@),
    }
}

/// Reads `benchmark` options from `st.4` until the arguments end, one
/// is wrong, or a reference file has to be read. Options: `--model PATH`
/// and `--backend moonshine|zipformer` (repeatable), `--reference TEXT`,
/// `--reference-file PATH`; the first other argument not starting with
/// `-` is the recording.
pub open spec fn bench_read(args: Seq<Seq<char>>, st: BenchView) -> (BenchView, BenchOutcome)
    decreases args.len() - st.4,
{
    let i = st.4;
    if i < 0 || i >= args.len() {
        (st, BenchOutcome::Done)
    } else {
        let a = args[i];
        let value = arg_spec(args, i + 1);
        if a == "--model"@ {
            match value {
                Some(v) => bench_read(args, (st.0, st.1, st.2.push(v), st.3, i + 2)),
                None => (st, BenchOutcome::Failed("--model requires a model path"@)),
            }
        } else if a == "--backend"@ {
            match value {
                Some(v) => if v == "moonshine"@ || v == "zipformer"@ {
                    bench_read(args, (st.0, st.1, st.2, st.3.push(v), i + 2))
                } else {
                    (
                        st,
                        BenchOutcome::Failed(
                            "unsupported candidate backend `"@ + v
                                + "`; use moonshine or zipformer"@,
                        ),
                    )
                },
                None => (
                    st,
                    BenchOutcome::Failed("--backend requires a name (moonshine or zipformer)"@),
                ),
            }
        } else if a == "--reference"@ {
            match value {
                Some(v) => bench_read(args, (st.0, Some(v), st.2, st.3, i + 2)),
                None => (st, BenchOutcome::Failed("--reference requires transcript text"@)),
            }
        } else if a == "--reference-file"@ {
            match value {
                Some(v) => ((st.0, st.1, st.2, st.3, i + 2), BenchOutcome::ReadReference(v)),
                None => (st, BenchOutcome::Failed("--reference-file requires a file path"@)),
            }
        } else if a.len() > 0 && a[0] == '-' {
            (st, BenchOutcome::Failed("unknown benchmark option `"@ + a + "`"@))
        } else if st.0 is None {
            bench_read(args, (Some(a), st.1, st.2, st.3, i + 1))
        } else {
            (st, BenchOutcome::Failed("unexpected benchmark argument `"@ + a + "`"@))
        }
    }
}

impl BenchOptions {
    /// Nothing read yet; the options start after `benchmark`.
    pub fn new() -> (r: BenchOptions)
        ensures
            bench_view(r) == (None::<Seq<char>>, None::<Seq<char>>, Seq::<Seq<char>>::empty(), Seq::<Seq<char>>::empty(), 2int),
    {
        let r = BenchOptions { wav: None, reference: None, models: Vec::new(), backends: Vec::new(), next: 2 };
        assert(r.models.deep_view() =~= Seq::<Seq<char>>::empty());
        assert(r.backends.deep_view() =~= Seq::<Seq<char>>::empty());
        r
    }

    /// Reads the argument at `next`: `None` when reading goes on.
    fn read_one(&mut self, args: &Vec<String>) -> (r: Option<BenchStep>)
        requires
            old(self).next < args.len(),
        ensures
            final(self).next <= args.len(),
            r is None ==> old(self).next < final(self).next,
            r is None ==> bench_read(args.deep_view(), bench_view(*final(self))) == bench_read(
                args.deep_view(),
                bench_view(*old(self)),
            ),
            r matches Some(step) ==> (bench_view(*final(self)), outcome_of(step)) == bench_read(
                args.deep_view(),
                bench_view(*old(self)),
            ),
    {
        let ghost a = args.deep_view();
        let ghost st = bench_view(*self);
        let i = self.next;
        let arg = args[i].as_str();
        let value = arg_at(args, i + 1);
        assert(a[i as int] == arg@);
        if str_eq(arg, "--model") {
            match value {
                Some(v) => {
                    let ghost m0 = self.models.deep_view();
                    self.models.push(v);
                    assert(self.models.deep_view() =~= m0.push(a[i + 1]));
                    self.next = i + 2;
                    assert(bench_view(*self) == (st.0, st.1, st.2.push(a[i + 1]), st.3, i + 2));
                    assert(bench_read(a, bench_view(*self)) == bench_read(a, st));
                    assert(old(self).next < self.next <= args.len());
                    None
                },
                None => Some(BenchStep::Failed(owned("--model requires a model path"))),
            }
        } else if str_eq(arg, "--backend") {
            match value {
                Some(v) => {
                    if str_eq(v.as_str(), "moonshine") || str_eq(v.as_str(), "zipformer") {
                        let ghost b0 = self.backends.deep_view();
                        self.backends.push(v);
                        assert(self.backends.deep_view() =~= b0.push(a[i + 1]));
                        self.next = i + 2;
                        assert(bench_view(*self) == (st.0, st.1, st.2, st.3.push(a[i + 1]), i + 2));
                        assert(bench_read(a, bench_view(*self)) == bench_read(a, st));
                    assert(old(self).next < self.next <= args.len());
                        None
                    } else {
                        Some(
                            BenchStep::Failed(
                                concat3(
                                    "unsupported candidate backend `",
                                    v.as_str(),
                                    "`; use moonshine or zipformer",
                                ),
                            ),
                        )
                    }
                },
                None => Some(
                    BenchStep::Failed(owned("--backend requires a name (moonshine or zipformer)")),
                ),
            }
        } else if str_eq(arg, "--reference") {
            match value {
                Some(v) => {
                    self.reference = Some(v);
                    self.next = i + 2;
                    assert(bench_view(*self) == (st.0, Some(a[i + 1]), st.2, st.3, i + 2));
                    assert(bench_read(a, bench_view(*self)) == bench_read(a, st));
                    assert(old(self).next < self.next <= args.len());
                    None
                },
                None => Some(BenchStep::Failed(owned("--reference requires transcript text"))),
            }
        } else if str_eq(arg, "--reference-file") {
            match value {
                Some(v) => {
                    self.next = i + 2;
                    Some(BenchStep::ReadReference(v))
                },
                None => Some(BenchStep::Failed(owned("--reference-file requires a file path"))),
            }
        } else {
            proof {
                reveal_strlit("-");
                assert("-"@ =~= seq!['-']);
                if arg@.len() > 0 && arg@[0] == '-' {
                    assert(arg@.subrange(0, 1) =~= "-"@);
                }
                if crate::text::has_prefix(arg@, "-"@) {
                    assert(arg@.subrange(0, 1)[0] == arg@[0]);
                }
            }
            if starts_with(arg, "-") {
                Some(BenchStep::Failed(concat3("unknown benchmark option `", arg, "`")))
            } else if self.wav.is_none() {
                self.wav = Some(owned(arg));
                self.next = i + 1;
                assert(bench_view(*self) == (Some(a[i as int]), st.1, st.2, st.3, i + 1));
                assert(bench_read(a, bench_view(*self)) == bench_read(a, st));
                    assert(old(self).next < self.next <= args.len());
                None
            } else {
                Some(BenchStep::Failed(concat3("unexpected benchmark argument `", arg, "`")))
            }
        }
    }

    /// Continues reading the options (see [`bench_read`]).
    pub fn read(&mut self, args: &Vec<String>) -> (r: BenchStep)
        requires
            old(self).next <= args.len(),
        ensures
            (bench_view(*final(self)), outcome_of(r)) == bench_read(args.deep_view(), bench_view(*old(self))),
            final(self).next <= args.len(),
        decreases args.len() - old(self).next,
    {
        if self.next >= args.len() {
            return BenchStep::Done;
        }
        match self.read_one(args) {
            None => self.read(args),
            Some(step) => step,
        }
    }

    /// Stores the text of the reference file.
    pub fn set_reference(&mut self, text: String)
        ensures
            bench_view(*final(self)) == (
                bench_view(*old(self)).0,
                Some(text@),
                bench_view(*old(self)).2,
                bench_view(*old(self)).3,
                bench_view(*old(self)).4,
            ),
    {
        self.reference = Some(text);
    }
}

/// `s` without repeats, keeping first occurrences in order.
pub open spec fn dedup(s: Seq<Seq<char>>) -> Seq<Seq<char>>
    decreases s.len(),
{
    if s.len() == 0 {
        s
    } else if s.drop_last().contains(s.last()) {
        dedup(s.drop_last())
    } else {
        dedup(s.drop_last()).push(s.last())
    }
}

proof fn lemma_dedup_contains(s: Seq<Seq<char>>, x: Seq<char>)
    ensures
        dedup(s).contains(x) == s.contains(x),
    decreases s.len(),
{
    if s.len() > 0 {
        let d = s.drop_last();
        let l = s.last();
        lemma_dedup_contains(d, x);
        assert(s[s.len() - 1] == l);
        assert forall|k: int| 0 <= k < d.len() implies s[k] == #[trigger] d[k] by {}
        if s.contains(x) {
            let k = choose|k: int| 0 <= k < s.len() && s[k] == x;
            if k < s.len() - 1 {
                assert(d[k] == x);
                assert(d.contains(x));
            }
        }
        if d.contains(x) {
            let k = choose|k: int| 0 <= k < d.len() && d[k] == x;
            assert(s[k] == x);
        }
        if x == l {
            assert(s.contains(x));
        }
        if !d.contains(l) {
            let dd = dedup(d);
            assert(dedup(s) == dd.push(l));
            if dd.push(l).contains(x) {
                let k = choose|k: int| 0 <= k < dd.push(l).len() && dd.push(l)[k] == x;
                if k < dd.len() {
                    assert(dd[k] == x);
                    assert(dd.contains(x));
                }
            }
            if dd.contains(x) {
                let k = choose|k: int| 0 <= k < dd.len() && dd[k] == x;
                assert(dd.push(l)[k] == x);
            }
            assert(dd.push(l)[dd.len() as int] == l);
        } else {
            if x == l {
                assert(d.contains(x));
            }
        }
    }
}

/// Removing repeats keeps exactly the items there were, each once.
pub proof fn law_dedup_keeps_each_item_once(s: Seq<Seq<char>>, x: Seq<char>)
    ensures
        dedup(s).contains(x) == s.contains(x),
        forall|i: int, j: int| 0 <= i < j < dedup(s).len() ==> dedup(s)[i] != dedup(s)[j],
    decreases s.len(),
{
    lemma_dedup_contains(s, x);
    if s.len() > 0 {
        law_dedup_keeps_each_item_once(s.drop_last(), x);
        let d = dedup(s.drop_last());
        if !s.drop_last().contains(s.last()) {
            lemma_dedup_contains(s.drop_last(), s.last());
            assert forall|i: int, j: int| 0 <= i < j < dedup(s).len() implies dedup(s)[i] != dedup(s)[j] by {
                if j == d.len() {
                    assert(dedup(s)[i] == d[i]);
                    assert(dedup(s)[j] == s.last());
                    if d[i] == s.last() {
                        assert(d.contains(s.last()));
                    }
                } else {
                    assert(dedup(s)[i] == d[i]);
                    assert(dedup(s)[j] == d[j]);
                }
            }
        }
    }
}

/// The configured model is always the first one benchmarked.
pub proof fn law_configured_model_first(configured: Seq<char>, extra: Seq<Seq<char>>)
    ensures
        dedup(seq![configured] + extra).len() > 0,
        dedup(seq![configured] + extra)[0] == configured,
    decreases extra.len(),
{
    let s = seq![configured] + extra;
    if extra.len() == 0 {
        assert(s =~= seq![configured]);
        assert(s.drop_last() =~= Seq::<Seq<char>>::empty());
        assert(dedup(s.drop_last()) =~= Seq::<Seq<char>>::empty());
    } else {
        law_configured_model_first(configured, extra.drop_last());
        assert(s.drop_last() =~= seq![configured] + extra.drop_last());
    }
}

fn has_string(v: &Vec<String>, x: &str) -> (r: bool)
    ensures
        r == v.deep_view().contains(x@),
{
    let mut i: usize = 0;
    while i < v.len()
        invariant
            i <= v.len(),
            forall|k: int| 0 <= k < i ==> v.deep_view()[k] != x@,
        decreases v.len() - i,
    {
        assert(v.deep_view()[i as int] == v@[i as int]@);
        if str_eq(v[i].as_str(), x) {
            assert(v.deep_view()[i as int] == x@);
            return true;
        }
        i = i + 1;
    }
    false
}

/// `items` without repeats, first occurrences kept in order.
pub fn dedup_strings(items: &Vec<String>) -> (r: Vec<String>)
    ensures
        r.deep_view() == dedup(items.deep_view()),
{
    let ghost s = items.deep_view();
    let mut out: Vec<String> = Vec::new();
    let mut i: usize = 0;
    assert(s.take(0) =~= Seq::<Seq<char>>::empty());
    assert(out.deep_view() =~= Seq::<Seq<char>>::empty());
    while i < items.len()
        invariant
            i <= items.len(),
            s == items.deep_view(),
            out.deep_view() == dedup(s.take(i as int)),
        decreases items.len() - i,
    {
        let ghost o0 = out.deep_view();
        let x = items[i].as_str();
        assert(s[i as int] == x@);
        assert(s.take(i + 1).drop_last() =~= s.take(i as int));
        assert(s.take(i + 1).last() == x@);
        proof {
            lemma_dedup_contains(s.take(i as int), x@);
        }
        if !has_string(&out, x) {
            out.push(owned(x));
            assert(out.deep_view() =~= o0.push(x@));
        }
        i = i + 1;
    }
    assert(s.take(items.len() as int) =~= s);
    out
}

/// Whisper models the benchmark compares: the configured one first,
/// then the `--model` files, each once.
pub fn bench_models(configured: &str, extra: &Vec<String>) -> (r: Vec<String>)
    ensures
        r.deep_view() == dedup(seq![configured@] + extra.deep_view()),
{
    let mut all: Vec<String> = Vec::new();
    all.push(owned(configured));
    let mut i: usize = 0;
    while i < extra.len()
        invariant
            i <= extra.len(),
            all.deep_view() == seq![configured@] + extra.deep_view().take(i as int),
        decreases extra.len() - i,
    {
        let ghost a0 = all.deep_view();
        all.push(owned(extra[i].as_str()));
        assert(all.deep_view() =~= a0.push(extra.deep_view()[i as int]));
        assert(extra.deep_view().take(i + 1) =~= extra.deep_view().take(i as int).push(extra.deep_view()[i as int]));
        i = i + 1;
    }
    assert(extra.deep_view().take(extra.len() as int) =~= extra.deep_view());
    dedup_strings(&all)
}

/// Arguments of the child process that benchmarks one model or backend:
/// `hidden_command`, the recording, the candidate, and the reference
/// (`-` for none).
pub fn bench_child_args(hidden_command: &str, wav: &str, candidate: &str, reference: Option<&str>) -> (r: Vec<String>)
    ensures
        r.deep_view() == seq![
            hidden_command@,
            wav@,
            candidate@,
            match reference {
                Some(t) => t@,
                None => "-"@,
            },
        ],
{
    let mut r: Vec<String> = Vec::new();
    r.push(owned(hidden_command));
    r.push(owned(wav));
    r.push(owned(candidate));
    r.push(
        owned(
            match reference {
                Some(t) => t,
                None => "-",
            },
        ),
    );
    assert(r.deep_view() =~= seq![
        hidden_command@,
        wav@,
        candidate@,
        match reference {
            Some(t) => t@,
            None => "-"@,
        },
    ]);
    r
}

/// First lines of the benchmark report.
pub fn bench_header(wav: &str, has_reference: bool) -> (r: String)
    ensures
        r@ == "Dictation backend benchmark\naudio: "@ + wav@ + "\n"@ + (if has_reference {
            Seq::empty()
        } else {
            "quality: transcript shown for manual comparison; pass --reference or --reference-file for WER\n"@
        }),
{
    let head = concat3("Dictation backend benchmark\naudio: ", wav, "\n");
    if has_reference {
        assert(head@ + Seq::<char>::empty() =~= head@);
        head
    } else {
        concat2(
            head.as_str(),
            "quality: transcript shown for manual comparison; pass --reference or --reference-file for WER\n",
        )
    }
}

/// What `dictation status` prints.
pub open spec fn status_text(state: SessionState, backend: Seq<char>) -> Seq<char> {
    match state {
        SessionState::Listening => "on — listening (backend: "@ + backend + ")"@,
        SessionState::Dictating => "finishing — dictating final audio (backend: "@ + backend + ")"@,
        SessionState::Off => "off"@,
    }
}

pub fn status_line(state: SessionState, backend: &str) -> (r: String)
    ensures
        r@ == status_text(state, backend@),
{
    match state {
        SessionState::Listening => concat3("on — listening (backend: ", backend, ")"),
        SessionState::Dictating => concat3("finishing — dictating final audio (backend: ", backend, ")"),
        SessionState::Off => owned("off"),
    }
}

/// How `doctor` tells whether a typing backend can work.
#[derive(Debug, Clone, Copy)]
pub enum TypingProbe {
    /// The device node exists.
    Device(&'static str),
    /// The program starts with this argument.
    Program(&'static str, &'static str),
}

pub open spec fn typing_probe_of(b: TypingBackend) -> (Seq<char>, Option<Seq<char>>) {
    match b {
        TypingBackend::Uinput => ("/dev/uinput"@, None),
        TypingBackend::Wtype => ("wtype"@, Some("--version"@)),
        TypingBackend::Dotool => ("dotool"@, Some("--help"@)),
        TypingBackend::Ydotool => ("ydotool"@, Some("--help"@)),
        TypingBackend::Xdotool => ("xdotool"@, Some("--version"@)),
    }
}

pub fn typing_probe(b: TypingBackend) -> (r: TypingProbe)
    ensures
        match r {
            TypingProbe::Device(p) => typing_probe_of(b) == (p@, None::<Seq<char>>),
            TypingProbe::Program(p, a) => typing_probe_of(b) == (p@, Some(a@)),
        },
{
    match b {
        TypingBackend::Uinput => TypingProbe::Device("/dev/uinput"),
        TypingBackend::Wtype => TypingProbe::Program("wtype", "--version"),
        TypingBackend::Dotool => TypingProbe::Program("dotool", "--help"),
        TypingBackend::Ydotool => TypingProbe::Program("ydotool", "--help"),
        TypingBackend::Xdotool => TypingProbe::Program("xdotool", "--version"),
    }
}

/// One line of the `doctor` report.
pub open spec fn check_text(label: Seq<char>, ok: bool, detail: Seq<char>) -> Seq<char> {
    "["@ + (if ok { "ok"@ } else { "issue"@ }) + "] "@ + label + (if detail.len() == 0 {
        Seq::empty()
    } else {
        ": "@ + detail
    })
}

pub fn check_line(label: &str, ok: bool, detail: &str) -> (r: String)
    ensures
        r@ == check_text(label@, ok, detail@),
{
    let head = concat3("[", if ok { "ok" } else { "issue" }, "] ");
    let with_label = concat2(head.as_str(), label);
    if detail.is_empty() {
        assert(with_label@ + Seq::<char>::empty() =~= with_label@);
        with_label
    } else {
        let tail = concat2(": ", detail);
        let r = concat2(with_label.as_str(), tail.as_str());
        assert(r@ =~= check_text(label@, ok, detail@));
        r
    }
}

/// What `dictation config` asks for.
#[derive(Debug)]
pub enum ConfigCommand {
    /// Print the path of the config file.
    ShowPath,
    /// Validate the config file.
    Check,
    /// Anything else; exits with status 2.
    Unknown(String),
}

pub fn parse_config_command(args: &Vec<String>) -> (r: ConfigCommand)
    ensures
        match arg_spec(args.deep_view(), 2) {
            None => r is ShowPath,
            Some(a) => if a == "check"@ {
                r is Check
            } else {
                r matches ConfigCommand::Unknown(o) && o@ == a
            },
        },
{
    match arg_at(args, 2) {
        None => ConfigCommand::ShowPath,
        Some(a) => if str_eq(a.as_str(), "check") {
            ConfigCommand::Check
        } else {
            ConfigCommand::Unknown(a)
        },
    }
}

} // verus!
