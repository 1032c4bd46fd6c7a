use dictation::config::TypingBackend;
use dictation::inject::tools::{self, SessionEnv};
use dictation::inject::{
    dotool_backspace_script, dotool_revise_script, dotool_type_script, wtype_argv,
    wtype_backspace_argv, xdotool_backspace_argv, xdotool_revise_argv, xdotool_type_argv,
    ydotool_backspace_argv, ydotool_type_argv, ErrorKind, Fallback, InjectError, MakeTyper, Typer,
};
use std::cell::RefCell;
use std::path::Path;
use std::rc::Rc;

/// Records every operation; `fail` simulates a dead tool.
struct Spy {
    label: &'static str,
    fail: bool,
    calls: Rc<RefCell<Vec<String>>>,
}

impl Spy {
    fn result(&self) -> Result<(), InjectError> {
        if self.fail {
            Err(InjectError::new(ErrorKind::Other, "daemon is gone".to_string()))
        } else {
            Ok(())
        }
    }
}

impl Typer for Spy {
    fn type_text(&mut self, text: &str) -> Result<(), InjectError> {
        self.calls.borrow_mut().push(format!("type {text}"));
        self.result()
    }

    fn backspace(&mut self, n: usize) -> Result<(), InjectError> {
        self.calls.borrow_mut().push(format!("back {n}"));
        self.result()
    }

    fn name(&self) -> &'static str {
        self.label
    }
}

fn spy(label: &'static str, fail: bool) -> (Spy, Rc<RefCell<Vec<String>>>) {
    let calls = Rc::new(RefCell::new(Vec::new()));
    (
        Spy {
            label,
            fail,
            calls: calls.clone(),
        },
        calls,
    )
}

/// A factory that must never run: the fallback is either unnecessary or
/// already built.
struct Never;

impl MakeTyper for Never {
    type Output = Spy;

    fn make(&mut self) -> Result<Spy, InjectError> {
        panic!("fallback must stay lazy")
    }
}

/// Hands out its spy once, counting the builds.
struct Once {
    builds: Rc<RefCell<usize>>,
    made: Option<Spy>,
}

impl MakeTyper for Once {
    type Output = Spy;

    fn make(&mut self) -> Result<Spy, InjectError> {
        *self.builds.borrow_mut() += 1;
        Ok(self.made.take().expect("fallback built at most once"))
    }
}

#[test]
fn default_revise_backspaces_then_types() {
    let (mut tool, calls) = spy("tool", false);
    tool.revise(2, "next").unwrap();
    assert_eq!(calls.borrow().as_slice(), ["back 2", "type next"]);
    tool.revise(0, "").unwrap();
    assert_eq!(calls.borrow().len(), 2);
}

#[test]
fn healthy_primary_never_touches_the_fallback() {
    let (primary, pcalls) = spy("tool", false);
    let mut fb = Fallback {
        primary,
        fallback: None,
        switched: false,
        make_fallback: Never,
    };
    fb.type_text("hello").unwrap();
    fb.backspace(2).unwrap();
    assert!(!fb.switched);
    assert_eq!(fb.name(), "tool");
    assert_eq!(pcalls.borrow().as_slice(), ["type hello", "back 2"]);
}

#[test]
fn first_failure_switches_permanently_to_the_fallback() {
    let (primary, pcalls) = spy("tool", true);
    let (fallback, fcalls) = spy("uinput", false);
    let mut fb = Fallback {
        primary,
        fallback: Some(fallback),
        switched: false,
        make_fallback: Never,
    };
    fb.type_text("hello").unwrap();
    assert_eq!(pcalls.borrow().as_slice(), ["type hello"]);
    assert_eq!(fcalls.borrow().as_slice(), ["type hello"]);
    assert!(fb.switched);
    assert_eq!(fb.name(), "uinput");
    fb.type_text("world").unwrap();
    fb.backspace(1).unwrap();
    assert_eq!(pcalls.borrow().len(), 1);
    assert_eq!(
        fcalls.borrow().as_slice(),
        ["type hello", "type world", "back 1"]
    );
}

#[test]
fn a_failing_fallback_surfaces_the_error() {
    let (primary, _) = spy("tool", true);
    let (fallback, _) = spy("uinput", true);
    let mut fb = Fallback {
        primary,
        fallback: Some(fallback),
        switched: false,
        make_fallback: Never,
    };
    let err = fb.type_text("attempted").unwrap_err();
    assert!(err.to_string().contains("daemon is gone"), "{}", err.to_string());
}

#[test]
fn the_fallback_device_is_built_once_on_first_failure() {
    let (primary, _) = spy("tool", true);
    let (fallback, fcalls) = spy("uinput", false);
    let builds = Rc::new(RefCell::new(0usize));
    let mut fb = Fallback {
        primary,
        fallback: None,
        switched: false,
        make_fallback: Once {
            builds: builds.clone(),
            made: Some(fallback),
        },
    };
    fb.type_text("a").unwrap();
    fb.type_text("b").unwrap();
    assert_eq!(*builds.borrow(), 1);
    assert_eq!(fcalls.borrow().as_slice(), ["type a", "type b"]);
}

#[test]
fn text_backends_keep_the_utterance_out_of_argv() {
    assert_eq!(wtype_argv(), ["-"]);
    assert_eq!(ydotool_type_argv(), ["type", "-f", "-"]);
    assert_eq!(
        xdotool_type_argv("-n 'quoted' text"),
        ["type", "--clearmodifiers", "--", "-n 'quoted' text"]
    );
}

#[test]
fn backspace_is_one_key_per_character() {
    assert!(wtype_backspace_argv(0).is_empty());
    assert_eq!(
        wtype_backspace_argv(2),
        [
            "-P",
            "BackSpace",
            "-p",
            "BackSpace",
            "-P",
            "BackSpace",
            "-p",
            "BackSpace"
        ]
    );
    assert_eq!(
        ydotool_backspace_argv(2),
        ["key", "14:1", "14:0", "14:1", "14:0"]
    );
    assert_eq!(
        xdotool_backspace_argv(2),
        ["key", "--clearmodifiers", "BackSpace", "BackSpace"]
    );
}

#[test]
fn dotool_script_encodes_lines_as_actions() {
    assert_eq!(dotool_type_script(""), "");
    assert_eq!(dotool_type_script("hello world"), "type hello world\n");
    assert_eq!(dotool_type_script("-x \"quoted\""), "type -x \"quoted\"\n");
    assert_eq!(
        dotool_type_script("one\ntwo"),
        "type one\nkey enter\ntype two\n"
    );
    assert_eq!(
        dotool_type_script("one\r\ntwo"),
        "type one\nkey enter\ntype two\n"
    );
    assert_eq!(dotool_type_script("one\n"), "type one\nkey enter\n");
    assert_eq!(
        dotool_type_script("one\n\n\n"),
        "type one\nkey enter\nkey enter\nkey enter\n"
    );
    assert_eq!(
        dotool_backspace_script(3),
        "key backspace\nkey backspace\nkey backspace\n"
    );
}

#[test]
fn revise_batches_backspace_and_text_into_one_call() {
    assert_eq!(
        dotool_revise_script(2, "new text"),
        "key backspace\nkey backspace\ntype new text\n"
    );
    assert_eq!(dotool_revise_script(0, "new"), "type new\n");
    assert_eq!(dotool_revise_script(1, ""), "key backspace\n");
    assert_eq!(dotool_revise_script(0, ""), "");

    assert_eq!(
        xdotool_revise_argv(2, "new"),
        [
            "key",
            "--clearmodifiers",
            "BackSpace",
            "BackSpace",
            "type",
            "--clearmodifiers",
            "--",
            "new"
        ]
    );
    assert_eq!(
        xdotool_revise_argv(0, "new"),
        ["type", "--clearmodifiers", "--", "new"]
    );
    assert_eq!(
        xdotool_revise_argv(2, ""),
        ["key", "--clearmodifiers", "BackSpace", "BackSpace"]
    );
    assert!(xdotool_revise_argv(0, "").is_empty());
}

#[test]
fn resolve_reports_missing_programs() {
    let program = "./definitely-not-installed";
    let candidates = tools::candidates(program, "");
    let present: Vec<bool> = candidates.iter().map(|c| Path::new(c).is_file()).collect();
    let err = tools::resolve(program, &candidates, &present).unwrap_err();
    assert_eq!(err.kind(), ErrorKind::NotFound);
    assert!(err.to_string().contains("not installed"), "{}", err.to_string());
}

#[test]
fn create_rejects_the_in_process_backend() {
    let env = SessionEnv {
        wayland_display: true,
        x_display: true,
        uinput_device: true,
    };
    match tools::create(TypingBackend::Uinput, Ok("uinput".to_string()), env) {
        Ok(_) => panic!("uinput is not an external tool"),
        Err(e) => assert_eq!(e.kind(), ErrorKind::InvalidInput),
    }
}

#[test]
fn path_search_joins_each_directory() {
    assert_eq!(
        tools::candidates("wtype", "/usr/bin:/bin"),
        ["/usr/bin/wtype", "/bin/wtype"]
    );
    assert_eq!(tools::candidates("/opt/x/wtype", "/usr/bin"), ["/opt/x/wtype"]);
    let c = vec!["/a/x".to_string(), "/b/x".to_string(), "/c/x".to_string()];
    assert_eq!(tools::resolve("x", &c, &[false, true, true].to_vec()).unwrap(), "/b/x");
}

#[test]
fn a_failed_tool_reports_its_status_and_stderr() {
    let e = tools::exit_failure("ydotool", "exit status: 3", "  socket is not there\n");
    assert_eq!(e.kind(), ErrorKind::Other);
    assert_eq!(e.to_string(), "ydotool exited with exit status: 3: socket is not there");
    let e = tools::exit_failure("wtype", "exit status: 1", " \n");
    assert_eq!(e.to_string(), "wtype exited with exit status: 1: no stderr");
}

#[test]
fn every_printable_ascii_character_has_a_key() {
    for c in ' '..='~' {
        let (key, _) = dictation::inject::uinput::lookup(c).expect("printable ASCII is mapped");
        assert_ne!(key, dictation::inject::uinput::KEY_RESERVED, "{c:?}");
    }
    assert_eq!(dictation::inject::uinput::lookup('{'), Some((26, true)));
    assert_eq!(dictation::inject::uinput::lookup('|'), Some((43, true)));
    assert_eq!(dictation::inject::uinput::lookup('}'), Some((27, true)));
    assert_eq!(dictation::inject::uinput::lookup('Q'), Some((16, true)));
    assert_eq!(dictation::inject::uinput::lookup('q'), Some((16, false)));
    assert_eq!(dictation::inject::uinput::lookup('\u{e9}'), None);
}
