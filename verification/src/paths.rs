//! XDG locations of the config file, the session markers and the models.
//!
//! The base directories come from the `dirs` crate and depend on the
//! environment; everything below them is fixed here.
use crate::text::{chars_of, join, join_path, owned, push_char, str_eq, string_of};
use vstd::prelude::*;

verus! {

/// `dirs::config_dir`, converted to a string. The answer depends on the
/// process environment (`XDG_CONFIG_HOME`, `HOME`), so nothing is stated
/// of it.
#[verifier::external_body]
fn os_config_dir() -> Option<String> {
    dirs::config_dir().map(|path| path.to_string_lossy().into_owned())
}

/// `dirs::cache_dir`, converted to a string. Environment-dependent
/// (`XDG_CACHE_HOME`, `HOME`); nothing is stated of it.
#[verifier::external_body]
fn os_cache_dir() -> Option<String> {
    dirs::cache_dir().map(|path| path.to_string_lossy().into_owned())
}

/// `dirs::data_dir`, converted to a string. Environment-dependent
/// (`XDG_DATA_HOME`, `HOME`); nothing is stated of it.
#[verifier::external_body]
fn os_data_dir() -> Option<String> {
    dirs::data_dir().map(|path| path.to_string_lossy().into_owned())
}

/// A base directory, or `/tmp` when the platform has none.
pub open spec fn base_or_tmp(dir: Option<Seq<char>>) -> Seq<char> {
    match dir {
        Some(d) => d,
        None => "/tmp"@,
    }
}

pub open spec fn opt_view(dir: Option<String>) -> Option<Seq<char>> {
    match dir {
        Some(d) => Some(d@),
        None => None,
    }
}

/// The directory itself, or `/tmp` when there is none.
pub fn dir_or_tmp(dir: Option<String>) -> (r: String)
    ensures
        r@ == base_or_tmp(opt_view(dir)),
{
    match dir {
        Some(d) => d,
        None => owned("/tmp"),
    }
}

/// `name` inside `dir` (or inside `/tmp` when there is no such directory).
pub fn file_in(dir: Option<String>, name: &str) -> (r: String)
    ensures
        r@ == join_path(base_or_tmp(opt_view(dir)), name@),
{
    let base = dir_or_tmp(dir);
    join(base.as_str(), name)
}

/// User config directory: `<config dir>/dictation`.
pub open spec fn config_dir_under(base: Option<Seq<char>>) -> Seq<char> {
    join_path(base_or_tmp(base), "dictation"@)
}

/// User config directory.
pub fn config_dir() -> (r: String)
    ensures
        exists|base: Option<Seq<char>>| r@ == config_dir_under(base),
{
    let d = os_config_dir();
    let ghost base = opt_view(d);
    let r = file_in(d, "dictation");
    assert(r@ == config_dir_under(base));
    r
}

/// Main TOML configuration file: `<config dir>/dictation/config.toml`.
pub fn config_path() -> (r: String)
    ensures
        exists|base: Option<Seq<char>>| r@ == join_path(config_dir_under(base), "config.toml"@),
{
    let d = config_dir();
    join(d.as_str(), "config.toml")
}

/// A file directly inside the cache directory.
pub fn cache_file(name: &str) -> (r: String)
    ensures
        exists|base: Option<Seq<char>>| r@ == join_path(base_or_tmp(base), name@),
{
    let d = os_cache_dir();
    let ghost base = opt_view(d);
    file_in(d, name)
}

/// Active-session marker shared by the CLI, daemon, and indicator.
pub fn state_path() -> (r: String)
    ensures
        exists|base: Option<Seq<char>>| r@ == join_path(base_or_tmp(base), "dictation-active"@),
{
    cache_file("dictation-active")
}

/// Pidfile of the native engine daemon, beside the active marker.
pub fn native_pid_path() -> (r: String)
    ensures
        exists|base: Option<Seq<char>>| r@ == join_path(base_or_tmp(base), "dictation-native.pid"@),
{
    cache_file("dictation-native.pid")
}

/// Busy flag: exists while the recognizer has an open speech segment.
pub fn busy_path() -> (r: String)
    ensures
        exists|base: Option<Seq<char>>| r@ == join_path(base_or_tmp(base), "dictation-busy"@),
{
    cache_file("dictation-busy")
}

/// Daemon log file, beside the active marker.
pub fn log_path() -> (r: String)
    ensures
        exists|base: Option<Seq<char>>| r@ == join_path(base_or_tmp(base), "dictation-native.log"@),
{
    cache_file("dictation-native.log")
}

/// Inter-process lock that serializes start, stop and toggle.
pub fn control_lock_path() -> (r: String)
    ensures
        exists|base: Option<Seq<char>>| r@ == join_path(
            base_or_tmp(base),
            "dictation-control.lock"@,
        ),
{
    cache_file("dictation-control.lock")
}

/// Default recording for the benchmark commands.
pub fn bench_wav_path() -> (r: String)
    ensures
        exists|base: Option<Seq<char>>| r@ == join_path(base_or_tmp(base), "dictation-bench.wav"@),
{
    cache_file("dictation-bench.wav")
}

/// The user's data directory (or `/tmp`).
pub fn data_dir() -> (r: String)
    ensures
        exists|base: Option<Seq<char>>| r@ == base_or_tmp(base),
{
    let d = os_data_dir();
    let ghost base = opt_view(d);
    dir_or_tmp(d)
}

/// Managed model directory: `<data dir>/dictation/models`.
pub fn models_root() -> (r: String)
    ensures
        exists|base: Option<Seq<char>>| r@ == join_path(base_or_tmp(base), "dictation/models"@),
{
    let d = os_data_dir();
    let ghost base = opt_view(d);
    file_in(d, "dictation/models")
}

/// Normal components collected so far, after the piece `cur` ends:
/// empty pieces and `.` pieces are not components.
pub open spec fn flush_part(names: Seq<Seq<char>>, cur: Seq<char>) -> Seq<Seq<char>> {
    if cur.len() == 0 || cur == seq!['.'] {
        names
    } else {
        names.push(cur)
    }
}

/// Components finished so far and the piece in progress, reading `s`
/// from the left.
pub open spec fn scan_parts(s: Seq<char>) -> (Seq<Seq<char>>, Seq<char>)
    decreases s.len(),
{
    if s.len() == 0 {
        (Seq::empty(), Seq::empty())
    } else {
        let (n, c) = scan_parts(s.drop_last());
        if s.last() == '/' {
            (flush_part(n, c), Seq::empty())
        } else {
            (n, c.push(s.last()))
        }
    }
}

/// The named components of `s` (`..` included, `.` and empty pieces not).
pub open spec fn path_names(s: Seq<char>) -> Seq<Seq<char>> {
    flush_part(scan_parts(s).0, scan_parts(s).1)
}

pub open spec fn path_rooted(s: Seq<char>) -> bool {
    s.len() > 0 && s[0] == '/'
}

/// A relative path that starts with a `.` component (`.` or `./..`).
pub open spec fn path_dotted(s: Seq<char>) -> bool {
    !path_rooted(s) && s.len() > 0 && s[0] == '.' && (s.len() == 1 || s[1] == '/')
}

/// `Path::components` on Unix, with the root written `/` and a leading
/// current-directory component written `.`.
pub open spec fn path_comps(s: Seq<char>) -> Seq<Seq<char>> {
    (if path_rooted(s) { seq![seq!['/']] } else { Seq::empty() }) + (if path_dotted(s) {
        seq![seq!['.']]
    } else {
        Seq::empty()
    }) + path_names(s)
}

/// `Path == Path`: the two name the same components.
pub open spec fn same_path(a: Seq<char>, b: Seq<char>) -> bool {
    path_comps(a) == path_comps(b)
}

/// `Path::starts_with`: the components of `base` begin those of `p`.
pub open spec fn path_starts_with(p: Seq<char>, base: Seq<char>) -> bool {
    path_comps(base).len() <= path_comps(p).len() && path_comps(p).take(
        path_comps(base).len() as int,
    ) == path_comps(base)
}

/// The named components of `s`.
fn names_of(s: &str) -> (r: Vec<String>)
    ensures
        r.deep_view() == path_names(s@),
{
    let v = chars_of(s);
    let mut names: Vec<String> = Vec::new();
    let mut cur: Vec<char> = Vec::new();
    let mut i: usize = 0;
    while i < v.len()
        invariant
            i <= v.len(),
            v@ == s@,
            (names.deep_view(), cur@) == scan_parts(v@.take(i as int)),
        decreases v.len() - i,
    {
        let ghost before = v@.take(i as int);
        let ghost n0 = names.deep_view();
        let ghost c0 = cur@;
        assert(v@.take(i + 1).drop_last() =~= before);
        assert(v@.take(i + 1).last() == v@[i as int]);
        if v[i] == '/' {
            if !(cur.len() == 0 || (cur.len() == 1 && cur[0] == '.')) {
                let piece = string_of(&cur);
                names.push(piece);
                proof {
                    if c0 =~= seq!['.'] {
                        assert(c0.len() == 1 && c0[0] == '.');
                    }
                    assert(names.deep_view() =~= n0.push(c0));
                }
            } else {
                proof {
                    if cur.len() == 1 && cur[0] == '.' {
                        assert(cur@ =~= seq!['.']);
                    }
                }
            }
            cur = Vec::new();
            assert(cur@ =~= Seq::<char>::empty());
        } else {
            cur.push(v[i]);
        }
        i = i + 1;
    }
    assert(v@.take(v.len() as int) =~= v@);
    let ghost n1 = names.deep_view();
    if !(cur.len() == 0 || (cur.len() == 1 && cur[0] == '.')) {
        let piece = string_of(&cur);
        names.push(piece);
        proof {
            if cur@ =~= seq!['.'] {
                assert(cur@.len() == 1 && cur@[0] == '.');
            }
            assert(names.deep_view() =~= n1.push(cur@));
        }
    } else {
        proof {
            if cur.len() == 1 && cur[0] == '.' {
                assert(cur@ =~= seq!['.']);
            }
        }
    }
    names
}

/// `Path::components` of `s`, as strings.
pub fn components(s: &str) -> (r: Vec<String>)
    ensures
        r.deep_view() == path_comps(s@),
{
    let v = chars_of(s);
    let rooted = v.len() > 0 && v[0] == '/';
    let dotted = !rooted && v.len() > 0 && v[0] == '.' && (v.len() == 1 || v[1] == '/');
    let mut r: Vec<String> = Vec::new();
    if rooted {
        r.push(owned_char('/'));
    }
    if dotted {
        r.push(owned_char('.'));
    }
    let ghost head = r.deep_view();
    let names = names_of(s);
    let mut i: usize = 0;
    while i < names.len()
        invariant
            i <= names.len(),
            r.deep_view() == head + names.deep_view().take(i as int),
        decreases names.len() - i,
    {
        let ghost r0 = r.deep_view();
        let piece = owned(names[i].as_str());
        r.push(piece);
        assert(r.deep_view() =~= r0.push(names.deep_view()[i as int]));
        assert(names.deep_view().take(i + 1) =~= names.deep_view().take(i as int).push(names.deep_view()[i as int]));
        assert(head + names.deep_view().take(i + 1) =~= (head + names.deep_view().take(i as int)).push(names.deep_view()[i as int]));
        i = i + 1;
    }
    assert(names.deep_view().take(names.len() as int) =~= names.deep_view());
    assert(head =~= (if path_rooted(s@) { seq![seq!['/']] } else { Seq::<Seq<char>>::empty() }) + (if path_dotted(s@) {
        seq![seq!['.']]
    } else {
        Seq::<Seq<char>>::empty()
    }));
    r
}

/// A one-character string.
fn owned_char(c: char) -> (r: String)
    ensures
        r@ == seq![c],
{
    let mut r = String::new();
    push_char(&mut r, c);
    r
}

/// Whether two component lists are equal.
fn same_strings(a: &Vec<String>, b: &Vec<String>, n: usize) -> (r: bool)
    requires
        n <= a.len(),
        n <= b.len(),
    ensures
        r == (a.deep_view().take(n as int) == b.deep_view().take(n as int)),
{
    let mut i: usize = 0;
    while i < n
        invariant
            i <= n <= a.len(),
            n <= b.len(),
            a.deep_view().take(i as int) == b.deep_view().take(i as int),
        decreases n - i,
    {
        if !str_eq(a[i].as_str(), b[i].as_str()) {
            assert(a.deep_view().take(n as int)[i as int] != b.deep_view().take(n as int)[i as int]);
            return false;
        }
        assert(a.deep_view().take(i + 1) =~= b.deep_view().take(i + 1));
        i = i + 1;
    }
    true
}

/// `Path::new(a) == Path::new(b)`.
pub fn paths_equal(a: &str, b: &str) -> (r: bool)
    ensures
        r == same_path(a@, b@),
{
    let ca = components(a);
    let cb = components(b);
    if ca.len() != cb.len() {
        return false;
    }
    let r = same_strings(&ca, &cb, ca.len());
    assert(ca.deep_view().take(ca.len() as int) =~= ca.deep_view());
    assert(cb.deep_view().take(cb.len() as int) =~= cb.deep_view());
    r
}

/// `Path::new(p).starts_with(base)`.
pub fn path_has_base(p: &str, base: &str) -> (r: bool)
    ensures
        r == path_starts_with(p@, base@),
{
    let cp = components(p);
    let cb = components(base);
    if cb.len() > cp.len() {
        return false;
    }
    let r = same_strings(&cp, &cb, cb.len());
    assert(cb.deep_view().take(cb.len() as int) =~= cb.deep_view());
    r
}

} // verus!
