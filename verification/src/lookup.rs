//! Finding programs: the candidates that a `PATH` search tries, the choice
//! among them, the interpreter to use, the shell that runs `type -a`, and
//! the description of the operating system.
use vstd::prelude::*;

use crate::text::{
    chars_of, contains, contains_chars, lemma_chars_deep_view, push_chars, split,
    split_chars, str_eq,
};

verus! {

/// The path that a search tries for `cmd` in the directory `dir`.
pub open spec fn candidate(dir: Seq<char>, cmd: Seq<char>) -> Seq<char> {
    dir + "/"@ + cmd
}

/// The paths that a search for `cmd` tries, one per entry of `path` (the
/// value of `PATH`, split at ':'), in order.
pub open spec fn candidates(path: Seq<char>, cmd: Seq<char>) -> Seq<Seq<char>> {
    split(path, ':').map_values(|d: Seq<char>| candidate(d, cmd))
}

/// The paths that a search for `cmd` along `path` tries, in order.
pub fn command_candidates(path: &str, cmd: &str) -> (r: Vec<String>)
    ensures
        r.deep_view() == candidates(path@, cmd@),
{
    let dirs = split_chars(&chars_of(path), ':');
    let ghost dv = dirs.deep_view();
    let ghost want = candidates(path@, cmd@);
    let mut out: Vec<String> = Vec::new();
    let n = dirs.len();
    for i in 0..n
        invariant
            n == dirs@.len(),
            dv == dirs.deep_view(),
            dv == split(path@, ':'),
            want == candidates(path@, cmd@),
            out.deep_view() == want.take(i as int),
    {
        let ghost before = out.deep_view();
        proof {
            lemma_chars_deep_view(dirs@[i as int]);
        }
        let mut c = String::new();
        push_chars(&mut c, &dirs[i]);
        c.append("/");
        c.append(cmd);
        out.push(c);
        assert(out.deep_view() =~= before.push(want[i as int]));
        assert(want.take(i + 1) =~= want.take(i as int).push(want[i as int]));
    }
    assert(want.take(n as int) =~= want);
    out
}

/// The first candidate that is a file: `found[i]` tells whether
/// `candidates[i]` is one. `None` when none is.
pub fn command_path(candidates: &Vec<String>, found: &Vec<bool>) -> (r: Option<String>)
    requires
        found@.len() == candidates@.len(),
    ensures
        r is None <==> forall|i: int| 0 <= i < found@.len() ==> !found@[i],
        r matches Some(p) ==> exists|i: int|
            0 <= i < found@.len() && found@[i] && p@ == candidates@[i]@ && forall|j: int|
                0 <= j < i ==> !found@[j],
{
    let n = found.len();
    for i in 0..n
        invariant
            n == found@.len() == candidates@.len(),
            forall|j: int| 0 <= j < i ==> !found@[j],
    {
        if found[i] {
            let p = candidates[i].clone();
            assert(found@[i as int] && p@ == candidates@[i as int]@);
            return Some(p);
        }
    }
    None
}

/// Whether `cmd` can be run: a name with a '/' is a path and must be a file
/// (`cmd_is_file`), any other name must be found along `PATH`
/// (`found_on_path`).
pub fn command_exists(cmd: &str, cmd_is_file: bool, found_on_path: bool) -> (b: bool)
    ensures
        b == if contains(cmd@, "/"@) {
            cmd_is_file
        } else {
            found_on_path
        },
{
    if contains_chars(&chars_of(cmd), &chars_of("/")) {
        cmd_is_file
    } else {
        found_on_path
    }
}

/// The interpreter to use: python3 when it exists, else python, else none.
pub fn detect_python_bin(python3_exists: bool, python_exists: bool) -> (r: Option<String>)
    ensures
        python3_exists ==> (r matches Some(p) && p@ == "python3"@),
        !python3_exists && python_exists ==> (r matches Some(p) && p@ == "python"@),
        !python3_exists && !python_exists ==> r is None,
{
    if python3_exists {
        Some("python3".to_owned())
    } else if python_exists {
        Some("python".to_owned())
    } else {
        None
    }
}

/// The login shell to try first: `SHELL`, or /bin/zsh when it is unset.
pub open spec fn shell_or_default(shell_var: Option<Seq<char>>) -> Seq<char> {
    match shell_var {
        Some(s) => s,
        None => "/bin/zsh"@,
    }
}

/// The login shell to try first: `SHELL`, or /bin/zsh when it is unset.
pub fn zsh_candidate(shell_var: Option<&str>) -> (r: String)
    ensures
        r@ == shell_or_default(
            match shell_var {
                Some(s) => Some(s@),
                None => None,
            },
        ),
{
    match shell_var {
        Some(s) => s.to_owned(),
        None => "/bin/zsh".to_owned(),
    }
}

/// The zsh to run: the login shell `shell` when its path mentions zsh and it
/// is a file, else /bin/zsh when that is a file, else "zsh" from `PATH`.
pub fn resolve_zsh(shell: &str, shell_is_file: bool, bin_zsh_is_file: bool) -> (r: String)
    ensures
        contains(shell@, "zsh"@) && shell_is_file ==> r@ == shell@,
        !(contains(shell@, "zsh"@) && shell_is_file) && bin_zsh_is_file ==> r@ == "/bin/zsh"@,
        !(contains(shell@, "zsh"@) && shell_is_file) && !bin_zsh_is_file ==> r@ == "zsh"@,
{
    if contains_chars(&chars_of(shell), &chars_of("zsh")) && shell_is_file {
        shell.to_owned()
    } else if bin_zsh_is_file {
        "/bin/zsh".to_owned()
    } else {
        "zsh".to_owned()
    }
}

/// Where the version of the operating system comes from.
#[derive(PartialEq, Eq, Structural, Clone, Copy, Debug)]
pub enum VersionSource {
    /// `sw_vers -productVersion`, on macOS.
    ProductVersion,
    /// The `PRETTY_NAME` of `/etc/os-release`, on Linux.
    OsRelease,
    /// Nowhere: the version is shown as unknown.
    Unknown,
}

/// Where the version of the system that `uname -s` calls `os` comes from.
pub open spec fn version_source(os: Seq<char>) -> VersionSource {
    if os == "Darwin"@ {
        VersionSource::ProductVersion
    } else if os == "Linux"@ {
        VersionSource::OsRelease
    } else {
        VersionSource::Unknown
    }
}

/// Where the version of the system that `uname -s` calls `os` comes from.
pub fn os_version_source(os: &str) -> (r: VersionSource)
    ensures
        r == version_source(os@),
{
    if str_eq(os, "Darwin") {
        VersionSource::ProductVersion
    } else if str_eq(os, "Linux") {
        VersionSource::OsRelease
    } else {
        VersionSource::Unknown
    }
}

/// The name, version and architecture shown for the system: Darwin is shown
/// as macOS and Linux as Linux, each with the version read from its source
/// ("unknown" when that gave nothing); any other system keeps its name and
/// has an unknown version.
pub open spec fn system_description(os: Seq<char>, arch: Seq<char>, version: Option<Seq<char>>) -> (
    Seq<char>,
    Seq<char>,
    Seq<char>,
) {
    let v = match version {
        Some(v) => v,
        None => "unknown"@,
    };
    match version_source(os) {
        VersionSource::ProductVersion => ("macOS"@, v, arch),
        VersionSource::OsRelease => ("Linux"@, v, arch),
        VersionSource::Unknown => (os, "unknown"@, arch),
    }
}

/// The name, version and architecture shown for the system, given what
/// `uname -s` and `uname -m` printed and the version that
/// `os_version_source` pointed to.
pub fn detect_system_context(os: &str, arch: &str, version: Option<&str>) -> (r: (
    String,
    String,
    String,
))
    ensures
        (r.0@, r.1@, r.2@) == system_description(
            os@,
            arch@,
            match version {
                Some(v) => Some(v@),
                None => None,
            },
        ),
{
    let v = match version {
        Some(v) => v.to_owned(),
        None => "unknown".to_owned(),
    };
    match os_version_source(os) {
        VersionSource::ProductVersion => ("macOS".to_owned(), v, arch.to_owned()),
        VersionSource::OsRelease => ("Linux".to_owned(), v, arch.to_owned()),
        VersionSource::Unknown => (os.to_owned(), "unknown".to_owned(), arch.to_owned()),
    }
}

} // verus!
