//! The questions that the reports ask of the machine: which commands are
//! looked up, which environment variables are shown, and the small Python
//! programs that describe the interpreter and a package.
use vstd::prelude::*;

verus! {

/// The program that makes the interpreter describe itself, one
/// "Name : value" line per fact.
pub const RUNTIME_DETAILS_SCRIPT: &'static str = "
import sys, platform, site, sysconfig
print(f\"Python        : {sys.version.split()[0]}\")
print(f\"Executable    : {sys.executable}\")
print(f\"Prefix        : {sys.prefix}\")
print(f\"Base Prefix   : {getattr(sys, 'base_prefix', sys.prefix)}\")
print(f\"Venv Actif    : {sys.prefix != getattr(sys, 'base_prefix', sys.prefix)}\")
print(f\"Platform      : {platform.platform()}\")
print(f\"Arch          : {platform.machine()}\")
print(f\"Stdlib        : {sysconfig.get_path('stdlib')}\")
print(f\"Site-packages : {', '.join(site.getsitepackages()) if hasattr(site, 'getsitepackages') else 'n/a'}\")
print(f\"User site     : {site.getusersitepackages()}\")
print(f\"Default enc   : {sys.getdefaultencoding()}\")
";

/// The program that prints the console scripts of the distribution named
/// by its first argument (compared in small letters), one per line, sorted
/// without regard to case.
pub const CONSOLE_SCRIPTS_SCRIPT: &'static str = "
import sys
pkg = sys.argv[1]
try:
    import importlib.metadata as md
except Exception:
    raise SystemExit(0)

dist = None
needle = pkg.lower()
for d in md.distributions():
    name = (d.metadata.get(\"Name\") or \"\").strip()
    if name.lower() == needle:
        dist = d
        break

if dist is None:
    raise SystemExit(0)

names = sorted({ep.name for ep in dist.entry_points if ep.group == \"console_scripts\"}, key=str.lower)
for name in names:
    print(name)
";

/// The commands whose every occurrence along `PATH` the report lists, in
/// order.
pub open spec fn probed_names() -> Seq<Seq<char>> {
    seq!["python3"@, "python"@, "pip3"@, "pip"@]
}

/// The environment variables that the report shows, in order.
pub open spec fn watched_names() -> Seq<Seq<char>> {
    seq![
        "VIRTUAL_ENV"@,
        "CONDA_PREFIX"@,
        "CONDA_DEFAULT_ENV"@,
        "PYENV_VERSION"@,
        "PYENV_ROOT"@,
        "PIP_REQUIRE_VIRTUALENV"@,
        "PIP_CONFIG_FILE"@,
        "PYTHONPATH"@,
    ]
}

/// The commands whose every occurrence along `PATH` the report lists, in
/// order.
pub fn probed_commands() -> (r: Vec<&'static str>)
    ensures
        r.deep_view() == probed_names(),
{
    let mut r: Vec<&'static str> = Vec::new();
    r.push("python3");
    r.push("python");
    r.push("pip3");
    r.push("pip");
    assert(r.deep_view() =~= probed_names());
    r
}

/// The environment variables that the report shows, in order.
pub fn watched_env_vars() -> (r: Vec<&'static str>)
    ensures
        r.deep_view() == watched_names(),
{
    let mut r: Vec<&'static str> = Vec::new();
    r.push("VIRTUAL_ENV");
    r.push("CONDA_PREFIX");
    r.push("CONDA_DEFAULT_ENV");
    r.push("PYENV_VERSION");
    r.push("PYENV_ROOT");
    r.push("PIP_REQUIRE_VIRTUALENV");
    r.push("PIP_CONFIG_FILE");
    r.push("PYTHONPATH");
    assert(r.deep_view() =~= watched_names());
    r
}

/// The zsh command that lists every occurrence of `name`, and prints
/// nothing (successfully) when there is none.
pub fn type_query(name: &str) -> (r: String)
    ensures
        r@ == "type -a "@ + name@ + " 2>/dev/null || true"@,
{
    let mut r = "type -a ".to_owned();
    r.append(name);
    r.append(" 2>/dev/null || true");
    r
}

} // verus!
