//! The programs that the reports run, with their arguments, and the
//! conditions under which each one runs: a tool's commands only when the
//! tool is installed, pip's only when `-m pip -V` succeeds, and every
//! question about packages through the active interpreter.
use vstd::prelude::*;

use crate::queries::{type_query, CONSOLE_SCRIPTS_SCRIPT, RUNTIME_DETAILS_SCRIPT};

verus! {

/// A program and its arguments.
pub struct CommandLine {
    pub program: String,
    pub args: Vec<String>,
}

/// Whether `c` runs `program` with `args`.
pub open spec fn runs(c: CommandLine, program: Seq<char>, args: Seq<Seq<char>>) -> bool {
    c.program@ == program && c.args.deep_view() == args
}

impl CommandLine {
    /// `program` with no argument yet.
    pub fn new(program: &str) -> (c: CommandLine)
        ensures
            runs(c, program@, Seq::empty()),
    {
        let c = CommandLine { program: program.to_owned(), args: Vec::new() };
        assert(c.args.deep_view() =~= Seq::<Seq<char>>::empty());
        c
    }

    /// `self` with `arg` added at the end.
    pub fn arg(self, arg: &str) -> (c: CommandLine)
        ensures
            c.program@ == self.program@,
            c.args.deep_view() == self.args.deep_view().push(arg@),
    {
        let ghost before = self.args.deep_view();
        let mut c = self;
        c.args.push(arg.to_owned());
        assert(c.args.deep_view() =~= before.push(arg@));
        c
    }
}

/// The tools that the reports look for.
#[derive(PartialEq, Eq, Structural, Clone, Copy, Debug)]
pub enum Tool {
    Pyenv,
    Conda,
    Pipx,
    Uv,
    Poetry,
    Pipenv,
    Brew,
}

/// The program of a tool.
pub open spec fn tool_name(t: Tool) -> Seq<char> {
    match t {
        Tool::Pyenv => "pyenv"@,
        Tool::Conda => "conda"@,
        Tool::Pipx => "pipx"@,
        Tool::Uv => "uv"@,
        Tool::Poetry => "poetry"@,
        Tool::Pipenv => "pipenv"@,
        Tool::Brew => "brew"@,
    }
}

impl Tool {
    /// The program of the tool, whose presence along `PATH` decides whether
    /// its commands run.
    pub fn program(self) -> (r: &'static str)
        ensures
            r@ == tool_name(self),
    {
        match self {
            Tool::Pyenv => "pyenv",
            Tool::Conda => "conda",
            Tool::Pipx => "pipx",
            Tool::Uv => "uv",
            Tool::Poetry => "poetry",
            Tool::Pipenv => "pipenv",
            Tool::Brew => "brew",
        }
    }
}

/// `program` with one argument.
fn command1(program: &str, a: &str) -> (c: CommandLine)
    ensures
        runs(c, program@, seq![a@]),
{
    let c = CommandLine::new(program).arg(a);
    assert(c.args.deep_view() =~= seq![a@]);
    c
}

/// `program` with two arguments.
fn command2(program: &str, a: &str, b: &str) -> (c: CommandLine)
    ensures
        runs(c, program@, seq![a@, b@]),
{
    let c = CommandLine::new(program).arg(a).arg(b);
    assert(c.args.deep_view() =~= seq![a@, b@]);
    c
}

/// `program` with three arguments.
fn command3(program: &str, a: &str, b: &str, d: &str) -> (c: CommandLine)
    ensures
        runs(c, program@, seq![a@, b@, d@]),
{
    let c = CommandLine::new(program).arg(a).arg(b).arg(d);
    assert(c.args.deep_view() =~= seq![a@, b@, d@]);
    c
}

/// `program` with four arguments.
fn command4(program: &str, a: &str, b: &str, d: &str, e: &str) -> (c: CommandLine)
    ensures
        runs(c, program@, seq![a@, b@, d@, e@]),
{
    let c = CommandLine::new(program).arg(a).arg(b).arg(d).arg(e);
    assert(c.args.deep_view() =~= seq![a@, b@, d@, e@]);
    c
}

// ---------------------------------------------------------------------------
// The report on a package
// ---------------------------------------------------------------------------

/// What the report on a package runs.
pub struct PackageCommands {
    /// `<python> -m pip show <package>`.
    pub pip_show: CommandLine,
    /// `<python> -c <script> <package>`.
    pub console_scripts: CommandLine,
    /// `pipx list --short`, when pipx is installed.
    pub pipx_list: Option<CommandLine>,
    /// `uv tool list`, when uv is installed.
    pub uv_list: Option<CommandLine>,
}

/// The commands of the report on `package`: pip and the console-script
/// query go through the active interpreter `python`; pipx and uv are asked
/// only when installed.
pub fn package_commands(python: &str, package: &str, pipx_installed: bool, uv_installed: bool) -> (r:
    PackageCommands)
    ensures
        runs(r.pip_show, python@, seq!["-m"@, "pip"@, "show"@, package@]),
        runs(r.console_scripts, python@, seq!["-c"@, CONSOLE_SCRIPTS_SCRIPT@, package@]),
        r.pip_show.program@ == python@ && r.console_scripts.program@ == python@,
        pipx_installed <==> r.pipx_list is Some,
        r.pipx_list matches Some(c) ==> runs(c, "pipx"@, seq!["list"@, "--short"@]),
        uv_installed <==> r.uv_list is Some,
        r.uv_list matches Some(c) ==> runs(c, "uv"@, seq!["tool"@, "list"@]),
{
    PackageCommands {
        pip_show: command4(python, "-m", "pip", "show", package),
        console_scripts: command3(python, "-c", CONSOLE_SCRIPTS_SCRIPT, package),
        pipx_list: if pipx_installed {
            Some(command2("pipx", "list", "--short"))
        } else {
            None
        },
        uv_list: if uv_installed {
            Some(command2("uv", "tool", "list"))
        } else {
            None
        },
    }
}

// ---------------------------------------------------------------------------
// The report on the environment
// ---------------------------------------------------------------------------

/// What is asked of the active interpreter.
pub struct PythonCommands {
    /// `<python> -V`.
    pub version: CommandLine,
    /// `<python> -c <script>`.
    pub runtime: CommandLine,
    /// `<python> -m pip -V`: whether pip works, and its version line.
    pub pip_check: CommandLine,
}

/// What is asked of the active interpreter `python`.
pub fn python_commands(python: &str) -> (r: PythonCommands)
    ensures
        runs(r.version, python@, seq!["-V"@]),
        runs(r.runtime, python@, seq!["-c"@, RUNTIME_DETAILS_SCRIPT@]),
        runs(r.pip_check, python@, seq!["-m"@, "pip"@, "-V"@]),
{
    PythonCommands {
        version: command1(python, "-V"),
        runtime: command2(python, "-c", RUNTIME_DETAILS_SCRIPT),
        pip_check: command3(python, "-m", "pip", "-V"),
    }
}

/// What is asked of pip.
pub struct PipCommands {
    /// `<python> -m pip -V`.
    pub version_line: CommandLine,
    /// `<python> -m pip config list`.
    pub config: CommandLine,
}

/// What is asked of pip, only when `<python> -m pip -V` succeeded
/// (`pip_works`).
pub fn pip_commands(python: &str, pip_works: bool) -> (r: Option<PipCommands>)
    ensures
        pip_works <==> r is Some,
        r matches Some(c) ==> runs(c.version_line, python@, seq!["-m"@, "pip"@, "-V"@]) && runs(
            c.config,
            python@,
            seq!["-m"@, "pip"@, "config"@, "list"@],
        ),
{
    if pip_works {
        Some(
            PipCommands {
                version_line: command3(python, "-m", "pip", "-V"),
                config: command4(python, "-m", "pip", "config", "list"),
            },
        )
    } else {
        None
    }
}

/// The installed packages are listed only when `<python> -m pip -V`
/// succeeded (`pip_works`).
pub fn installed_packages_command(python: &str, pip_works: bool) -> (r: Option<CommandLine>)
    ensures
        pip_works <==> r is Some,
        r matches Some(c) ==> runs(c, python@, seq!["-m"@, "pip"@, "list"@, "--format=columns"@]),
{
    if pip_works {
        Some(command4(python, "-m", "pip", "list", "--format=columns"))
    } else {
        None
    }
}

/// What is asked of pyenv.
pub struct PyenvCommands {
    pub version: CommandLine,
    pub root: CommandLine,
    pub active: CommandLine,
    pub versions: CommandLine,
}

/// What is asked of pyenv, only when it is installed.
pub fn pyenv_commands(installed: bool) -> (r: Option<PyenvCommands>)
    ensures
        installed <==> r is Some,
        r matches Some(c) ==> {
            &&& runs(c.version, "pyenv"@, seq!["--version"@])
            &&& runs(c.root, "pyenv"@, seq!["root"@])
            &&& runs(c.active, "pyenv"@, seq!["version-name"@])
            &&& runs(c.versions, "pyenv"@, seq!["versions"@, "--bare"@])
        },
{
    if installed {
        Some(
            PyenvCommands {
                version: command1("pyenv", "--version"),
                root: command1("pyenv", "root"),
                active: command1("pyenv", "version-name"),
                versions: command2("pyenv", "versions", "--bare"),
            },
        )
    } else {
        None
    }
}

/// What is asked of pipx.
pub struct PipxCommands {
    pub version: CommandLine,
    pub short_list: CommandLine,
    pub bin_dir: CommandLine,
}

/// What is asked of pipx, only when it is installed.
pub fn pipx_commands(installed: bool) -> (r: Option<PipxCommands>)
    ensures
        installed <==> r is Some,
        r matches Some(c) ==> {
            &&& runs(c.version, "pipx"@, seq!["--version"@])
            &&& runs(c.short_list, "pipx"@, seq!["list"@, "--short"@])
            &&& runs(c.bin_dir, "pipx"@, seq!["environment"@, "--value"@, "PIPX_BIN_DIR"@])
        },
{
    if installed {
        Some(
            PipxCommands {
                version: command1("pipx", "--version"),
                short_list: command2("pipx", "list", "--short"),
                bin_dir: command3("pipx", "environment", "--value", "PIPX_BIN_DIR"),
            },
        )
    } else {
        None
    }
}

/// What is asked of uv.
pub struct UvCommands {
    pub version: CommandLine,
    pub tool_dir: CommandLine,
    pub tool_list: CommandLine,
}

/// What is asked of uv, only when it is installed.
pub fn uv_commands(installed: bool) -> (r: Option<UvCommands>)
    ensures
        installed <==> r is Some,
        r matches Some(c) ==> {
            &&& runs(c.version, "uv"@, seq!["--version"@])
            &&& runs(c.tool_dir, "uv"@, seq!["tool"@, "dir"@])
            &&& runs(c.tool_list, "uv"@, seq!["tool"@, "list"@])
        },
{
    if installed {
        Some(
            UvCommands {
                version: command1("uv", "--version"),
                tool_dir: command2("uv", "tool", "dir"),
                tool_list: command2("uv", "tool", "list"),
            },
        )
    } else {
        None
    }
}

/// `<tool> --version`, only when the tool (conda, poetry or pipenv) is
/// installed.
pub fn version_command(tool: Tool, installed: bool) -> (r: Option<CommandLine>)
    ensures
        installed <==> r is Some,
        r matches Some(c) ==> runs(c, tool_name(tool), seq!["--version"@]),
{
    if installed {
        Some(command1(tool.program(), "--version"))
    } else {
        None
    }
}

/// `brew list --versions`, only when Homebrew is installed.
pub fn brew_list_command(installed: bool) -> (r: Option<CommandLine>)
    ensures
        installed <==> r is Some,
        r matches Some(c) ==> runs(c, "brew"@, seq!["list"@, "--versions"@]),
{
    if installed {
        Some(command2("brew", "list", "--versions"))
    } else {
        None
    }
}

/// The commands that give a field of `uname` (`-s` for the system, `-m`
/// for the machine), tried in order until one answers: /usr/bin/uname,
/// then uname along `PATH`.
pub fn uname_commands(flag: &str) -> (r: Vec<CommandLine>)
    ensures
        r@.len() == 2,
        runs(r@[0], "/usr/bin/uname"@, seq![flag@]),
        runs(r@[1], "uname"@, seq![flag@]),
{
    let mut r: Vec<CommandLine> = Vec::new();
    r.push(command1("/usr/bin/uname", flag));
    r.push(command1("uname", flag));
    r
}

/// The command that gives the version of macOS.
pub fn product_version_command() -> (r: CommandLine)
    ensures
        runs(r, "/usr/bin/sw_vers"@, seq!["-productVersion"@]),
{
    command1("/usr/bin/sw_vers", "-productVersion")
}

/// The command that makes `zsh` list every occurrence of `name`.
pub fn type_command(zsh: &str, name: &str) -> (r: CommandLine)
    ensures
        runs(r, zsh@, seq!["-c"@, "type -a "@ + name@ + " 2>/dev/null || true"@]),
{
    let q = type_query(name);
    let c = CommandLine::new(zsh).arg("-c").arg(q.as_str());
    assert(c.args.deep_view() =~= seq!["-c"@, q@]);
    c
}

} // verus!
