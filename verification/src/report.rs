//! The two reports: the one on a single package and the one on the whole
//! Python environment. Each is a sequence of lines, built from what was
//! gathered about the machine; the lines are stated exactly.
use vstd::prelude::*;

use crate::outputs::{
    brew_listing, brew_python_formulas, count_nonblank_lines, formula_listing, not_blank,
    pipx_lists_package, python_console_scripts, python_formula, python_path_entries,
    python_path_pred, python_runtime_details, shell_type_lines, strip_version_prefix, not_empty,
    is_tool_line, is_executable_line, uv_lists_package, uv_tool_counts, without_prefix,
    names_package, is_dash_line,
};
use crate::render::{
    item_line, item_text, section_lines, section_text, type_line, type_text, value_line, value_text,
};
use crate::queries::{probed_commands, probed_names, watched_env_vars, watched_names};
use crate::styles::Styles;
use crate::text::{
    blank_chars, chars_of, decimal, decimal_chars, is_blank, lines, lines_chars, pad_right,
    pad_right_chars, push_chars, split, split_once, split_once_chars, strings_of,
    text_or_empty, trim, trim_chars, };

verus! {

// ---------------------------------------------------------------------------
// Building blocks
// ---------------------------------------------------------------------------

/// Appends the lines of `more` to `out`.
pub fn extend_lines(out: &mut Vec<String>, more: Vec<String>)
    ensures
        final(out).deep_view() == old(out).deep_view() + more.deep_view(),
{
    let ghost a = out.deep_view();
    let ghost b = more.deep_view();
    let mut more = more;
    out.append(&mut more);
    assert(out.deep_view() =~= a + b);
}

/// Appends one line to `out`.
pub fn push_line(out: &mut Vec<String>, line: String)
    ensures
        final(out).deep_view() == old(out).deep_view().push(line@),
{
    let ghost a = out.deep_view();
    out.push(line);
    assert(out.deep_view() =~= a.push(line@));
}

/// How a line of program output is shown.
#[derive(PartialEq, Eq, Structural, Clone, Copy, Debug)]
pub enum LineKind {
    /// As a value.
    Value,
    /// As an item.
    Item,
    /// As a line of `type -a`.
    Type,
    /// As a field of `pip show`.
    PipField,
}

/// A field of `pip show`: "Key: value" is shown with the trimmed key
/// padded to twelve characters and the trimmed value; a line without ':'
/// is shown as a value.
pub open spec fn pip_field_text(s: Styles, line: Seq<char>) -> Seq<char> {
    match split_once(line, ":"@) {
        Some((k, v)) => "  • "@ + s.key@ + pad_right(trim(k), 12) + s.dim@ + ": "@ + s.value@ + trim(
            v,
        ) + s.reset@,
        None => value_text(s, line),
    }
}

/// A line of program output as shown for `kind`.
pub open spec fn shown(s: Styles, kind: LineKind, line: Seq<char>) -> Seq<char> {
    match kind {
        LineKind::Value => value_text(s, line),
        LineKind::Item => item_text(s, line),
        LineKind::Type => type_text(s, line),
        LineKind::PipField => pip_field_text(s, line),
    }
}

/// The lines shown for `ls`, one for each.
pub open spec fn shown_all(s: Styles, kind: LineKind, ls: Seq<Seq<char>>) -> Seq<Seq<char>> {
    ls.map_values(|l: Seq<char>| shown(s, kind, l))
}

/// A field of `pip show`.
fn pip_field_line(styles: &Styles, line: &str) -> (r: String)
    ensures
        r@ == pip_field_text(*styles, line@),
{
    let v = chars_of(line);
    match split_once_chars(&v, &chars_of(":")) {
        Some((k, val)) => {
            let mut r = "  • ".to_owned();
            r.append(styles.key);
            push_chars(&mut r, &pad_right_chars(&trim_chars(&k), 12));
            r.append(styles.dim);
            r.append(": ");
            r.append(styles.value);
            push_chars(&mut r, &trim_chars(&val));
            r.append(styles.reset);
            r
        },
        None => value_line(styles, line),
    }
}

/// One line of output as shown for `kind`.
pub fn show_line(styles: &Styles, kind: LineKind, line: &str) -> (r: String)
    ensures
        r@ == shown(*styles, kind, line@),
{
    match kind {
        LineKind::Value => value_line(styles, line),
        LineKind::Item => item_line(styles, line),
        LineKind::Type => type_line(styles, line),
        LineKind::PipField => pip_field_line(styles, line),
    }
}

/// The lines shown for `ls`, one for each.
pub fn show_lines(styles: &Styles, kind: LineKind, ls: &Vec<String>) -> (r: Vec<String>)
    ensures
        r.deep_view() == shown_all(*styles, kind, ls.deep_view()),
{
    let ghost dv = ls.deep_view();
    let ghost want = shown_all(*styles, kind, dv);
    let mut out: Vec<String> = Vec::new();
    let n = ls.len();
    for i in 0..n
        invariant
            n == ls@.len(),
            dv == ls.deep_view(),
            want == shown_all(*styles, kind, dv),
            out.deep_view() == want.take(i as int),
    {
        let line = show_line(styles, kind, ls[i].as_str());
        push_line(&mut out, line);
        assert(want.take(i + 1) =~= want.take(i as int).push(want[i as int]));
    }
    assert(want.take(n as int) =~= want);
    out
}

/// The lines of `text`, each shown for `kind`.
pub fn show_text_lines(styles: &Styles, kind: LineKind, text: &str) -> (r: Vec<String>)
    ensures
        r.deep_view() == shown_all(*styles, kind, lines(text@)),
{
    show_lines(styles, kind, &strings_of(&lines_chars(&chars_of(text))))
}

// ---------------------------------------------------------------------------
// The report on one package
// ---------------------------------------------------------------------------

/// What was gathered about the interpreter and a package.
pub struct PackageFacts {
    /// The interpreter's name.
    pub python: String,
    /// Where the interpreter lies along `PATH`, if it was found there.
    pub executable: Option<String>,
    /// What `pip show` printed (trimmed; `None` when it failed).
    pub pip_show: Option<String>,
    /// What the console-script query printed (`None` when it failed).
    pub console_scripts: Option<String>,
    /// What `pipx list --short` printed, `Some("")` when it failed, `None`
    /// when pipx is not installed.
    pub pipx_list: Option<String>,
    /// What `uv tool list` printed, `Some("")` when it failed, `None` when
    /// uv is not installed.
    pub uv_list: Option<String>,
}

/// The text of an optional string, empty when there is none.
pub open spec fn opt_text(o: Option<String>) -> Seq<char> {
    match o {
        Some(s) => s@,
        None => Seq::<char>::empty(),
    }
}

/// The text of an optional string, or `default` when there is none.
pub open spec fn opt_or(o: Option<String>, default: Seq<char>) -> Seq<char> {
    match o {
        Some(s) => s@,
        None => default,
    }
}

/// The text of an optional string, or `default` when there is none.
fn string_or(o: &Option<String>, default: &str) -> (r: String)
    ensures
        r@ == opt_or(*o, default@),
{
    match o {
        Some(s) => s.clone(),
        None => default.to_owned(),
    }
}

/// The error when there is no interpreter: its message, and exit status 1.
pub open spec fn no_python_message() -> Seq<char> {
    "Aucun interpreteur Python detecte (python3/python)."@
}

/// The heading of the report on a package.
pub open spec fn package_heading(s: Styles, package: Seq<char>) -> Seq<Seq<char>> {
    seq![
        Seq::<char>::empty(),
        "🐍 "@ + s.title@ + "PYTHON"@ + s.reset@ + " – INFOS PAQUET : "@ + s.value@ + package
            + s.reset@,
        "══════════════════════════════════════════════"@,
    ]
}

/// The context section of the report on a package.
pub open spec fn package_context(s: Styles, f: PackageFacts) -> Seq<Seq<char>> {
    section_text(s, "1) CONTEXTE"@) + seq![
        item_text(s, "Interpreteur : "@ + f.python@),
        item_text(s, "Executable   : "@ + opt_or(f.executable, f.python@)),
    ]
}

/// The `pip show` section: its fields, or a line saying that pip does not
/// know the package when `pip show` printed nothing.
pub open spec fn pip_show_section(s: Styles, package: Seq<char>, out: Seq<char>) -> Seq<Seq<char>> {
    section_text(s, "2) PIP SHOW"@) + if is_blank(out) {
        seq![
            "  • "@ + s.neg@ + "Paquet introuvable via pip"@ + s.dim@ + ": "@ + s.value@ + package
                + s.reset@,
        ]
    } else {
        shown_all(s, LineKind::PipField, lines(out))
    }
}

/// The console-script section: one value per script, or a line saying
/// that there is none.
pub open spec fn scripts_section(s: Styles, out: Seq<char>) -> Seq<Seq<char>> {
    let scripts = lines(out).filter(not_blank());
    section_text(s, "3) BINAIRES EXPOSES (console_scripts)"@) + if scripts.len() == 0 {
        seq!["  • "@ + s.dim@ + "Aucun console_script detecte"@ + s.reset@]
    } else {
        shown_all(s, LineKind::Value, scripts)
    }
}

/// Whether a tool's package list names the package.
pub open spec fn pipx_has(list: Option<String>, package: Seq<char>) -> bool {
    match list {
        Some(l) => exists|i: int|
            0 <= i < lines(l@).len() && names_package(#[trigger] lines(l@)[i], package),
        None => false,
    }
}

/// Whether uv's tool list names the package.
pub open spec fn uv_has(list: Option<String>, package: Seq<char>) -> bool {
    match list {
        Some(l) => exists|i: int|
            0 <= i < lines(l@).len() && !is_dash_line(#[trigger] lines(l@)[i]) && names_package(
                lines(l@)[i],
                package,
            ),
        None => false,
    }
}

/// The origin section: which of pipx and uv installed the package, or a
/// line saying that neither did.
pub open spec fn origin_section(s: Styles, package: Seq<char>, f: PackageFacts) -> Seq<Seq<char>> {
    let by_pipx = pipx_has(f.pipx_list, package);
    let by_uv = uv_has(f.uv_list, package);
    section_text(s, "4) ORIGINE POSSIBLE (pipx/uv)"@) + (if by_pipx {
        seq![item_text(s, "pipx    : installe"@)]
    } else {
        Seq::<Seq<char>>::empty()
    }) + (if by_uv {
        seq![item_text(s, "uv tool : installe"@)]
    } else {
        Seq::<Seq<char>>::empty()
    }) + (if !by_pipx && !by_uv {
        seq!["  • "@ + s.dim@ + "non detectee (installation pip classique probable)"@ + s.reset@]
    } else {
        Seq::<Seq<char>>::empty()
    })
}

/// The whole report on a package.
pub open spec fn package_report(s: Styles, package: Seq<char>, f: PackageFacts) -> Seq<Seq<char>> {
    package_heading(s, package) + package_context(s, f) + pip_show_section(
        s,
        package,
        opt_text(f.pip_show),
    ) + scripts_section(s, opt_text(f.console_scripts)) + origin_section(s, package, f)
}

/// The `pip show` section.
pub fn pip_show_lines(styles: &Styles, package: &str, pip_show: &str) -> (r: Vec<String>)
    ensures
        r.deep_view() == pip_show_section(*styles, package@, pip_show@),
{
    let mut out = section_lines(styles, "2) PIP SHOW");
    let v = chars_of(pip_show);
    if blank_chars(&v) {
        let mut l = "  • ".to_owned();
        l.append(styles.neg);
        l.append("Paquet introuvable via pip");
        l.append(styles.dim);
        l.append(": ");
        l.append(styles.value);
        l.append(package);
        l.append(styles.reset);
        push_line(&mut out, l);
    } else {
        extend_lines(&mut out, show_text_lines(styles, LineKind::PipField, pip_show));
    }
    out
}

/// The console-script section.
pub fn scripts_lines(styles: &Styles, output: Option<&str>) -> (r: Vec<String>)
    ensures
        r.deep_view() == scripts_section(*styles, text_or_empty(output)),
{
    let mut out = section_lines(styles, "3) BINAIRES EXPOSES (console_scripts)");
    let scripts = python_console_scripts(output);
    if scripts.len() == 0 {
        let mut l = "  • ".to_owned();
        l.append(styles.dim);
        l.append("Aucun console_script detecte");
        l.append(styles.reset);
        push_line(&mut out, l);
    } else {
        extend_lines(&mut out, show_lines(styles, LineKind::Value, &scripts));
    }
    out
}

/// The origin section.
pub fn origin_lines(styles: &Styles, package: &str, facts: &PackageFacts) -> (r: Vec<String>)
    ensures
        r.deep_view() == origin_section(*styles, package@, *facts),
{
    let mut out = section_lines(styles, "4) ORIGINE POSSIBLE (pipx/uv)");
    let ghost start = out.deep_view();
    let by_pipx = match &facts.pipx_list {
        Some(l) => pipx_lists_package(l.as_str(), package),
        None => false,
    };
    if by_pipx {
        push_line(&mut out, item_line(styles, "pipx    : installe"));
    }
    let by_uv = match &facts.uv_list {
        Some(l) => uv_lists_package(l.as_str(), package),
        None => false,
    };
    if by_uv {
        push_line(&mut out, item_line(styles, "uv tool : installe"));
    }
    if !by_pipx && !by_uv {
        let mut l = "  • ".to_owned();
        l.append(styles.dim);
        l.append("non detectee (installation pip classique probable)");
        l.append(styles.reset);
        push_line(&mut out, l);
    }
    assert(out.deep_view() =~= origin_section(*styles, package@, *facts));
    out
}

/// The report on `package`: an error with status 1 when there is no
/// interpreter (`facts` is `None`), else the lines to print.
pub fn run_package_mode(styles: &Styles, package: &str, facts: Option<&PackageFacts>) -> (r: Result<
    Vec<String>,
    (String, u8),
>)
    ensures
        facts is None ==> (r matches Err((m, c)) && m@ == no_python_message() && c == 1),
        facts matches Some(f) ==> (r matches Ok(ls) && ls.deep_view() == package_report(
            *styles,
            package@,
            *f,
        )),
{
    let f = match facts {
        Some(f) => f,
        None => {
            return Err(("Aucun interpreteur Python detecte (python3/python).".to_owned(), 1));
        },
    };
    let mut out: Vec<String> = Vec::new();
    push_line(&mut out, String::new());
    let mut head = "🐍 ".to_owned();
    head.append(styles.title);
    head.append("PYTHON");
    head.append(styles.reset);
    head.append(" – INFOS PAQUET : ");
    head.append(styles.value);
    head.append(package);
    head.append(styles.reset);
    push_line(&mut out, head);
    push_line(&mut out, "══════════════════════════════════════════════".to_owned());
    assert(out.deep_view() =~= package_heading(*styles, package@));

    extend_lines(&mut out, section_lines(styles, "1) CONTEXTE"));
    let mut interp = "Interpreteur : ".to_owned();
    interp.append(f.python.as_str());
    push_line(&mut out, item_line(styles, interp.as_str()));
    let mut exe = "Executable   : ".to_owned();
    exe.append(string_or(&f.executable, f.python.as_str()).as_str());
    push_line(&mut out, item_line(styles, exe.as_str()));
    assert(out.deep_view() =~= package_heading(*styles, package@) + package_context(*styles, *f));

    let pip_show = string_or(&f.pip_show, "");
    proof {
        reveal_strlit("");
        assert(""@ =~= Seq::<char>::empty());
    }
    extend_lines(&mut out, pip_show_lines(styles, package, pip_show.as_str()));
    let scripts = match &f.console_scripts {
        Some(s) => Some(s.as_str()),
        None => None,
    };
    extend_lines(&mut out, scripts_lines(styles, scripts));
    extend_lines(&mut out, origin_lines(styles, package, f));
    assert(out.deep_view() =~= package_report(*styles, package@, *f));
    Ok(out)
}

// ---------------------------------------------------------------------------
// The report on the whole environment
// ---------------------------------------------------------------------------

/// What was gathered about the active interpreter.
pub struct PythonFacts {
    /// The interpreter's name.
    pub bin: String,
    /// Where it lies along `PATH`, if it was found there.
    pub path: Option<String>,
    /// What `-V` printed.
    pub version: Option<String>,
    /// What the self-description script printed.
    pub runtime: Option<String>,
    /// What pip said of itself, when `-m pip -V` succeeded.
    pub pip: Option<PipFacts>,
}

/// What pip said of itself.
pub struct PipFacts {
    /// What `-m pip -V` printed.
    pub version_line: Option<String>,
    /// What `-m pip config list` printed.
    pub config: Option<String>,
}

/// What pyenv said of itself.
pub struct PyenvFacts {
    pub version: Option<String>,
    pub root: Option<String>,
    pub active: Option<String>,
    pub versions: Option<String>,
}

/// What conda said of itself, and the active environment.
pub struct CondaFacts {
    pub version: Option<String>,
    pub active_env: Option<String>,
}

/// What pipx said of itself, and the home directory.
pub struct PipxFacts {
    pub version: Option<String>,
    pub short_list: Option<String>,
    pub bin_dir: Option<String>,
    pub home: Option<String>,
}

/// What uv said of itself.
pub struct UvFacts {
    pub version: Option<String>,
    pub tool_dir: Option<String>,
    pub tool_list: Option<String>,
}

/// Everything that the report on the environment shows.
pub struct FullFacts {
    /// `USER`.
    pub user: Option<String>,
    /// The system's name, version and architecture.
    pub os_name: String,
    pub os_version: String,
    pub os_arch: String,
    /// `SHELL`.
    pub shell: Option<String>,
    /// What `type -a` printed for each of the probed commands, in the
    /// order of `probed_commands` (a missing entry counts as no output).
    pub type_outputs: Vec<String>,
    /// The active interpreter, if there is one.
    pub python: Option<PythonFacts>,
    /// The values of the watched environment variables, in the order of
    /// `watched_env_vars` (`None` when unset; a missing entry counts as
    /// unset).
    pub env_values: Vec<Option<String>>,
    /// `PATH`.
    pub path: Option<String>,
    /// pyenv, conda, pipx and uv, when installed.
    pub pyenv: Option<PyenvFacts>,
    pub conda: Option<CondaFacts>,
    pub pipx: Option<PipxFacts>,
    pub uv: Option<UvFacts>,
    /// What `--version` printed for poetry and pipenv, when installed.
    pub poetry: Option<Option<String>>,
    pub pipenv: Option<Option<String>>,
    /// What `brew list --versions` printed, when Homebrew is installed.
    pub brew: Option<Option<String>>,
    /// What `-m pip list` printed, when pip is usable.
    pub installed_packages: Option<Option<String>>,
}

/// The heading of the report on the environment.
pub open spec fn full_heading(s: Styles, user: Seq<char>) -> Seq<Seq<char>> {
    seq![
        Seq::<char>::empty(),
        "🐍 "@ + s.title@ + "PYTHON"@ + s.reset@ + " – ÉTAT DE L’ENVIRONNEMENT : "@ + s.value@ + user
            + s.reset@,
        s.dim@ + "══════════════════════════════════════════════"@ + s.reset@,
    ]
}

/// The section on the system.
pub open spec fn system_section(s: Styles, f: FullFacts) -> Seq<Seq<char>> {
    section_text(s, "1) CONTEXTE SYSTÈME"@) + seq![
        item_text(
            s,
            "OS : "@ + f.os_name@ + " "@ + f.os_version@ + " ("@ + f.os_arch@ + ")"@,
        ),
        item_text(s, "Shell : "@ + opt_or(f.shell, "unknown"@)),
    ]
}

/// The lines shown for one command: what `type -a` found, or a line saying
/// that it found nothing.
pub open spec fn lookup_text(s: Styles, name: Seq<char>, stdout: Seq<char>) -> Seq<Seq<char>> {
    let found = lines(stdout).map_values(|l: Seq<char>| trim(l)).filter(not_empty());
    if found.len() == 0 {
        seq![type_text(s, name + " : non trouvé"@)]
    } else {
        shown_all(s, LineKind::Type, found)
    }
}

/// The `i`-th gathered output, or nothing when there is none.
pub open spec fn nth_output(outs: Seq<String>, i: int) -> Seq<char> {
    if 0 <= i < outs.len() {
        outs[i]@
    } else {
        Seq::<char>::empty()
    }
}

/// The `i`-th gathered value, or `None` when there is none.
pub open spec fn nth_value(values: Seq<Option<String>>, i: int) -> Option<String> {
    if 0 <= i < values.len() {
        values[i]
    } else {
        None
    }
}

/// The lines shown for the first `n` probed commands, in order.
pub open spec fn lookups_text(s: Styles, outs: Seq<String>, n: nat) -> Seq<Seq<char>>
    decreases n,
{
    if n == 0 {
        Seq::<Seq<char>>::empty()
    } else {
        lookups_text(s, outs, (n - 1) as nat) + lookup_text(
            s,
            probed_names()[n - 1],
            nth_output(outs, n - 1),
        )
    }
}

/// The section on the commands found along `PATH`: python3, python, pip3
/// and pip, in this order.
pub open spec fn binaries_section(s: Styles, f: FullFacts) -> Seq<Seq<char>> {
    section_text(s, "2) BINAIRES PYTHON / PIP DANS LE PATH"@) + lookups_text(
        s,
        f.type_outputs@,
        probed_names().len(),
    )
}

/// The section on the active interpreter.
pub open spec fn interpreter_section(s: Styles, python: Option<PythonFacts>) -> Seq<Seq<char>> {
    section_text(s, "3) INTERPRÉTEUR PYTHON ACTIF"@) + match python {
        Some(p) => seq![
            "  • "@ + s.key@ + p.bin@ + s.dim@ + " → "@ + s.value@ + opt_or(p.path, p.bin@)
                + s.reset@,
            "  • Version : "@ + opt_or(p.version, "unknown"@),
        ] + shown_all(s, LineKind::Item, lines(opt_text(p.runtime))),
        None => seq![item_text(s, "Aucun binaire Python détecté"@)],
    }
}

/// The section on pip.
pub open spec fn pip_section(s: Styles, python: Option<PythonFacts>) -> Seq<Seq<char>> {
    section_text(s, "4) PIP (GESTIONNAIRE DE PACKAGES)"@) + match python {
        Some(p) => match p.pip {
            Some(pip) => (match pip.version_line {
                Some(l) => seq![value_text(s, l@)],
                None => Seq::<Seq<char>>::empty(),
            }) + if is_blank(opt_text(pip.config)) {
                seq![item_text(s, "Configuration pip : aucune"@)]
            } else {
                shown_all(s, LineKind::Value, lines(opt_text(pip.config)))
            },
            None => seq![item_text(s, "pip indisponible"@)],
        },
        None => seq![item_text(s, "pip indisponible"@)],
    }
}

/// The line for one environment variable; an empty or unset one is shown
/// as "(vide)".
pub open spec fn env_text(s: Styles, name: Seq<char>, v: Option<String>) -> Seq<char> {
    let value = opt_text(v);
    "  • "@ + s.key@ + name + s.dim@ + "="@ + s.value@ + (if value.len() == 0 {
        "(vide)"@
    } else {
        value
    }) + s.reset@
}

/// The lines for the Python-related entries of `PATH`, or a line saying
/// that there is none.
pub open spec fn path_text(s: Styles, path: Seq<char>) -> Seq<Seq<char>> {
    let es = split(path, ':').filter(python_path_pred());
    if es.len() == 0 {
        seq![item_text(s, "PATH : aucun élément python détecté"@)]
    } else {
        es.map_values(|e: Seq<char>| item_text(s, "PATH : "@ + e))
    }
}

/// The lines for the watched environment variables, in order.
pub open spec fn env_vars_text(s: Styles, values: Seq<Option<String>>) -> Seq<Seq<char>> {
    Seq::new(
        watched_names().len(),
        |i: int| env_text(s, watched_names()[i], nth_value(values, i)),
    )
}

/// The section on the environment variables: the eight watched ones, in
/// order, then the Python-related entries of `PATH`.
pub open spec fn env_section(s: Styles, f: FullFacts) -> Seq<Seq<char>> {
    section_text(s, "5) VARIABLES D’ENVIRONNEMENT"@) + env_vars_text(s, f.env_values@) + path_text(
        s,
        opt_text(f.path),
    )
}

/// The pyenv line.
pub open spec fn pyenv_text(s: Styles, p: Option<PyenvFacts>) -> Seq<char> {
    match p {
        Some(p) => item_text(
            s,
            "pyenv : "@ + without_prefix(opt_or(p.version, "unknown"@), "pyenv "@) + " (actif="@
                + opt_or(p.active, "unknown"@) + ", versions="@ + decimal(
                lines(opt_text(p.versions)).filter(not_blank()).len(),
            ) + ", root="@ + opt_or(p.root, "unknown"@)
                + ", binaires globaux=indirect via shims)"@,
        ),
        None => item_text(s, "pyenv : non installe"@),
    }
}

/// The conda line.
pub open spec fn conda_text(s: Styles, c: Option<CondaFacts>) -> Seq<char> {
    match c {
        Some(c) => item_text(
            s,
            "conda : "@ + without_prefix(opt_or(c.version, "unknown"@), "conda "@) + " (env actif="@
                + opt_or(c.active_env, "aucun"@) + ", binaires globaux=oui si env active)"@,
        ),
        None => item_text(s, "conda : non installe"@),
    }
}

/// Where pipx puts executables when it does not say: `.local/bin` in the
/// home directory (`/Users/unknown` when `HOME` is unset).
pub open spec fn pipx_default_bin(home: Option<String>) -> Seq<char> {
    opt_or(home, "/Users/unknown"@) + "/.local/bin"@
}

/// The pipx line.
pub open spec fn pipx_text(s: Styles, p: Option<PipxFacts>) -> Seq<char> {
    match p {
        Some(p) => item_text(
            s,
            "pipx : "@ + opt_or(p.version, "unknown"@) + " (packages="@ + decimal(
                lines(opt_text(p.short_list)).filter(not_blank()).len(),
            ) + ", bin="@ + opt_or(p.bin_dir, pipx_default_bin(p.home))
                + ", binaires globaux=oui)"@,
        ),
        None => item_text(s, "pipx : non installe"@),
    }
}

/// The uv line.
pub open spec fn uv_text(s: Styles, u: Option<UvFacts>) -> Seq<char> {
    match u {
        Some(u) => item_text(
            s,
            "uv : "@ + without_prefix(opt_or(u.version, "unknown"@), "uv "@) + " (tools="@ + decimal(
                lines(opt_text(u.tool_list)).filter(is_tool_line()).len(),
            ) + ", executables="@ + decimal(
                lines(opt_text(u.tool_list)).filter(is_executable_line()).len(),
            ) + ", dir="@ + opt_or(u.tool_dir, "unknown"@)
                + ", binaires globaux=oui via 'uv tool')"@,
        ),
        None => item_text(s, "uv : non installe"@),
    }
}

/// The line for a project tool (poetry or pipenv) called `name`.
pub open spec fn project_tool_text(s: Styles, name: Seq<char>, t: Option<Option<String>>) -> Seq<
    char,
> {
    match t {
        Some(v) => item_text(
            s,
            opt_or(v, name) + " (binaires globaux=plutot non, orienté projet)"@,
        ),
        None => item_text(s, name + " : non installe"@),
    }
}

/// The Homebrew line.
pub open spec fn brew_text(s: Styles, b: Option<Option<String>>) -> Seq<char> {
    match b {
        Some(list) => {
            let names = lines(opt_text(list)).filter_map(|l: Seq<char>| python_formula(l));
            if names.len() == 0 {
                item_text(s, "Homebrew python : aucune formule python detectee"@)
            } else {
                item_text(
                    s,
                    "Homebrew python : "@ + decimal(names.len()) + " formule(s) ["@
                        + formula_listing(names) + "] (binaires globaux=oui)"@,
                )
            }
        },
        None => item_text(s, "Homebrew : non installe"@),
    }
}

/// A group heading inside the section on managers.
pub open spec fn group_text(s: Styles, title: Seq<char>) -> Seq<char> {
    "  "@ + s.title@ + title + s.reset@
}

/// The section on version managers and distributions.
pub open spec fn managers_section(s: Styles, f: FullFacts) -> Seq<Seq<char>> {
    section_text(s, "6) GESTIONNAIRES / DISTRIBUTIONS"@) + seq![
        group_text(s, "[A] Versions / environnements Python"@),
        pyenv_text(s, f.pyenv),
        conda_text(s, f.conda),
        Seq::<char>::empty(),
        group_text(s, "[B] Outils CLI globaux (installent des executables)"@),
        pipx_text(s, f.pipx),
        uv_text(s, f.uv),
        Seq::<char>::empty(),
        group_text(s, "[C] Outils de projet (venv local, pas orientes global)"@),
        project_tool_text(s, "poetry"@, f.poetry),
        project_tool_text(s, "pipenv"@, f.pipenv),
        Seq::<char>::empty(),
        group_text(s, "[D] Distribution systeme"@),
        brew_text(s, f.brew),
    ]
}

/// The section on the installed packages.
pub open spec fn packages_section(s: Styles, list: Option<Option<String>>) -> Seq<Seq<char>> {
    section_text(s, "7) PACKAGES INSTALLÉS (pip list)"@) + match list {
        Some(l) => if is_blank(opt_text(l)) {
            seq![item_text(s, "Aucun package listé"@)]
        } else {
            shown_all(s, LineKind::Value, lines(opt_text(l)))
        },
        None => seq![item_text(s, "pip indisponible"@)],
    }
}

/// The whole report on the environment.
pub open spec fn full_report(s: Styles, f: FullFacts) -> Seq<Seq<char>> {
    full_heading(s, opt_or(f.user, "unknown"@)) + system_section(s, f) + binaries_section(s, f)
        + interpreter_section(s, f.python) + pip_section(s, f.python) + env_section(s, f)
        + managers_section(s, f) + packages_section(s, f.installed_packages)
}

/// The text of an optional string, empty when there is none.
fn string_or_empty(o: &Option<String>) -> (r: String)
    ensures
        r@ == opt_text(*o),
{
    match o {
        Some(s) => s.clone(),
        None => String::new(),
    }
}

/// A group heading.
fn group_line(styles: &Styles, title: &str) -> (r: String)
    ensures
        r@ == group_text(*styles, title@),
{
    let mut r = "  ".to_owned();
    r.append(styles.title);
    r.append(title);
    r.append(styles.reset);
    r
}

/// Appends the decimal notation of `n` to `s`.
fn push_decimal(s: &mut String, n: usize)
    ensures
        final(s)@ == old(s)@ + decimal(n as nat),
{
    push_chars(s, &decimal_chars(n));
}

/// The heading of the report on the environment.
pub fn full_heading_lines(styles: &Styles, user: &str) -> (r: Vec<String>)
    ensures
        r.deep_view() == full_heading(*styles, user@),
{
    let mut out: Vec<String> = Vec::new();
    push_line(&mut out, String::new());
    let mut head = "🐍 ".to_owned();
    head.append(styles.title);
    head.append("PYTHON");
    head.append(styles.reset);
    head.append(" – ÉTAT DE L’ENVIRONNEMENT : ");
    head.append(styles.value);
    head.append(user);
    head.append(styles.reset);
    push_line(&mut out, head);
    let mut rule = styles.dim.to_owned();
    rule.append("══════════════════════════════════════════════");
    rule.append(styles.reset);
    push_line(&mut out, rule);
    assert(out.deep_view() =~= full_heading(*styles, user@));
    out
}

/// The section on the system.
pub fn system_lines(styles: &Styles, facts: &FullFacts) -> (r: Vec<String>)
    ensures
        r.deep_view() == system_section(*styles, *facts),
{
    let mut out = section_lines(styles, "1) CONTEXTE SYSTÈME");
    let ghost start = out.deep_view();
    let mut os = "OS : ".to_owned();
    os.append(facts.os_name.as_str());
    os.append(" ");
    os.append(facts.os_version.as_str());
    os.append(" (");
    os.append(facts.os_arch.as_str());
    os.append(")");
    push_line(&mut out, item_line(styles, os.as_str()));
    let mut shell = "Shell : ".to_owned();
    shell.append(string_or(&facts.shell, "unknown").as_str());
    push_line(&mut out, item_line(styles, shell.as_str()));
    assert(out.deep_view() =~= system_section(*styles, *facts));
    out
}

/// The lines shown for one command.
pub fn lookup_lines(styles: &Styles, name: &str, stdout: &str) -> (r: Vec<String>)
    ensures
        r.deep_view() == lookup_text(*styles, name@, stdout@),
{
    let found = shell_type_lines(stdout);
    if found.len() == 0 {
        let mut t = name.to_owned();
        t.append(" : non trouvé");
        let mut out: Vec<String> = Vec::new();
        push_line(&mut out, type_line(styles, t.as_str()));
        assert(out.deep_view() =~= lookup_text(*styles, name@, stdout@));
        out
    } else {
        show_lines(styles, LineKind::Type, &found)
    }
}

/// The section on the commands found along `PATH`.
pub fn binaries_lines(styles: &Styles, facts: &FullFacts) -> (r: Vec<String>)
    ensures
        r.deep_view() == binaries_section(*styles, *facts),
{
    let mut out = section_lines(styles, "2) BINAIRES PYTHON / PIP DANS LE PATH");
    let ghost start = out.deep_view();
    let names = probed_commands();
    let n = names.len();
    for i in 0..n
        invariant
            n == names@.len(),
            names.deep_view() == probed_names(),
            out.deep_view() == start + lookups_text(*styles, facts.type_outputs@, i as nat),
    {
        let stdout = if i < facts.type_outputs.len() {
            facts.type_outputs[i].as_str()
        } else {
            ""
        };
        proof {
            reveal_strlit("");
            assert(""@ =~= Seq::<char>::empty());
            assert(names.deep_view()[i as int] == names@[i as int]@);
        }
        extend_lines(&mut out, lookup_lines(styles, names[i], stdout));
        assert(out.deep_view() =~= start + lookups_text(*styles, facts.type_outputs@, (i + 1) as nat));
    }
    out
}

/// The section on the active interpreter.
pub fn interpreter_lines(styles: &Styles, python: &Option<PythonFacts>) -> (r: Vec<String>)
    ensures
        r.deep_view() == interpreter_section(*styles, *python),
{
    let mut out = section_lines(styles, "3) INTERPRÉTEUR PYTHON ACTIF");
    let ghost start = out.deep_view();
    match python {
        Some(p) => {
            let mut l = "  • ".to_owned();
            l.append(styles.key);
            l.append(p.bin.as_str());
            l.append(styles.dim);
            l.append(" → ");
            l.append(styles.value);
            l.append(string_or(&p.path, p.bin.as_str()).as_str());
            l.append(styles.reset);
            push_line(&mut out, l);
            let mut v = "  • Version : ".to_owned();
            v.append(string_or(&p.version, "unknown").as_str());
            push_line(&mut out, v);
            let runtime = match &p.runtime {
                Some(r) => Some(r.as_str()),
                None => None,
            };
            let details = python_runtime_details(runtime);
            extend_lines(&mut out, show_lines(styles, LineKind::Item, &details));
        },
        None => {
            push_line(&mut out, item_line(styles, "Aucun binaire Python détecté"));
        },
    }
    assert(out.deep_view() =~= interpreter_section(*styles, *python));
    out
}

/// The section on pip.
pub fn pip_lines(styles: &Styles, python: &Option<PythonFacts>) -> (r: Vec<String>)
    ensures
        r.deep_view() == pip_section(*styles, *python),
{
    let mut out = section_lines(styles, "4) PIP (GESTIONNAIRE DE PACKAGES)");
    let ghost start = out.deep_view();
    let pip = match python {
        Some(p) => match &p.pip {
            Some(pip) => Some(pip),
            None => None,
        },
        None => None,
    };
    match pip {
        Some(pip) => {
            if let Some(l) = &pip.version_line {
                push_line(&mut out, value_line(styles, l.as_str()));
            }
            let ghost mid = out.deep_view();
            let config = string_or_empty(&pip.config);
            if blank_chars(&chars_of(config.as_str())) {
                push_line(&mut out, item_line(styles, "Configuration pip : aucune"));
            } else {
                extend_lines(&mut out, show_text_lines(styles, LineKind::Value, config.as_str()));
            }
        },
        None => {
            push_line(&mut out, item_line(styles, "pip indisponible"));
        },
    }
    assert(out.deep_view() =~= pip_section(*styles, *python));
    out
}

/// The line for one environment variable.
pub fn env_line(styles: &Styles, name: &str, v: &Option<String>) -> (r: String)
    ensures
        r@ == env_text(*styles, name@, *v),
{
    let value = string_or_empty(v);
    let mut r = "  • ".to_owned();
    r.append(styles.key);
    r.append(name);
    r.append(styles.dim);
    r.append("=");
    r.append(styles.value);
    if value.as_str().is_empty() {
        r.append("(vide)");
    } else {
        r.append(value.as_str());
    }
    r.append(styles.reset);
    r
}

/// The lines for the Python-related entries of `PATH`.
pub fn path_lines(styles: &Styles, path: &str) -> (r: Vec<String>)
    ensures
        r.deep_view() == path_text(*styles, path@),
{
    let es = python_path_entries(path);
    let ghost ev = es.deep_view();
    let mut out: Vec<String> = Vec::new();
    if es.len() == 0 {
        push_line(&mut out, item_line(styles, "PATH : aucun élément python détecté"));
        assert(out.deep_view() =~= path_text(*styles, path@));
        return out;
    }
    let ghost want = ev.map_values(|e: Seq<char>| item_text(*styles, "PATH : "@ + e));
    let n = es.len();
    for i in 0..n
        invariant
            n == ev.len(),
            ev == es.deep_view(),
            want == ev.map_values(|e: Seq<char>| item_text(*styles, "PATH : "@ + e)),
            out.deep_view() == want.take(i as int),
    {
        let mut t = "PATH : ".to_owned();
        t.append(es[i].as_str());
        push_line(&mut out, item_line(styles, t.as_str()));
        assert(want.take(i + 1) =~= want.take(i as int).push(want[i as int]));
    }
    assert(want.take(n as int) =~= want);
    out
}

/// The section on the environment variables.
pub fn env_lines(styles: &Styles, facts: &FullFacts) -> (r: Vec<String>)
    ensures
        r.deep_view() == env_section(*styles, *facts),
{
    let mut out = section_lines(styles, "5) VARIABLES D’ENVIRONNEMENT");
    let ghost start = out.deep_view();
    let ghost want = env_vars_text(*styles, facts.env_values@);
    let names = watched_env_vars();
    let n = names.len();
    let unset: Option<String> = None;
    for i in 0..n
        invariant
            n == names@.len(),
            names.deep_view() == watched_names(),
            want == env_vars_text(*styles, facts.env_values@),
            unset is None,
            out.deep_view() == start + want.take(i as int),
    {
        let v = if i < facts.env_values.len() {
            &facts.env_values[i]
        } else {
            &unset
        };
        proof {
            assert(names.deep_view()[i as int] == names@[i as int]@);
        }
        push_line(&mut out, env_line(styles, names[i], v));
        assert(want.take(i + 1) =~= want.take(i as int).push(want[i as int]));
        assert(out.deep_view() =~= start + want.take(i + 1));
    }
    assert(want.take(n as int) =~= want);
    let path = string_or_empty(&facts.path);
    extend_lines(&mut out, path_lines(styles, path.as_str()));
    assert(out.deep_view() =~= env_section(*styles, *facts));
    out
}

/// The pyenv line.
pub fn pyenv_line(styles: &Styles, p: &Option<PyenvFacts>) -> (r: String)
    ensures
        r@ == pyenv_text(*styles, *p),
{
    match p {
        Some(p) => {
            let mut t = "pyenv : ".to_owned();
            let version = string_or(&p.version, "unknown");
            t.append(strip_version_prefix(version.as_str(), "pyenv ").as_str());
            t.append(" (actif=");
            t.append(string_or(&p.active, "unknown").as_str());
            t.append(", versions=");
            push_decimal(&mut t, count_nonblank_lines(string_or_empty(&p.versions).as_str()));
            t.append(", root=");
            t.append(string_or(&p.root, "unknown").as_str());
            t.append(", binaires globaux=indirect via shims)");
            item_line(styles, t.as_str())
        },
        None => item_line(styles, "pyenv : non installe"),
    }
}

/// The conda line.
pub fn conda_line(styles: &Styles, c: &Option<CondaFacts>) -> (r: String)
    ensures
        r@ == conda_text(*styles, *c),
{
    match c {
        Some(c) => {
            let mut t = "conda : ".to_owned();
            let version = string_or(&c.version, "unknown");
            t.append(strip_version_prefix(version.as_str(), "conda ").as_str());
            t.append(" (env actif=");
            t.append(string_or(&c.active_env, "aucun").as_str());
            t.append(", binaires globaux=oui si env active)");
            item_line(styles, t.as_str())
        },
        None => item_line(styles, "conda : non installe"),
    }
}

/// The pipx line.
pub fn pipx_line(styles: &Styles, p: &Option<PipxFacts>) -> (r: String)
    ensures
        r@ == pipx_text(*styles, *p),
{
    match p {
        Some(p) => {
            let mut t = "pipx : ".to_owned();
            t.append(string_or(&p.version, "unknown").as_str());
            t.append(" (packages=");
            push_decimal(&mut t, count_nonblank_lines(string_or_empty(&p.short_list).as_str()));
            t.append(", bin=");
            let mut default_bin = string_or(&p.home, "/Users/unknown");
            default_bin.append("/.local/bin");
            t.append(string_or(&p.bin_dir, default_bin.as_str()).as_str());
            t.append(", binaires globaux=oui)");
            item_line(styles, t.as_str())
        },
        None => item_line(styles, "pipx : non installe"),
    }
}

/// The uv line.
pub fn uv_line(styles: &Styles, u: &Option<UvFacts>) -> (r: String)
    ensures
        r@ == uv_text(*styles, *u),
{
    match u {
        Some(u) => {
            let mut t = "uv : ".to_owned();
            let version = string_or(&u.version, "unknown");
            t.append(strip_version_prefix(version.as_str(), "uv ").as_str());
            let (tools, exes) = uv_tool_counts(string_or_empty(&u.tool_list).as_str());
            t.append(" (tools=");
            push_decimal(&mut t, tools);
            t.append(", executables=");
            push_decimal(&mut t, exes);
            t.append(", dir=");
            t.append(string_or(&u.tool_dir, "unknown").as_str());
            t.append(", binaires globaux=oui via 'uv tool')");
            item_line(styles, t.as_str())
        },
        None => item_line(styles, "uv : non installe"),
    }
}

/// The line for a project tool called `name`.
pub fn project_tool_line(styles: &Styles, name: &str, t: &Option<Option<String>>) -> (r: String)
    ensures
        r@ == project_tool_text(*styles, name@, *t),
{
    match t {
        Some(v) => {
            let mut text = string_or(v, name);
            text.append(" (binaires globaux=plutot non, orienté projet)");
            item_line(styles, text.as_str())
        },
        None => {
            let mut text = name.to_owned();
            text.append(" : non installe");
            item_line(styles, text.as_str())
        },
    }
}

/// The Homebrew line.
pub fn brew_line(styles: &Styles, b: &Option<Option<String>>) -> (r: String)
    ensures
        r@ == brew_text(*styles, *b),
{
    match b {
        Some(list) => {
            let names = brew_python_formulas(string_or_empty(list).as_str());
            if names.len() == 0 {
                item_line(styles, "Homebrew python : aucune formule python detectee")
            } else {
                let mut t = "Homebrew python : ".to_owned();
                push_decimal(&mut t, names.len());
                t.append(" formule(s) [");
                t.append(brew_listing(&names).as_str());
                t.append("] (binaires globaux=oui)");
                item_line(styles, t.as_str())
            }
        },
        None => item_line(styles, "Homebrew : non installe"),
    }
}

/// The section on version managers and distributions.
pub fn managers_lines(styles: &Styles, facts: &FullFacts) -> (r: Vec<String>)
    ensures
        r.deep_view() == managers_section(*styles, *facts),
{
    let mut out = section_lines(styles, "6) GESTIONNAIRES / DISTRIBUTIONS");
    push_line(&mut out, group_line(styles, "[A] Versions / environnements Python"));
    push_line(&mut out, pyenv_line(styles, &facts.pyenv));
    push_line(&mut out, conda_line(styles, &facts.conda));
    push_line(&mut out, String::new());
    push_line(&mut out, group_line(styles, "[B] Outils CLI globaux (installent des executables)"));
    push_line(&mut out, pipx_line(styles, &facts.pipx));
    push_line(&mut out, uv_line(styles, &facts.uv));
    push_line(&mut out, String::new());
    push_line(
        &mut out,
        group_line(styles, "[C] Outils de projet (venv local, pas orientes global)"),
    );
    push_line(&mut out, project_tool_line(styles, "poetry", &facts.poetry));
    push_line(&mut out, project_tool_line(styles, "pipenv", &facts.pipenv));
    push_line(&mut out, String::new());
    push_line(&mut out, group_line(styles, "[D] Distribution systeme"));
    push_line(&mut out, brew_line(styles, &facts.brew));
    assert(out.deep_view() =~= managers_section(*styles, *facts));
    out
}

/// The section on the installed packages.
pub fn packages_lines(styles: &Styles, list: &Option<Option<String>>) -> (r: Vec<String>)
    ensures
        r.deep_view() == packages_section(*styles, *list),
{
    let mut out = section_lines(styles, "7) PACKAGES INSTALLÉS (pip list)");
    match list {
        Some(l) => {
            let text = string_or_empty(l);
            if blank_chars(&chars_of(text.as_str())) {
                push_line(&mut out, item_line(styles, "Aucun package listé"));
            } else {
                extend_lines(&mut out, show_text_lines(styles, LineKind::Value, text.as_str()));
            }
        },
        None => {
            push_line(&mut out, item_line(styles, "pip indisponible"));
        },
    }
    assert(out.deep_view() =~= packages_section(*styles, *list));
    out
}

/// The report on the whole environment, as lines to print.
pub fn run_full_mode(styles: &Styles, facts: &FullFacts) -> (r: Vec<String>)
    ensures
        r.deep_view() == full_report(*styles, *facts),
{
    let mut out = full_heading_lines(styles, string_or(&facts.user, "unknown").as_str());
    extend_lines(&mut out, system_lines(styles, facts));
    extend_lines(&mut out, binaries_lines(styles, facts));
    extend_lines(&mut out, interpreter_lines(styles, &facts.python));
    extend_lines(&mut out, pip_lines(styles, &facts.python));
    extend_lines(&mut out, env_lines(styles, facts));
    extend_lines(&mut out, managers_lines(styles, facts));
    extend_lines(&mut out, packages_lines(styles, &facts.installed_packages));
    out
}

} // verus!
