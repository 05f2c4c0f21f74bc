//! What the library reads out of the text that other programs print: the
//! interpreter's self-description, a package's console scripts, the lines of
//! `type -a`, the package lists of pipx, uv and Homebrew, `os-release`, and
//! the Python-related entries of `PATH`.
use vstd::prelude::*;

use crate::text::{
    chars_eq, chars_of, chars_or_empty, contains, contains_chars, eq_ignore_ascii_case,
    eq_ignore_ascii_case_chars, first_non_space, first_word, first_word_chars, is_blank, join,
    join_chars, lemma_chars_deep_view, lines, lines_chars, lower, lower_chars, split, split_chars,
    starts_with, starts_with_chars, string_of, strings_of, strip_prefix, strip_prefix_chars,
    text_or_empty, trim, trim_char, trim_char_chars, trim_chars, trim_start, blank_chars,
};

verus! {

broadcast use {vstd::seq_lib::group_seq_properties, vstd::seq::group_seq_axioms};

/// Whether a line holds something other than white space.
pub open spec fn not_blank() -> spec_fn(Seq<char>) -> bool {
    |l: Seq<char>| !is_blank(l)
}

/// The lines of `output` (empty when there is none), as the interpreter's
/// description of itself prints them.
pub fn python_runtime_details(output: Option<&str>) -> (r: Vec<String>)
    ensures
        r.deep_view() == lines(text_or_empty(output)),
{
    let v = chars_or_empty(output);
    strings_of(&lines_chars(&v))
}

/// The non-blank lines of `ls`.
fn nonblank_lines(ls: &Vec<Vec<char>>) -> (r: Vec<Vec<char>>)
    ensures
        r.deep_view() == ls.deep_view().filter(not_blank()),
{
    let ghost dv = ls.deep_view();
    let mut out: Vec<Vec<char>> = Vec::new();
    let n = ls.len();
    for i in 0..n
        invariant
            n == ls@.len(),
            dv == ls.deep_view(),
            out.deep_view() == dv.take(i as int).filter(not_blank()),
    {
        let ghost before = out.deep_view();
        proof {
            lemma_chars_deep_view(ls@[i as int]);
            reveal_with_fuel(Seq::filter, 1);
            assert(dv.take(i + 1).drop_last() =~= dv.take(i as int));
        }
        if !blank_chars(&ls[i]) {
            let l = copy_chars(&ls[i]);
            proof {
                lemma_chars_deep_view(l);
            }
            out.push(l);
            assert(out.deep_view() =~= before.push(dv[i as int]));
        }
    }
    assert(dv.take(n as int) =~= dv);
    out
}

/// A copy of `v`.
fn copy_chars(v: &Vec<char>) -> (r: Vec<char>)
    ensures
        r@ == v@,
{
    let r = crate::text::slice_chars(v, 0, v.len());
    assert(r@ =~= v@);
    r
}

/// The console scripts that the metadata script printed, one per non-blank
/// line (empty when there is no output).
pub fn python_console_scripts(output: Option<&str>) -> (r: Vec<String>)
    ensures
        r.deep_view() == lines(text_or_empty(output)).filter(not_blank()),
{
    let v = chars_or_empty(output);
    strings_of(&nonblank_lines(&lines_chars(&v)))
}

/// Whether a line holds anything once trimmed.
pub open spec fn not_empty() -> spec_fn(Seq<char>) -> bool {
    |l: Seq<char>| l.len() > 0
}

/// The lines that `type -a` printed, each trimmed, without the empty ones.
pub fn shell_type_lines(stdout: &str) -> (r: Vec<String>)
    ensures
        r.deep_view() == lines(stdout@).map_values(|l: Seq<char>| trim(l)).filter(not_empty()),
{
    let ls = lines_chars(&chars_of(stdout));
    let ghost dv = ls.deep_view();
    let ghost tv = dv.map_values(|l: Seq<char>| trim(l));
    let mut out: Vec<Vec<char>> = Vec::new();
    let n = ls.len();
    for i in 0..n
        invariant
            n == ls@.len(),
            dv == ls.deep_view(),
            tv == dv.map_values(|l: Seq<char>| trim(l)),
            out.deep_view() == tv.take(i as int).filter(not_empty()),
    {
        let ghost before = out.deep_view();
        proof {
            lemma_chars_deep_view(ls@[i as int]);
            reveal_with_fuel(Seq::filter, 1);
            assert(tv.take(i + 1).drop_last() =~= tv.take(i as int));
        }
        let t = trim_chars(&ls[i]);
        if t.len() > 0 {
            proof {
                lemma_chars_deep_view(t);
            }
            out.push(t);
            assert(out.deep_view() =~= before.push(tv[i as int]));
        }
    }
    assert(tv.take(n as int) =~= tv);
    strings_of(&out)
}

/// Whether the first word of `line` is `package`, up to ASCII case.
pub open spec fn names_package(line: Seq<char>, package: Seq<char>) -> bool {
    match first_word(line) {
        Some(w) => eq_ignore_ascii_case(w, package),
        None => false,
    }
}

/// Whether a line, once its leading white space is gone, starts with '-'.
pub open spec fn is_dash_line(line: Seq<char>) -> bool {
    starts_with(trim_start(line), "-"@)
}

/// Whether the first word of `line` is `package`, up to ASCII case.
fn line_names_package(line: &Vec<char>, package: &Vec<char>) -> (b: bool)
    ensures
        b == names_package(line@, package@),
{
    match first_word_chars(line) {
        Some(w) => eq_ignore_ascii_case_chars(&w, package),
        None => false,
    }
}

/// Whether a line starts with '-' once its leading white space is gone.
fn dash_line(line: &Vec<char>) -> (b: bool)
    ensures
        b == is_dash_line(line@),
{
    let a = first_non_space(line);
    let b = a < line.len() && line[a] == '-';
    proof {
        crate::text::lemma_starts_with_dash(line@.skip(a as int));
    }
    b
}

/// Whether `pipx list --short` lists `package`: some line's first word is
/// the package name, up to ASCII case.
pub fn pipx_lists_package(list: &str, package: &str) -> (b: bool)
    ensures
        b == exists|i: int|
            0 <= i < lines(list@).len() && names_package(#[trigger] lines(list@)[i], package@),
{
    let ls = lines_chars(&chars_of(list));
    let p = chars_of(package);
    let ghost dv = ls.deep_view();
    let n = ls.len();
    for i in 0..n
        invariant
            n == ls@.len(),
            dv == ls.deep_view(),
            dv == lines(list@),
            p@ == package@,
            forall|j: int| 0 <= j < i ==> !names_package(#[trigger] dv[j], package@),
    {
        proof {
            lemma_chars_deep_view(ls@[i as int]);
        }
        if line_names_package(&ls[i], &p) {
            assert(names_package(lines(list@)[i as int], package@));
            return true;
        }
    }
    false
}

/// Whether `uv tool list` lists `package`: some line that does not start
/// with '-' (those list the executables of a tool) has the package name as
/// its first word, up to ASCII case.
pub fn uv_lists_package(list: &str, package: &str) -> (b: bool)
    ensures
        b == exists|i: int|
            0 <= i < lines(list@).len() && !is_dash_line(#[trigger] lines(list@)[i])
                && names_package(lines(list@)[i], package@),
{
    let ls = lines_chars(&chars_of(list));
    let p = chars_of(package);
    let ghost dv = ls.deep_view();
    let n = ls.len();
    for i in 0..n
        invariant
            n == ls@.len(),
            dv == ls.deep_view(),
            dv == lines(list@),
            p@ == package@,
            forall|j: int|
                0 <= j < i ==> !(!is_dash_line(#[trigger] dv[j]) && names_package(dv[j], package@)),
    {
        proof {
            lemma_chars_deep_view(ls@[i as int]);
        }
        if !dash_line(&ls[i]) && line_names_package(&ls[i], &p) {
            assert(!is_dash_line(lines(list@)[i as int]) && names_package(lines(list@)[i as int], package@));
            return true;
        }
    }
    false
}

/// The number of non-blank lines of `text`.
pub fn count_nonblank_lines(text: &str) -> (n: usize)
    ensures
        n == lines(text@).filter(not_blank()).len(),
{
    nonblank_lines(&lines_chars(&chars_of(text))).len()
}

/// Whether a line of `uv tool list` names a tool: it is neither blank nor a
/// line of executables.
pub open spec fn is_tool_line() -> spec_fn(Seq<char>) -> bool {
    |l: Seq<char>| !is_blank(l) && !is_dash_line(l)
}

/// Whether a line of `uv tool list` names an executable.
pub open spec fn is_executable_line() -> spec_fn(Seq<char>) -> bool {
    |l: Seq<char>| is_dash_line(l)
}

/// The numbers of tools and of executables that `uv tool list` shows.
pub fn uv_tool_counts(list: &str) -> (r: (usize, usize))
    ensures
        r.0 == lines(list@).filter(is_tool_line()).len(),
        r.1 == lines(list@).filter(is_executable_line()).len(),
{
    let ls = lines_chars(&chars_of(list));
    let ghost dv = ls.deep_view();
    let n = ls.len();
    let mut tools: usize = 0;
    let mut exes: usize = 0;
    for i in 0..n
        invariant
            n == ls@.len(),
            dv == ls.deep_view(),
            tools == dv.take(i as int).filter(is_tool_line()).len(),
            exes == dv.take(i as int).filter(is_executable_line()).len(),
            tools <= i,
            exes <= i,
    {
        proof {
            lemma_chars_deep_view(ls@[i as int]);
            reveal_with_fuel(Seq::filter, 1);
            assert(dv.take(i + 1).drop_last() =~= dv.take(i as int));
            assert(dv.take(i + 1).last() == dv[i as int]);
        }
        let dash = dash_line(&ls[i]);
        if dash {
            exes += 1;
        } else if !blank_chars(&ls[i]) {
            tools += 1;
        }
    }
    assert(dv.take(n as int) =~= dv);
    (tools, exes)
}

/// Whether a Homebrew formula is a Python one: "python" or "python@…".
pub open spec fn is_python_formula(name: Seq<char>) -> bool {
    name == "python"@ || starts_with(name, "python@"@)
}

/// The Python formula that a line of `brew list --versions` names, if any:
/// its first word, when that is a Python formula.
pub open spec fn python_formula(line: Seq<char>) -> Option<Seq<char>> {
    match first_word(line) {
        Some(w) => if is_python_formula(w) {
            Some(w)
        } else {
            None
        },
        None => None,
    }
}

/// The Python formulas that `brew list --versions` lists, in order.
pub fn brew_python_formulas(list: &str) -> (r: Vec<String>)
    ensures
        r.deep_view() == lines(list@).filter_map(|l: Seq<char>| python_formula(l)),
{
    let ls = lines_chars(&chars_of(list));
    let ghost dv = ls.deep_view();
    let python = chars_of("python");
    let python_at = chars_of("python@");
    let mut out: Vec<Vec<char>> = Vec::new();
    let n = ls.len();
    for i in 0..n
        invariant
            n == ls@.len(),
            dv == ls.deep_view(),
            python@ == "python"@,
            python_at@ == "python@"@,
            out.deep_view() == dv.take(i as int).filter_map(|l: Seq<char>| python_formula(l)),
    {
        let ghost before = out.deep_view();
        proof {
            lemma_chars_deep_view(ls@[i as int]);
            assert(dv.take(i + 1).drop_last() =~= dv.take(i as int));
            assert(dv.take(i + 1).last() == dv[i as int]);
        }
        if let Some(w) = first_word_chars(&ls[i]) {
            if chars_eq(&w, &python) || starts_with_chars(&w, &python_at) {
                proof {
                    lemma_chars_deep_view(w);
                }
                out.push(w);
                assert(out.deep_view() =~= before + seq![python_formula(dv[i as int])->0]);
            }
        }
    }
    assert(dv.take(n as int) =~= dv);
    strings_of(&out)
}

/// How the Homebrew formulas are shown: all of them joined with ", ", or the
/// first five followed by ", ..." when there are more than five.
pub open spec fn formula_listing(names: Seq<Seq<char>>) -> Seq<char> {
    if names.len() > 5 {
        join(names.take(5), ", "@) + ", ..."@
    } else {
        join(names, ", "@)
    }
}

/// The listing of the Homebrew formulas.
pub fn brew_listing(names: &Vec<String>) -> (r: String)
    ensures
        r@ == formula_listing(names.deep_view()),
{
    let ghost dv = names.deep_view();
    let k: usize = if names.len() > 5 {
        5
    } else {
        names.len()
    };
    let mut parts: Vec<Vec<char>> = Vec::new();
    for i in 0..k
        invariant
            k <= names@.len(),
            dv == names.deep_view(),
            parts.deep_view() == dv.take(i as int),
    {
        let ghost before = parts.deep_view();
        let c = chars_of(names[i].as_str());
        proof {
            lemma_chars_deep_view(c);
        }
        parts.push(c);
        assert(parts.deep_view() =~= before.push(dv[i as int]));
        assert(dv.take(i + 1) =~= dv.take(i as int).push(dv[i as int]));
    }
    let joined = join_chars(&parts, &chars_of(", "));
    let mut r = string_of(&joined);
    if names.len() > 5 {
        r.append(", ...");
    } else {
        assert(dv.take(k as int) =~= dv);
    }
    r
}

/// Whether a `PATH` entry concerns Python: written in small letters, it
/// contains one of the words python, pyenv, conda, venv, virtualenv, pip,
/// pipx.
pub open spec fn is_python_path_entry(entry: Seq<char>) -> bool {
    let l = lower(entry);
    ||| contains(l, "python"@)
    ||| contains(l, "pyenv"@)
    ||| contains(l, "conda"@)
    ||| contains(l, "venv"@)
    ||| contains(l, "virtualenv"@)
    ||| contains(l, "pip"@)
    ||| contains(l, "pipx"@)
}

/// The test of `is_python_path_entry`, as a predicate.
pub open spec fn python_path_pred() -> spec_fn(Seq<char>) -> bool {
    |e: Seq<char>| is_python_path_entry(e)
}

/// Whether a `PATH` entry concerns Python.
fn python_path_entry(entry: &Vec<char>) -> (b: bool)
    ensures
        b == is_python_path_entry(entry@),
{
    let l = lower_chars(entry);
    contains_chars(&l, &chars_of("python")) || contains_chars(&l, &chars_of("pyenv"))
        || contains_chars(&l, &chars_of("conda")) || contains_chars(&l, &chars_of("venv"))
        || contains_chars(&l, &chars_of("virtualenv")) || contains_chars(&l, &chars_of("pip"))
        || contains_chars(&l, &chars_of("pipx"))
}

/// The entries of `PATH` (split at ':') that concern Python, in order.
pub fn python_path_entries(path: &str) -> (r: Vec<String>)
    ensures
        r.deep_view() == split(path@, ':').filter(python_path_pred()),
{
    let es = split_chars(&chars_of(path), ':');
    let ghost dv = es.deep_view();
    let mut out: Vec<Vec<char>> = Vec::new();
    let n = es.len();
    for i in 0..n
        invariant
            n == es@.len(),
            dv == es.deep_view(),
            out.deep_view() == dv.take(i as int).filter(python_path_pred()),
    {
        let ghost before = out.deep_view();
        proof {
            lemma_chars_deep_view(es@[i as int]);
            reveal_with_fuel(Seq::filter, 1);
            assert(dv.take(i + 1).drop_last() =~= dv.take(i as int));
        }
        if python_path_entry(&es[i]) {
            let e = copy_chars(&es[i]);
            proof {
                lemma_chars_deep_view(e);
            }
            out.push(e);
            assert(out.deep_view() =~= before.push(dv[i as int]));
        }
    }
    assert(dv.take(n as int) =~= dv);
    strings_of(&out)
}

/// The value of the first `PRETTY_NAME=` line among `ls`, without the
/// quotes around it.
pub open spec fn pretty_name(ls: Seq<Seq<char>>) -> Option<Seq<char>>
    decreases ls.len(),
{
    if ls.len() == 0 {
        None
    } else {
        match strip_prefix(ls[0], "PRETTY_NAME="@) {
            Some(v) => Some(trim_char(v, '"')),
            None => pretty_name(ls.drop_first()),
        }
    }
}

/// The distribution's name from the text of `/etc/os-release`.
pub fn linux_pretty_name(os_release: &str) -> (r: Option<String>)
    ensures
        match pretty_name(lines(os_release@)) {
            Some(v) => r matches Some(s) && s@ == v,
            None => r is None,
        },
{
    let ls = lines_chars(&chars_of(os_release));
    let ghost dv = ls.deep_view();
    let key = chars_of("PRETTY_NAME=");
    let n = ls.len();
    for i in 0..n
        invariant
            n == ls@.len(),
            dv == ls.deep_view(),
            key@ == "PRETTY_NAME="@,
            dv == lines(os_release@),
            pretty_name(dv) == pretty_name(dv.skip(i as int)),
    {
        proof {
            lemma_chars_deep_view(ls@[i as int]);
            assert(dv.skip(i as int)[0] == dv[i as int]);
            assert(dv.skip(i as int).drop_first() =~= dv.skip(i + 1));
        }
        if let Some(v) = strip_prefix_chars(&ls[i], &key) {
            assert(pretty_name(dv.skip(i as int)) == Some(trim_char(v@, '"')));
            return Some(string_of(&trim_char_chars(&v, '"')));
        }
    }
    None
}

/// `text` without `prefix` at its start, if it has it there.
pub open spec fn without_prefix(text: Seq<char>, prefix: Seq<char>) -> Seq<char> {
    match strip_prefix(text, prefix) {
        Some(t) => t,
        None => text,
    }
}

/// `text` without `prefix` at its start, if it has it there (a version
/// line such as "pyenv 2.4.0" shown as "2.4.0").
pub fn strip_version_prefix(text: &str, prefix: &str) -> (r: String)
    ensures
        r@ == without_prefix(text@, prefix@),
{
    match strip_prefix_chars(&chars_of(text), &chars_of(prefix)) {
        Some(t) => string_of(&t),
        None => text.to_owned(),
    }
}

} // verus!
