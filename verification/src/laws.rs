//! Properties of the library as a whole, proved over the specifications
//! that the functions' contracts use.
use vstd::prelude::*;

use crate::lookup::{candidate, candidates, system_description};
use crate::outputs::{
    is_dash_line, is_executable_line, python_formula, is_python_path_entry, is_tool_line, names_package, not_blank,
    not_empty, python_path_pred,
};
use crate::render::{item_text, type_text};
use crate::queries::watched_names;
use crate::report::{
    env_section, lookup_text, nth_value, opt_or, opt_text, pip_field_text, pipx_has, shown_all, uv_has,
    uv_text, FullFacts, LineKind, UvFacts,
};
use crate::outputs::without_prefix;
use crate::styles::{chosen_theme, is_plain, Styles, Theme};
use crate::text::{
    contains, decimal, ends_with, find, first_word, join, starts_with, trim_start, pad_right, strip_cr, is_blank, lemma_find_from_bounds, lines, lower,
    space_pred, split, split_once, strip_suffix, trim, trim_end_by, trim_start_by,
};

verus! {

broadcast use vstd::seq_lib::group_filter_ensures;

/// Splitting around a pattern and putting the pattern back gives the text.
pub proof fn lemma_split_once_rejoins(t: Seq<char>, p: Seq<char>)
    ensures
        split_once(t, p) matches Some((a, b)) ==> t == a + p + b,
{
    lemma_find_from_bounds(t, p, 0);
    if let Some(i) = find(t, p) {
        assert(t =~= t.take(i) + t.subrange(i, i + p.len()) + t.skip(i + p.len()));
    }
}

/// Without colours, an item shows its text unchanged after the bullet,
/// whether it is split into a key and a value or not.
pub proof fn law_plain_item_shows_text(s: Styles, text: Seq<char>)
    requires
        is_plain(s),
    ensures
        item_text(s, text) == "  • "@ + text,
{
    lemma_split_once_rejoins(text, " : "@);
    lemma_split_once_rejoins(text, " = "@);
    let e = Seq::<char>::empty();
    match split_once(text, " : "@) {
        Some((k, v)) => {
            assert("  • "@ + e + k + e + " : "@ + e + v + e =~= "  • "@ + (k + " : "@ + v));
        },
        None => match split_once(text, " = "@) {
            Some((k, v)) => {
                assert("  • "@ + e + k + e + " = "@ + e + v + e =~= "  • "@ + (k + " = "@ + v));
            },
            None => {
                assert("  • "@ + e + text + e =~= "  • "@ + text);
            },
        },
    }
}

/// Whether a line is the "cmd : non trouvé" form that shows a missing
/// command.
pub open spec fn is_not_found_form(text: Seq<char>) -> bool {
    &&& split_once(text, " is "@) is None
    &&& strip_suffix(text, " not found"@) is None
    &&& split_once(text, " : "@) matches Some((c, r)) && r == "non trouvé"@
}

/// Without colours, a line of `type -a` shows unchanged after the bullet,
/// except "cmd : non trouvé", which shows as "cmd not found".
pub proof fn law_plain_type_line(s: Styles, text: Seq<char>)
    requires
        is_plain(s),
    ensures
        !is_not_found_form(text) ==> type_text(s, text) == "  • "@ + text,
        is_not_found_form(text) ==> (split_once(text, " : "@) matches Some((c, r)) && type_text(
            s,
            text,
        ) == "  • "@ + c + " not found"@),
{
    lemma_split_once_rejoins(text, " is "@);
    law_plain_item_shows_text(s, text);
    let e = Seq::<char>::empty();
    match split_once(text, " is "@) {
        Some((c, r)) => {
            assert("  • "@ + e + c + e + " is "@ + e + r + e =~= "  • "@ + (c + " is "@ + r));
        },
        None => match strip_suffix(text, " not found"@) {
            Some(c) => {
                assert(text =~= c + " not found"@);
                assert("  • "@ + e + c + e + " not found"@ + e =~= "  • "@ + (c + " not found"@));
            },
            None => match split_once(text, " : "@) {
                Some((c, r)) => {
                    if r == "non trouvé"@ {
                        assert("  • "@ + e + c + e + " not found"@ + e =~= "  • "@ + c
                            + " not found"@);
                    }
                },
                None => {},
            },
        },
    }
}

/// The theme does not depend on the ASCII case of `PYTHONINFO_THEME`.
pub proof fn law_theme_ignores_case(t1: Seq<char>, t2: Seq<char>, mode: Option<Seq<char>>)
    requires
        lower(t1) == lower(t2),
    ensures
        chosen_theme(Some(t1), mode) == chosen_theme(Some(t2), mode),
{
}

/// Whether pipx or uv installed a package does not depend on the ASCII case
/// of the package name.
pub proof fn law_origin_ignores_case(
    pipx_list: Option<String>,
    uv_list: Option<String>,
    p1: Seq<char>,
    p2: Seq<char>,
)
    requires
        lower(p1) == lower(p2),
    ensures
        pipx_has(pipx_list, p1) == pipx_has(pipx_list, p2),
        uv_has(uv_list, p1) == uv_has(uv_list, p2),
{
    assert forall|l: Seq<char>| names_package(l, p1) == names_package(l, p2) by {}
}

/// Every path that a search tries for `cmd` ends with "/" and `cmd`, and
/// there is one per entry of `PATH`.
pub proof fn law_candidates_end_with_command(path: Seq<char>, cmd: Seq<char>)
    ensures
        candidates(path, cmd).len() == split(path, ':').len(),
        forall|i: int|
            0 <= i < candidates(path, cmd).len() ==> #[trigger] candidates(path, cmd)[i] == split(
                path,
                ':',
            )[i] + "/"@ + cmd && ends_with(candidates(path, cmd)[i], "/"@ + cmd),
{
    assert forall|i: int| 0 <= i < candidates(path, cmd).len() implies ends_with(
        #[trigger] candidates(path, cmd)[i],
        "/"@ + cmd,
    ) by {
        let d = split(path, ':')[i];
        let c = candidate(d, cmd);
        assert(c.skip(c.len() - ("/"@ + cmd).len()) =~= "/"@ + cmd);
    }
}

/// A kept element of a filter comes from the filtered sequence.
proof fn lemma_filter_subset<A>(s: Seq<A>, p: spec_fn(A) -> bool, i: int)
    requires
        0 <= i < s.filter(p).len(),
    ensures
        s.contains(s.filter(p)[i]),
    decreases s.len(),
{
    reveal_with_fuel(Seq::filter, 1);
    if s.len() > 0 {
        let rest = s.drop_last().filter(p);
        if i < rest.len() {
            lemma_filter_subset(s.drop_last(), p, i);
            let j = choose|j: int| 0 <= j < s.drop_last().len() && s.drop_last()[j] == rest[i];
            assert(s[j] == s.filter(p)[i]);
        } else {
            assert(s.filter(p)[i] == s[s.len() - 1]);
        }
    }
}

/// `trim_end_by` keeps a prefix.
proof fn lemma_trim_end_prefix(s: Seq<char>, p: spec_fn(char) -> bool)
    ensures
        trim_end_by(s, p).len() <= s.len(),
        trim_end_by(s, p) == s.take(trim_end_by(s, p).len() as int),
    decreases s.len(),
{
    if s.len() > 0 && p(s.last()) {
        lemma_trim_end_prefix(s.drop_last(), p);
        assert(s.drop_last().take(trim_end_by(s, p).len() as int) =~= s.take(
            trim_end_by(s, p).len() as int,
        ));
    } else {
        assert(s.take(s.len() as int) =~= s);
    }
}

/// `trim_start_by` leaves nothing removable at the front.
proof fn lemma_trim_start_stops(s: Seq<char>, p: spec_fn(char) -> bool)
    ensures
        trim_start_by(s, p).len() > 0 ==> !p(trim_start_by(s, p)[0]),
    decreases s.len(),
{
    if s.len() > 0 && p(s[0]) {
        lemma_trim_start_stops(s.drop_first(), p);
    }
}

/// `trim_end_by` leaves nothing removable at the back.
proof fn lemma_trim_end_stops(s: Seq<char>, p: spec_fn(char) -> bool)
    ensures
        trim_end_by(s, p).len() > 0 ==> !p(trim_end_by(s, p).last()),
    decreases s.len(),
{
    if s.len() > 0 && p(s.last()) {
        lemma_trim_end_stops(s.drop_last(), p);
    }
}

/// Trimming twice is trimming once.
pub proof fn lemma_trim_idempotent(s: Seq<char>)
    ensures
        trim(trim(s)) == trim(s),
{
    let p = space_pred();
    let a = trim_start_by(s, p);
    let b = trim_end_by(a, p);
    lemma_trim_end_prefix(a, p);
    lemma_trim_start_stops(s, p);
    lemma_trim_end_stops(a, p);
    if b.len() > 0 {
        assert(b[0] == a[0]);
    }
    assert(trim_start_by(b, p) == b);
    assert(trim_end_by(b, p) == b);
}

/// The lines kept from `type -a` are trimmed and not empty.
pub proof fn law_type_lines_trimmed(stdout: Seq<char>)
    ensures
        ({
            let r = lines(stdout).map_values(|l: Seq<char>| trim(l)).filter(not_empty());
            forall|i: int| 0 <= i < r.len() ==> #[trigger] r[i].len() > 0 && trim(r[i]) == r[i]
        }),
{
    let t = lines(stdout).map_values(|l: Seq<char>| trim(l));
    let r = t.filter(not_empty());
    assert forall|i: int| 0 <= i < r.len() implies #[trigger] r[i].len() > 0 && trim(r[i])
        == r[i] by {
        assert((not_empty())(r[i]));
        lemma_filter_subset(t, not_empty(), i);
        let j = choose|j: int| 0 <= j < t.len() && t[j] == r[i];
        lemma_trim_idempotent(lines(stdout)[j]);
    }
}

/// The console scripts shown are never blank and hold no line feed.
pub proof fn law_console_scripts_not_blank(output: Seq<char>)
    ensures
        forall|i: int|
            0 <= i < lines(output).filter(not_blank()).len() ==> !is_blank(
                #[trigger] lines(output).filter(not_blank())[i],
            ) && !lines(output).filter(not_blank())[i].contains('\n'),
{
    law_lines_hold_no_line_feed(output);
    assert forall|i: int| 0 <= i < lines(output).filter(not_blank()).len() implies !is_blank(
        #[trigger] lines(output).filter(not_blank())[i],
    ) && !lines(output).filter(not_blank())[i].contains('\n') by {
        assert((not_blank())(lines(output).filter(not_blank())[i]));
        lemma_filter_subset(lines(output), not_blank(), i);
        let j = choose|j: int|
            0 <= j < lines(output).len() && lines(output)[j] == lines(output).filter(
                not_blank(),
            )[i];
        assert(!lines(output)[j].contains('\n'));
    }
}

/// The interpreter's self-description is shown line by line, every line
/// kept in order, blank ones included: the lines hold no line feed, and
/// for an output without carriage returns or a final line feed (as the
/// trimmed output of a command is) they join with line feeds into the
/// output itself.
pub proof fn law_runtime_details_rejoin(output: Seq<char>)
    requires
        !output.contains('\r'),
        !(output.len() > 0 && output.last() == '\n'),
    ensures
        join(lines(output), "\n"@) == output,
        forall|i: int| 0 <= i < lines(output).len() ==> !(#[trigger] lines(output)[i]).contains('\n'),
{
    law_lines_rejoin(output);
    law_lines_hold_no_line_feed(output);
    assert(join(lines(output), "\n"@) + Seq::<char>::empty() =~= join(lines(output), "\n"@));
}

/// The `PATH` entries shown are entries of `PATH` that concern Python.
pub proof fn law_path_entries_concern_python(path: Seq<char>)
    ensures
        forall|i: int|
            0 <= i < split(path, ':').filter(python_path_pred()).len() ==> {
                let e = #[trigger] split(path, ':').filter(python_path_pred())[i];
                is_python_path_entry(e) && split(path, ':').contains(e)
            },
{
    let es = split(path, ':');
    assert forall|i: int| 0 <= i < es.filter(python_path_pred()).len() implies {
        let e = #[trigger] es.filter(python_path_pred())[i];
        is_python_path_entry(e) && es.contains(e)
    } by {
        assert((python_path_pred())(es.filter(python_path_pred())[i]));
        lemma_filter_subset(es, python_path_pred(), i);
    }
}

/// A field of `pip show` shows its trimmed key in a column at least twelve
/// characters wide: the key, then spaces up to the twelfth character.
pub proof fn law_pip_field_key_column(s: Styles, line: Seq<char>)
    ensures
        split_once(line, ":"@) matches Some((k, v)) ==> {
            let col = pad_right(trim(k), 12);
            &&& pip_field_text(s, line) == "  • "@ + s.key@ + col + s.dim@ + ": "@ + s.value@ + trim(v)
                + s.reset@
            &&& col.len() == if trim(k).len() >= 12 {
                trim(k).len()
            } else {
                12
            }
            &&& col.take(trim(k).len() as int) == trim(k)
            &&& forall|j: int| trim(k).len() <= j < col.len() ==> col[j] == ' '
        },
{
    if let Some((k, v)) = split_once(line, ":"@) {
        let t = trim(k);
        let col = pad_right(t, 12);
        assert(col.take(t.len() as int) =~= t);
    }
}

/// The pieces of `split` hold no separator, and joined with the separator
/// they give the text back; the last piece is empty exactly when the text
/// is empty or ends with the separator.
pub proof fn lemma_split_rejoins(s: Seq<char>, sep: char)
    ensures
        split(s, sep).len() >= 1,
        join(split(s, sep), seq![sep]) == s,
        forall|i: int| 0 <= i < split(s, sep).len() ==> !(#[trigger] split(s, sep)[i]).contains(sep),
        (split(s, sep).last().len() == 0) == (s.len() == 0 || s.last() == sep),
    decreases s.len(),
{
    if s.len() > 0 {
        let t = s.drop_last();
        let c = s.last();
        let p = split(t, sep);
        lemma_split_rejoins(t, sep);
        assert(t.push(c) =~= s);
        if c == sep {
            let q = p.push(Seq::<char>::empty());
            assert(q.drop_last() =~= p);
            assert(join(q, seq![sep]) =~= join(p, seq![sep]) + seq![sep] + Seq::<char>::empty());
            assert forall|i: int| 0 <= i < q.len() implies !(#[trigger] q[i]).contains(sep) by {
                if i < p.len() {
                    assert(q[i] == p[i]);
                }
            }
        } else {
            let k = p.len() - 1;
            let q = p.update(k, p.last().push(c));
            if p.len() == 1 {
                assert(join(q, seq![sep]) == q[0]);
                assert(join(p, seq![sep]) == p[0]);
            } else {
                assert(q.drop_last() =~= p.drop_last());
                assert(join(q, seq![sep]) =~= join(p.drop_last(), seq![sep]) + seq![sep] + p.last().push(
                    c,
                ));
                assert(join(p, seq![sep]) == join(p.drop_last(), seq![sep]) + seq![sep] + p.last());
            }
            assert forall|i: int| 0 <= i < q.len() implies !(#[trigger] q[i]).contains(sep) by {
                if i < k {
                    assert(q[i] == p[i]);
                } else {
                    assert(!p[k].contains(sep));
                    assert forall|j: int| 0 <= j < q[i].len() implies q[i][j] != sep by {
                        if j < p[k].len() {
                            assert(q[i][j] == p[k][j]);
                        }
                    }
                }
            }
        }
    }
}

/// No line holds a line feed.
pub proof fn law_lines_hold_no_line_feed(s: Seq<char>)
    ensures
        forall|i: int| 0 <= i < lines(s).len() ==> !(#[trigger] lines(s)[i]).contains('\n'),
{
    let parts = split(s, '\n');
    lemma_split_rejoins(s, '\n');
    assert forall|i: int| 0 <= i < lines(s).len() implies !(#[trigger] lines(s)[i]).contains('\n') by {
        if i < parts.len() - 1 {
            let l = parts[i];
            assert(lines(s)[i] == strip_cr(l));
            assert(!l.contains('\n'));
            assert forall|j: int| 0 <= j < strip_cr(l).len() implies strip_cr(l)[j] != '\n' by {
                assert(strip_cr(l)[j] == l[j]);
            }
        } else {
            assert(lines(s)[i] == parts.last());
        }
    }
}

/// A text without carriage returns is its lines joined with line feeds,
/// followed by a line feed when it ended with one.
pub proof fn law_lines_rejoin(s: Seq<char>)
    requires
        !s.contains('\r'),
    ensures
        s == join(lines(s), "\n"@) + (if s.len() > 0 && s.last() == '\n' {
            "\n"@
        } else {
            Seq::<char>::empty()
        }),
{
    reveal_strlit("\n");
    assert("\n"@ =~= seq!['\n']);
    let parts = split(s, '\n');
    lemma_split_rejoins(s, '\n');
    lemma_split_pieces_within(s, '\n');
    let body = parts.drop_last().map_values(|l: Seq<char>| strip_cr(l));
    assert(body =~= parts.drop_last()) by {
        assert forall|i: int| 0 <= i < body.len() implies body[i] == parts.drop_last()[i] by {
            let l = parts[i];
            if l.len() > 0 && l.last() == '\r' {
                assert(s.contains(l.last()));
            }
        }
    }
    if parts.last().len() == 0 {
        if parts.len() == 1 {
            assert(s.len() == 0);
            assert(lines(s) =~= Seq::<Seq<char>>::empty());
        } else {
            assert(join(parts, seq!['\n']) == join(parts.drop_last(), seq!['\n']) + seq!['\n']
                + parts.last());
            assert(s =~= join(parts.drop_last(), seq!['\n']) + seq!['\n']);
        }
    } else {
        assert(parts.drop_last().push(parts.last()) =~= parts);
        assert(s =~= join(lines(s), seq!['\n']) + Seq::<char>::empty());
    }
}

/// Every character of a piece of `split` is a character of the text.
proof fn lemma_split_pieces_within(s: Seq<char>, sep: char)
    ensures
        forall|i: int, j: int|
            0 <= i < split(s, sep).len() && 0 <= j < split(s, sep)[i].len() ==> s.contains(
                #[trigger] split(s, sep)[i][j],
            ),
    decreases s.len(),
{
    if s.len() > 0 {
        let t = s.drop_last();
        lemma_split_pieces_within(t, sep);
        lemma_split_rejoins(t, sep);
        let p = split(t, sep);
        assert forall|i: int, j: int|
            0 <= i < split(s, sep).len() && 0 <= j < split(s, sep)[i].len() implies s.contains(
            #[trigger] split(s, sep)[i][j],
        ) by {
            let x = split(s, sep)[i][j];
            if s.last() == sep {
                assert(i < p.len());
                assert(t.contains(x));
                let k = choose|k: int| 0 <= k < t.len() && t[k] == x;
                assert(s[k] == x);
            } else if i < p.len() - 1 || j < p[i].len() {
                assert(t.contains(x));
                let k = choose|k: int| 0 <= k < t.len() && t[k] == x;
                assert(s[k] == x);
            } else {
                assert(x == s.last());
                assert(s[s.len() - 1] == x);
            }
        }
    }
}

/// Without colours, the environment section shows, right after its three
/// heading lines, exactly the eight watched variables in order, each as
/// "name=value" after the bullet, an empty or unset one as "(vide)".
pub proof fn law_plain_env_section(s: Styles, f: FullFacts)
    requires
        is_plain(s),
    ensures
        env_section(s, f).subrange(3, 11) == Seq::new(
            8,
            |i: int|
                {
                    let v = opt_text(nth_value(f.env_values@, i));
                    "  • "@ + watched_names()[i] + "="@ + (if v.len() == 0 {
                        "(vide)"@
                    } else {
                        v
                    })
                },
        ),
{
    let e = Seq::<char>::empty();
    let want = Seq::new(
        8,
        |i: int|
            {
                let v = opt_text(nth_value(f.env_values@, i));
                "  • "@ + watched_names()[i] + "="@ + (if v.len() == 0 {
                    "(vide)"@
                } else {
                    v
                })
            },
    );
    assert forall|i: int| 0 <= i < 8 implies #[trigger] env_section(s, f).subrange(3, 11)[i]
        == want[i] by {
        let v = opt_text(nth_value(f.env_values@, i));
        let shown = if v.len() == 0 {
            "(vide)"@
        } else {
            v
        };
        assert(env_section(s, f)[3 + i] == "  • "@ + e + watched_names()[i] + e + "="@ + e + shown
            + e);
        assert("  • "@ + e + watched_names()[i] + e + "="@ + e + shown + e =~= "  • "@
            + watched_names()[i] + "="@ + shown);
    }
    assert(env_section(s, f).subrange(3, 11) =~= want);
}

/// Whether the first word of `line` is `package`, written in the same
/// letters up to ASCII case: a longer word that merely starts with the
/// package name does not count.
pub open spec fn first_word_is(line: Seq<char>, package: Seq<char>) -> bool {
    exists|w: Seq<char>| first_word(line) == Some(w) && lower(w) == lower(package)
}

/// Whether a line, past its leading white space, begins with '-'.
pub open spec fn begins_with_dash(line: Seq<char>) -> bool {
    trim_start(line).len() > 0 && trim_start(line)[0] == '-'
}

/// pipx is said to have installed a package exactly when some line of
/// `pipx list --short` has the package name itself as its first word, up to
/// ASCII case; uv likewise, over the lines of `uv tool list` that do not
/// begin with '-'.
pub proof fn law_origin_matches_whole_name(list: String, package: Seq<char>)
    ensures
        pipx_has(Some(list), package) <==> exists|i: int|
            0 <= i < lines(list@).len() && first_word_is(#[trigger] lines(list@)[i], package),
        uv_has(Some(list), package) <==> exists|i: int|
            0 <= i < lines(list@).len() && !begins_with_dash(#[trigger] lines(list@)[i])
                && first_word_is(lines(list@)[i], package),
{
    let ls = lines(list@);
    assert forall|l: Seq<char>| #[trigger] names_package(l, package) == first_word_is(l, package) by {
        lemma_names_package_whole(l, package);
    }
    assert forall|l: Seq<char>| #[trigger] is_dash_line(l) == begins_with_dash(l) by {
        crate::text::lemma_starts_with_dash(trim_start(l));
    }
    if pipx_has(Some(list), package) {
        let i = choose|i: int| 0 <= i < ls.len() && names_package(#[trigger] ls[i], package);
        assert(first_word_is(ls[i], package));
    }
    if exists|i: int| 0 <= i < ls.len() && first_word_is(#[trigger] ls[i], package) {
        let i = choose|i: int| 0 <= i < ls.len() && first_word_is(#[trigger] ls[i], package);
        assert(names_package(ls[i], package));
    }
    if uv_has(Some(list), package) {
        let i = choose|i: int|
            0 <= i < ls.len() && !is_dash_line(#[trigger] ls[i]) && names_package(ls[i], package);
        assert(!begins_with_dash(ls[i]) && first_word_is(ls[i], package));
    }
    if exists|i: int| 0 <= i < ls.len() && !begins_with_dash(#[trigger] ls[i]) && first_word_is(ls[i], package) {
        let i = choose|i: int|
            0 <= i < ls.len() && !begins_with_dash(#[trigger] ls[i]) && first_word_is(ls[i], package);
        assert(!is_dash_line(ls[i]) && names_package(ls[i], package));
    }
}

/// A line names a package exactly when its first word is the package name.
proof fn lemma_names_package_whole(l: Seq<char>, package: Seq<char>)
    ensures
        names_package(l, package) == first_word_is(l, package),
{
    if let Some(w) = first_word(l) {
        if names_package(l, package) {
            assert(first_word(l) == Some(w) && lower(w) == lower(package));
        }
        if first_word_is(l, package) {
            let v = choose|v: Seq<char>| first_word(l) == Some(v) && lower(v) == lower(package);
            assert(v == w);
        }
    }
}

/// For a command that `type -a` found, the section shows one line per
/// trimmed non-empty line of the output, each laid out as a `type -a`
/// line, in order; for one it did not find, the single line
/// "name : non trouvé".
pub proof fn law_lookup_shows_every_occurrence(s: Styles, name: Seq<char>, stdout: Seq<char>)
    ensures
        ({
            let found = lines(stdout).map_values(|l: Seq<char>| trim(l)).filter(
                |l: Seq<char>| l.len() > 0,
            );
            &&& found.len() == 0 ==> lookup_text(s, name, stdout) == seq![
                type_text(s, name + " : non trouvé"@),
            ]
            &&& found.len() > 0 ==> lookup_text(s, name, stdout).len() == found.len()
            &&& found.len() > 0 ==> forall|i: int|
                0 <= i < found.len() ==> #[trigger] lookup_text(s, name, stdout)[i] == type_text(
                    s,
                    found[i],
                )
        }),
{
    let t = lines(stdout).map_values(|l: Seq<char>| trim(l));
    assert(not_empty() =~= (|l: Seq<char>| l.len() > 0));
    assert(t.filter(not_empty()) == t.filter(|l: Seq<char>| l.len() > 0));
}

/// The uv line shows, after "tools=", how many lines of `uv tool list` are
/// neither blank nor begin with '-', and after "executables=", how many
/// begin with '-' (past leading white space).
pub proof fn law_uv_counts_in_place(s: Styles, u: UvFacts)
    ensures
        ({
            let ls = lines(opt_text(u.tool_list));
            let tools = ls.filter(|l: Seq<char>| !is_blank(l) && !begins_with_dash(l)).len();
            let exes = ls.filter(|l: Seq<char>| begins_with_dash(l)).len();
            uv_text(s, Some(u)) == item_text(
                s,
                "uv : "@ + without_prefix(opt_or(u.version, "unknown"@), "uv "@) + " (tools="@
                    + decimal(tools) + ", executables="@ + decimal(exes) + ", dir="@ + opt_or(
                    u.tool_dir,
                    "unknown"@,
                ) + ", binaires globaux=oui via 'uv tool')"@,
            )
        }),
{
    let ls = lines(opt_text(u.tool_list));
    assert forall|l: Seq<char>| #[trigger] is_dash_line(l) == begins_with_dash(l) by {
        crate::text::lemma_starts_with_dash(trim_start(l));
    }
    assert(is_tool_line() =~= (|l: Seq<char>| !is_blank(l) && !begins_with_dash(l)));
    assert(is_executable_line() =~= (|l: Seq<char>| begins_with_dash(l)));
    assert(ls.filter(is_tool_line()) == ls.filter(
        |l: Seq<char>| !is_blank(l) && !begins_with_dash(l),
    ));
    assert(ls.filter(is_executable_line()) == ls.filter(|l: Seq<char>| begins_with_dash(l)));
}

/// The words that make a `PATH` entry concern Python.
pub open spec fn python_words() -> Seq<Seq<char>> {
    seq!["python"@, "pyenv"@, "conda"@, "venv"@, "virtualenv"@, "pip"@, "pipx"@]
}

/// A `PATH` entry is shown exactly when, written in small ASCII letters, it
/// contains one of python, pyenv, conda, venv, virtualenv, pip, pipx; the
/// entries shown are those of `PATH`, in order.
pub proof fn law_path_entries_by_words(path: Seq<char>)
    ensures
        split(path, ':').filter(python_path_pred()) == split(path, ':').filter(
            |e: Seq<char>|
                exists|k: int| 0 <= k < python_words().len() && contains(lower(e), python_words()[k]),
        ),
        forall|e: Seq<char>|
            #![trigger is_python_path_entry(e)]
            is_python_path_entry(e) <==> exists|k: int|
                0 <= k < python_words().len() && contains(lower(e), python_words()[k]),
{
    let q = |e: Seq<char>|
        exists|k: int| 0 <= k < python_words().len() && contains(lower(e), python_words()[k]);
    assert forall|e: Seq<char>| #[trigger] is_python_path_entry(e) <==> q(e) by {
        let l = lower(e);
        if is_python_path_entry(e) {
            if contains(l, "python"@) {
                assert(python_words()[0] == "python"@);
            } else if contains(l, "pyenv"@) {
                assert(python_words()[1] == "pyenv"@);
            } else if contains(l, "conda"@) {
                assert(python_words()[2] == "conda"@);
            } else if contains(l, "venv"@) {
                assert(python_words()[3] == "venv"@);
            } else if contains(l, "virtualenv"@) {
                assert(python_words()[4] == "virtualenv"@);
            } else if contains(l, "pip"@) {
                assert(python_words()[5] == "pip"@);
            } else {
                assert(python_words()[6] == "pipx"@);
            }
        }
    }
    assert(python_path_pred() =~= q);
}

/// A `PYTHONINFO_THEME` that names a palette decides, whatever
/// `ZSH_THEME_MODE` says: dark and dracula give the dark palette, light and
/// alucard the light one (up to ASCII case). Otherwise, and when it is
/// unset, `ZSH_THEME_MODE` decides: light (up to ASCII case) gives the light
/// palette, anything else or nothing the dark one.
pub proof fn law_theme_choice(theme: Option<Seq<char>>, mode: Option<Seq<char>>)
    ensures
        theme matches Some(t) && (lower(t) == "dark"@ || lower(t) == "dracula"@) ==> chosen_theme(
            theme,
            mode,
        ) == Theme::Dark,
        theme matches Some(t) && (lower(t) == "light"@ || lower(t) == "alucard"@) ==> chosen_theme(
            theme,
            mode,
        ) == Theme::Light,
        !(theme matches Some(t) && (lower(t) == "dark"@ || lower(t) == "dracula"@ || lower(t)
            == "light"@ || lower(t) == "alucard"@)) ==> chosen_theme(theme, mode) == (
        if mode matches Some(m) && lower(m) == "light"@ {
            Theme::Light
        } else {
            Theme::Dark
        }),
{
    reveal_strlit("auto");
    reveal_strlit("dark");
    reveal_strlit("light");
    reveal_strlit("dracula");
    reveal_strlit("alucard");
    assert(lower("auto"@) =~= "auto"@);
    assert(lower("dark"@) =~= "dark"@);
    assert("auto"@ != "light"@ && "auto"@ != "alucard"@ && "auto"@ != "dark"@ && "auto"@
        != "dracula"@) by {
        assert("auto"@[0] != "light"@[0]);
        assert("auto"@[0] != "dark"@[0]);
        assert("auto"@.len() != "alucard"@.len());
        assert("auto"@.len() != "dracula"@.len());
    }
    assert("dark"@ != "light"@ && "dark"@ != "alucard"@ && "dracula"@ != "light"@ && "dracula"@
        != "alucard"@) by {
        assert("dark"@[0] != "light"@[0]);
        assert("dark"@.len() != "alucard"@.len());
        assert("dracula"@.len() != "light"@.len());
        assert("dracula"@[0] != "alucard"@[0]);
    }
}

/// Darwin is shown as macOS and Linux as Linux, each with the version
/// found for it ("unknown" when none was); any other system keeps the name
/// that `uname -s` gave and has an unknown version; the architecture is
/// always the one `uname -m` gave.
pub proof fn law_system_names(os: Seq<char>, arch: Seq<char>, version: Option<Seq<char>>)
    ensures
        ({
            let v = if let Some(v) = version {
                v
            } else {
                "unknown"@
            };
            &&& os == "Darwin"@ ==> system_description(os, arch, version) == ("macOS"@, v, arch)
            &&& os == "Linux"@ ==> system_description(os, arch, version) == ("Linux"@, v, arch)
            &&& os != "Darwin"@ && os != "Linux"@ ==> system_description(os, arch, version) == (
                os,
                "unknown"@,
                arch,
            )
        }),
{
    reveal_strlit("Darwin");
    reveal_strlit("Linux");
    assert("Darwin"@ != "Linux"@) by {
        assert("Darwin"@[0] != "Linux"@[0]);
    }
}

/// A line of `brew list --versions` gives a Python formula exactly when its
/// first word is "python" or begins with "python@"; the formula is that
/// word.
pub proof fn law_brew_formula_words(line: Seq<char>)
    ensures
        python_formula(line) is Some <==> (first_word(line) matches Some(w) && (w == "python"@ || (
        w.len() >= 7 && w.take(7) == "python@"@))),
        python_formula(line) matches Some(w) ==> first_word(line) == Some(w),
{
    reveal_strlit("python@");
}

} // verus!
