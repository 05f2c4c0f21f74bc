//! The layout of report lines: section headers, bullet items, and the lines
//! that `type -a` prints.
use vstd::prelude::*;

use crate::styles::Styles;
use crate::text::{
    chars_eq, chars_of, push_chars, split_once, split_once_chars, strip_suffix, strip_suffix_chars,
};

verus! {

/// The rule under a section title.
pub open spec fn rule() -> Seq<char> {
    "──────────────────────────────────────────────"@
}

/// The three lines that open a section: an empty line, the title, a rule.
pub open spec fn section_text(s: Styles, title: Seq<char>) -> Seq<Seq<char>> {
    seq![Seq::<char>::empty(), s.section@ + title + s.reset@, s.dim@ + rule() + s.reset@]
}

/// A bullet holding `text` as a value.
pub open spec fn value_text(s: Styles, text: Seq<char>) -> Seq<char> {
    "  • "@ + s.value@ + text + s.reset@
}

/// A bullet holding a key, a separator and a value.
pub open spec fn pair_text(s: Styles, k: Seq<char>, sep: Seq<char>, v: Seq<char>) -> Seq<char> {
    "  • "@ + s.key@ + k + s.dim@ + sep + s.value@ + v + s.reset@
}

/// A bullet for a command that was not found.
pub open spec fn missing_text(s: Styles, cmd: Seq<char>) -> Seq<char> {
    "  • "@ + s.neg@ + cmd + s.dim@ + " not found"@ + s.reset@
}

/// An item: "key : value" and "key = value" are shown as a key and a
/// value (split at the first separator, " : " first), anything else as a
/// value.
pub open spec fn item_text(s: Styles, text: Seq<char>) -> Seq<char> {
    match split_once(text, " : "@) {
        Some((k, v)) => pair_text(s, k, " : "@, v),
        None => match split_once(text, " = "@) {
            Some((k, v)) => pair_text(s, k, " = "@, v),
            None => value_text(s, text),
        },
    }
}

/// A line of `type -a`: "cmd is path" shows a key and a value, "cmd not
/// found" and "cmd : non trouvé" show a missing command, anything else is
/// an item.
pub open spec fn type_text(s: Styles, text: Seq<char>) -> Seq<char> {
    match split_once(text, " is "@) {
        Some((cmd, rest)) => pair_text(s, cmd, " is "@, rest),
        None => match strip_suffix(text, " not found"@) {
            Some(cmd) => missing_text(s, cmd),
            None => match split_once(text, " : "@) {
                Some((cmd, rest)) => if rest == "non trouvé"@ {
                    missing_text(s, cmd)
                } else {
                    item_text(s, text)
                },
                None => item_text(s, text),
            },
        },
    }
}

/// The three lines that open a section.
pub fn section_lines(styles: &Styles, title: &str) -> (r: Vec<String>)
    ensures
        r.deep_view() == section_text(*styles, title@),
{
    let mut head = styles.section.to_owned();
    head.append(title);
    head.append(styles.reset);
    let mut rule_line = styles.dim.to_owned();
    rule_line.append("──────────────────────────────────────────────");
    rule_line.append(styles.reset);
    let mut r: Vec<String> = Vec::new();
    r.push(String::new());
    r.push(head);
    r.push(rule_line);
    assert(r.deep_view() =~= section_text(*styles, title@));
    r
}

/// A bullet holding `text` as a value.
pub fn value_line(styles: &Styles, text: &str) -> (r: String)
    ensures
        r@ == value_text(*styles, text@),
{
    let mut r = "  • ".to_owned();
    r.append(styles.value);
    r.append(text);
    r.append(styles.reset);
    r
}

/// A bullet holding a key, a separator and a value.
fn pair_line(styles: &Styles, k: &Vec<char>, sep: &str, v: &Vec<char>) -> (r: String)
    ensures
        r@ == pair_text(*styles, k@, sep@, v@),
{
    let mut r = "  • ".to_owned();
    r.append(styles.key);
    push_chars(&mut r, k);
    r.append(styles.dim);
    r.append(sep);
    r.append(styles.value);
    push_chars(&mut r, v);
    r.append(styles.reset);
    r
}

/// A bullet for a command that was not found.
fn missing_line(styles: &Styles, cmd: &Vec<char>) -> (r: String)
    ensures
        r@ == missing_text(*styles, cmd@),
{
    let mut r = "  • ".to_owned();
    r.append(styles.neg);
    push_chars(&mut r, cmd);
    r.append(styles.dim);
    r.append(" not found");
    r.append(styles.reset);
    r
}

/// An item line.
pub fn item_line(styles: &Styles, text: &str) -> (r: String)
    ensures
        r@ == item_text(*styles, text@),
{
    let t = chars_of(text);
    if let Some((k, v)) = split_once_chars(&t, &chars_of(" : ")) {
        return pair_line(styles, &k, " : ", &v);
    }
    if let Some((k, v)) = split_once_chars(&t, &chars_of(" = ")) {
        return pair_line(styles, &k, " = ", &v);
    }
    value_line(styles, text)
}

/// A line of `type -a`.
pub fn type_line(styles: &Styles, text: &str) -> (r: String)
    ensures
        r@ == type_text(*styles, text@),
{
    let t = chars_of(text);
    if let Some((cmd, rest)) = split_once_chars(&t, &chars_of(" is ")) {
        return pair_line(styles, &cmd, " is ", &rest);
    }
    if let Some(cmd) = strip_suffix_chars(&t, &chars_of(" not found")) {
        return missing_line(styles, &cmd);
    }
    if let Some((cmd, rest)) = split_once_chars(&t, &chars_of(" : ")) {
        if chars_eq(&rest, &chars_of("non trouvé")) {
            return missing_line(styles, &cmd);
        }
    }
    item_line(styles, text)
}

} // verus!
