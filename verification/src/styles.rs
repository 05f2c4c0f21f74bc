//! Terminal colours: none when the output is not a terminal, else a light or
//! a dark palette chosen from the environment.
use vstd::prelude::*;

use crate::text::{chars_eq, chars_of, lower, lower_chars};

verus! {

/// The escape sequences that colour each kind of text.
pub struct Styles {
    pub reset: &'static str,
    pub title: &'static str,
    pub section: &'static str,
    pub key: &'static str,
    pub value: &'static str,
    pub neg: &'static str,
    pub dim: &'static str,
}

/// The two palettes.
#[derive(PartialEq, Eq, Structural, Clone, Copy, Debug)]
pub enum Theme {
    Light,
    Dark,
}

/// Every style is empty: the text comes out uncoloured.
pub open spec fn is_plain(s: Styles) -> bool {
    &&& s.reset@ == Seq::<char>::empty()
    &&& s.title@ == Seq::<char>::empty()
    &&& s.section@ == Seq::<char>::empty()
    &&& s.key@ == Seq::<char>::empty()
    &&& s.value@ == Seq::<char>::empty()
    &&& s.neg@ == Seq::<char>::empty()
    &&& s.dim@ == Seq::<char>::empty()
}

/// The light palette.
pub open spec fn is_light(s: Styles) -> bool {
    &&& s.reset@ == "\x1b[0m"@
    &&& s.title@ == "\x1b[38;5;54m"@
    &&& s.section@ == "\x1b[38;5;24m"@
    &&& s.key@ == "\x1b[38;5;25m"@
    &&& s.value@ == "\x1b[38;5;236m"@
    &&& s.neg@ == "\x1b[38;5;124m"@
    &&& s.dim@ == "\x1b[38;5;242m"@
}

/// The dark palette.
pub open spec fn is_dark(s: Styles) -> bool {
    &&& s.reset@ == "\x1b[0m"@
    &&& s.title@ == "\x1b[38;5;141m"@
    &&& s.section@ == "\x1b[38;5;117m"@
    &&& s.key@ == "\x1b[38;5;81m"@
    &&& s.value@ == "\x1b[38;5;255m"@
    &&& s.neg@ == "\x1b[38;5;203m"@
    &&& s.dim@ == "\x1b[38;5;245m"@
}

/// The palette for a theme.
pub open spec fn has_theme(s: Styles, t: Theme) -> bool {
    match t {
        Theme::Light => is_light(s),
        Theme::Dark => is_dark(s),
    }
}

/// The theme chosen from `PYTHONINFO_THEME` (`theme_var`, "auto" when unset)
/// and, when that names no palette, from `ZSH_THEME_MODE` (`zsh_mode`, "dark"
/// when unset); both are read without regard to ASCII case.
pub open spec fn chosen_theme(theme_var: Option<Seq<char>>, zsh_mode: Option<Seq<char>>) -> Theme {
    let theme = lower(
        match theme_var {
            Some(t) => t,
            None => "auto"@,
        },
    );
    let mode = lower(
        match zsh_mode {
            Some(m) => m,
            None => "dark"@,
        },
    );
    if theme == "light"@ || theme == "alucard"@ {
        Theme::Light
    } else if theme == "dark"@ || theme == "dracula"@ {
        Theme::Dark
    } else if mode == "light"@ {
        Theme::Light
    } else {
        Theme::Dark
    }
}

/// Whether `v` holds the same characters as `lit`.
fn is_word(v: &Vec<char>, lit: &str) -> (b: bool)
    ensures
        b == (v@ == lit@),
{
    chars_eq(v, &chars_of(lit))
}

/// Chooses the theme from the two environment values, each `None` when unset.
pub fn resolve_theme(theme_var: Option<&str>, zsh_mode: Option<&str>) -> (t: Theme)
    ensures
        t == chosen_theme(
            match theme_var {
                Some(s) => Some(s@),
                None => None,
            },
            match zsh_mode {
                Some(s) => Some(s@),
                None => None,
            },
        ),
{
    let theme = lower_chars(
        &chars_of(
            match theme_var {
                Some(t) => t,
                None => "auto",
            },
        ),
    );
    if is_word(&theme, "light") || is_word(&theme, "alucard") {
        return Theme::Light;
    }
    if is_word(&theme, "dark") || is_word(&theme, "dracula") {
        return Theme::Dark;
    }
    let mode = lower_chars(
        &chars_of(
            match zsh_mode {
                Some(m) => m,
                None => "dark",
            },
        ),
    );
    if is_word(&mode, "light") {
        Theme::Light
    } else {
        Theme::Dark
    }
}

impl Styles {
    /// No colour at all.
    pub fn plain() -> (s: Styles)
        ensures
            is_plain(s),
    {
        proof {
            reveal_strlit("");
            assert(""@ =~= Seq::<char>::empty());
        }
        Styles { reset: "", title: "", section: "", key: "", value: "", neg: "", dim: "" }
    }

    /// The palette of a theme.
    pub fn themed(theme: Theme) -> (s: Styles)
        ensures
            has_theme(s, theme),
    {
        match theme {
            Theme::Light => Styles {
                reset: "\x1b[0m",
                title: "\x1b[38;5;54m",
                section: "\x1b[38;5;24m",
                key: "\x1b[38;5;25m",
                value: "\x1b[38;5;236m",
                neg: "\x1b[38;5;124m",
                dim: "\x1b[38;5;242m",
            },
            Theme::Dark => Styles {
                reset: "\x1b[0m",
                title: "\x1b[38;5;141m",
                section: "\x1b[38;5;117m",
                key: "\x1b[38;5;81m",
                value: "\x1b[38;5;255m",
                neg: "\x1b[38;5;203m",
                dim: "\x1b[38;5;245m",
            },
        }
    }

    /// The styles for standard output: plain when it is not a terminal,
    /// else the palette of the theme that the environment chooses.
    pub fn detect(stdout_is_terminal: bool, theme_var: Option<&str>, zsh_mode: Option<&str>) -> (s:
        Styles)
        ensures
            !stdout_is_terminal ==> is_plain(s),
            stdout_is_terminal ==> has_theme(
                s,
                chosen_theme(
                    match theme_var {
                        Some(v) => Some(v@),
                        None => None,
                    },
                    match zsh_mode {
                        Some(v) => Some(v@),
                        None => None,
                    },
                ),
            ),
    {
        if !stdout_is_terminal {
            return Styles::plain();
        }
        Styles::themed(resolve_theme(theme_var, zsh_mode))
    }
}

} // verus!
