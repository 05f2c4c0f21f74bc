//! The command line: no argument, one package name, or a request for help.
use vstd::prelude::*;

use crate::text::{chars_of, str_eq};

verus! {

/// What the command line asks for.
pub enum ParsedArgs {
    /// Print the usage text.
    Help,
    /// Print the full report, or the report on one package.
    Run { package: Option<String> },
}

/// Whether `a` is one of the words that ask for help.
pub open spec fn is_help_word(a: Seq<char>) -> bool {
    a == "-h"@ || a == "--help"@ || a == "help"@
}

/// Whether `a` looks like an option.
pub open spec fn is_option(a: Seq<char>) -> bool {
    a.len() > 0 && a[0] == '-'
}

/// The message for an option that is not known.
pub open spec fn unknown_option_message(a: Seq<char>) -> Seq<char> {
    "Option inconnue: "@ + a + "\nUtilise: pythoninfo --help"@
}

/// The message for a command line with too many arguments.
pub open spec fn usage_hint() -> Seq<char> {
    "Utilise: pythoninfo --help"@
}

/// Reads the arguments that follow the program name. Errors carry the
/// message to print and the exit status, which is 2.
pub fn parse_args(args: &[String]) -> (r: Result<ParsedArgs, (String, u8)>)
    ensures
        args@.len() == 0 ==> r matches Ok(ParsedArgs::Run { package: None }),
        args@.len() == 1 && is_help_word(args@[0]@) ==> r matches Ok(ParsedArgs::Help),
        args@.len() == 1 && !is_help_word(args@[0]@) && is_option(args@[0]@) ==> (r matches Err(
            (m, c),
        ) && m@ == unknown_option_message(args@[0]@) && c == 2),
        args@.len() == 1 && !is_help_word(args@[0]@) && !is_option(args@[0]@) ==> (r matches Ok(
            ParsedArgs::Run { package: Some(p) },
        ) && p@ == args@[0]@),
        args@.len() >= 2 ==> (r matches Err((m, c)) && m@ == usage_hint() && c == 2),
{
    if args.len() == 0 {
        return Ok(ParsedArgs::Run { package: None });
    }
    if args.len() >= 2 {
        return Err(("Utilise: pythoninfo --help".to_owned(), 2));
    }
    let arg = args[0].as_str();
    if str_eq(arg, "-h") || str_eq(arg, "--help") || str_eq(arg, "help") {
        return Ok(ParsedArgs::Help);
    }
    let v = chars_of(arg);
    if v.len() > 0 && v[0] == '-' {
        let mut m = "Option inconnue: ".to_owned();
        m.append(arg);
        m.append("\nUtilise: pythoninfo --help");
        return Err((m, 2));
    }
    Ok(ParsedArgs::Run { package: Some(args[0].clone()) })
}

} // verus!
