//! The dispatcher: the first command-line argument picks the operation. A
//! first argument made of decimal digits only - checked before any name -
//! is the run-by-index operation; otherwise the argument must match a
//! registered command name, and anything else is unknown.

use crate::digits::all_digits;
use crate::digits::is_all_digits;
use vstd::prelude::*;
use vstd::string::StringExecFns;

verus! {

/// A registered command name.
#[derive(Clone, Copy, Debug, PartialEq, Eq, Structural)]
pub enum CommandName {
    Add,
    List,
    ListFav,
    Fav,
    Unfav,
    RunFav,
    Echo,
    Del,
    Help,
}

/// What the first argument stands for.
#[derive(Clone, Copy, Debug, PartialEq, Eq, Structural)]
pub enum Dispatch {
    /// All decimal digits: run the entry at that index.
    Numeric,
    /// A registered command.
    Named(CommandName),
    /// Anything else: report, show the help, exit 1.
    Unknown,
}

/// What a registered name stands for, by exact match.
pub open spec fn spec_named(arg: Seq<char>) -> Dispatch {
    if arg == "add"@ {
        Dispatch::Named(CommandName::Add)
    } else if arg == "list"@ {
        Dispatch::Named(CommandName::List)
    } else if arg == "listfav"@ {
        Dispatch::Named(CommandName::ListFav)
    } else if arg == "fav"@ {
        Dispatch::Named(CommandName::Fav)
    } else if arg == "unfav"@ {
        Dispatch::Named(CommandName::Unfav)
    } else if arg == "runfav"@ {
        Dispatch::Named(CommandName::RunFav)
    } else if arg == "echo"@ {
        Dispatch::Named(CommandName::Echo)
    } else if arg == "del"@ {
        Dispatch::Named(CommandName::Del)
    } else if arg == "help"@ {
        Dispatch::Named(CommandName::Help)
    } else {
        Dispatch::Unknown
    }
}

/// Numeric dispatch precedence: an all-digit first argument (the empty one
/// included) is the run-by-index operation, whatever names are registered;
/// only then is the argument matched against the command names.
pub fn dispatch_first(arg: &String) -> (r: Dispatch)
    ensures
        all_digits(arg@) ==> r == Dispatch::Numeric,
        !all_digits(arg@) ==> r == spec_named(arg@),
{
    if is_all_digits(arg.as_str()) {
        return Dispatch::Numeric;
    }
    if arg.eq(&String::from_str("add")) {
        Dispatch::Named(CommandName::Add)
    } else if arg.eq(&String::from_str("list")) {
        Dispatch::Named(CommandName::List)
    } else if arg.eq(&String::from_str("listfav")) {
        Dispatch::Named(CommandName::ListFav)
    } else if arg.eq(&String::from_str("fav")) {
        Dispatch::Named(CommandName::Fav)
    } else if arg.eq(&String::from_str("unfav")) {
        Dispatch::Named(CommandName::Unfav)
    } else if arg.eq(&String::from_str("runfav")) {
        Dispatch::Named(CommandName::RunFav)
    } else if arg.eq(&String::from_str("echo")) {
        Dispatch::Named(CommandName::Echo)
    } else if arg.eq(&String::from_str("del")) {
        Dispatch::Named(CommandName::Del)
    } else if arg.eq(&String::from_str("help")) {
        Dispatch::Named(CommandName::Help)
    } else {
        Dispatch::Unknown
    }
}

/// The report line for an unrecognized first argument.
pub fn unknown_command_message(name: &String) -> (r: String)
    ensures
        r@ == "Unknown command: "@ + name@,
{
    let mut r = String::from_str("Unknown command: ");
    r.append(name.as_str());
    r
}

} // verus!
