//! What the command line asks for, once its options have been read.

use vstd::prelude::*;
use vstd::string::StringExecFns;

verus! {

/// What a run of the program is to do.
#[derive(Debug, Clone, PartialEq, Eq)]
pub enum Command {
    /// Show how the program is called, read nothing, and stop.
    Usage,
    /// Search for `city` in the file `file`, or in the standard input where
    /// no file is named.
    Search { file: Option<String>, city: String },
}

/// The first line of the usage text for a program of this name.
pub open spec fn brief_of(program: Seq<char>) -> Seq<char> {
    "Usage: "@ + program + " [options] <city>"@
}

/// The first line of the usage text: how `program` is called.
pub fn usage_brief(program: &str) -> (text: String)
    ensures
        text@ == brief_of(program@),
{
    let mut text = String::from_str("Usage: ");
    text.append(program);
    text.append(" [options] <city>");
    text
}

/// Decides what to do from the options that were given: `help` says whether
/// help was asked for, `file` is the file that was named, `free` holds the
/// arguments that are no options.
///
/// A call for help is answered with the usage text whatever else was given,
/// and so is a call that names no city. Otherwise the first free argument is
/// the city to search for; further ones are ignored.
pub fn plan(help: bool, file: Option<String>, free: &Vec<String>) -> (command: Command)
    ensures
        help || free@.len() == 0 ==> command is Usage,
        !help && free@.len() > 0 ==> command == (Command::Search { file, city: free@[0] }),
{
    if help || free.len() == 0 {
        Command::Usage
    } else {
        Command::Search { file, city: free[0].clone() }
    }
}

} // verus!
