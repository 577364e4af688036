//! The three ways in which a search ends without a result.

use vstd::prelude::*;
use vstd::std_specs::convert::FromSpecImpl;
use vstd::string::to_string_from_display_ensures;

verus! {

/// `std::io::Error`, what opening or reading the input reports. Opaque here.
#[verifier::external_type_specification]
#[verifier::external_body]
pub struct ExIoError(std::io::Error);

/// Why a search gave no matches.
#[derive(Debug)]
pub enum CliError {
    /// The input could not be opened or read.
    Io(std::io::Error),
    /// A record of the table could not be taken apart or decoded.
    Csv(csv::Error),
    /// The whole table was read and no record answered the query.
    NotFound,
}

impl From<std::io::Error> for CliError {
    fn from(err: std::io::Error) -> (error: CliError) {
        CliError::Io(err)
    }
}

impl FromSpecImpl<std::io::Error> for CliError {
    open spec fn obeys_from_spec() -> bool {
        true
    }

    open spec fn from_spec(err: std::io::Error) -> CliError {
        CliError::Io(err)
    }
}

impl From<csv::Error> for CliError {
    fn from(err: csv::Error) -> (error: CliError) {
        CliError::Csv(err)
    }
}

impl FromSpecImpl<csv::Error> for CliError {
    open spec fn obeys_from_spec() -> bool {
        true
    }

    open spec fn from_spec(err: csv::Error) -> CliError {
        CliError::Csv(err)
    }
}

/// The sentence shown when no record answered the query.
pub open spec fn not_found_message() -> Seq<char> {
    "No matching cities with a population were found."@
}

/// The short name of the not-found condition.
pub open spec fn not_found_description() -> Seq<char> {
    "not found"@
}

/// Whether `text` is one of the five short names that the `csv` crate gives
/// to its kinds of error.
pub open spec fn is_csv_description(text: Seq<char>) -> bool {
    ||| text == "CSV encoding error"@
    ||| text == "CSV decoding error"@
    ||| text == "CSV parse error"@
    ||| text == "CSV IO error"@
    ||| text == "CSV indexing error"@
}

/// Calls `std::error::Error::description` on a `csv::Error`. The crate
/// answers with one of five fixed texts, by the kind of the error.
#[verifier::external_body]
#[allow(deprecated)]
fn csv_description<'a>(error: &'a csv::Error) -> (text: &'a str)
    ensures
        is_csv_description(text@),
{
    std::error::Error::description(error)
}

/// Calls `std::error::Error::description` on a `std::io::Error`. Nothing is
/// claimed of the text.
#[verifier::external_body]
#[allow(deprecated)]
fn io_description<'a>(error: &'a std::io::Error) -> (text: &'a str) {
    std::error::Error::description(error)
}

impl CliError {
    /// Whether `text` is the line that shows this error to the user: the
    /// fixed sentence for the not-found condition, and for an I/O or table
    /// error what that error displays as.
    pub open spec fn shown_as(&self, text: String) -> bool {
        match self {
            CliError::Io(err) => to_string_from_display_ensures::<std::io::Error>(err, text),
            CliError::Csv(err) => to_string_from_display_ensures::<csv::Error>(err, text),
            CliError::NotFound => text@ == not_found_message(),
        }
    }

    /// The line to show to the user. For the not-found condition it is a
    /// fixed sentence; an I/O or table error speaks for itself.
    pub fn message(&self) -> (text: String)
        ensures
            self.shown_as(text),
    {
        match self {
            CliError::Io(err) => err.to_string(),
            CliError::Csv(err) => err.to_string(),
            CliError::NotFound => {
                "No matching cities with a population were found.".to_owned()
            },
        }
    }

    /// A short name for the kind of failure.
    pub fn description(&self) -> (text: &str)
        ensures
            self is NotFound ==> text@ == not_found_description(),
            self is Csv ==> is_csv_description(text@),
    {
        match self {
            CliError::Io(err) => io_description(err),
            CliError::Csv(err) => csv_description(err),
            CliError::NotFound => "not found",
        }
    }
}

} // verus!
