//! The lines that a search is reported with.

use vstd::prelude::*;
use vstd::string::StringExecFns;
use crate::error::CliError;
use crate::record::{CountView, PopulationCount, RowView};
use crate::search::{
    answering_places, counts, hits, hits_count_answering_rows, hits_follow_table_order, places,
};

verus! {

/// The character that stands for a value below ten.
pub open spec fn digit(value: nat) -> char
    recommends
        value < 10,
{
    if value == 0 {
        '0'
    } else if value == 1 {
        '1'
    } else if value == 2 {
        '2'
    } else if value == 3 {
        '3'
    } else if value == 4 {
        '4'
    } else if value == 5 {
        '5'
    } else if value == 6 {
        '6'
    } else if value == 7 {
        '7'
    } else if value == 8 {
        '8'
    } else {
        '9'
    }
}

/// A number written in base ten, without sign or leading zero.
pub open spec fn decimal(number: nat) -> Seq<char>
    decreases number,
{
    if number < 10 {
        seq![digit(number)]
    } else {
        decimal(number / 10).push(digit(number % 10))
    }
}

impl CountView {
    /// The line for a match: city, comma and space, country, colon and
    /// space, and the population in base ten.
    pub open spec fn line(self) -> Seq<char> {
        self.city + seq![',', ' '] + self.country + seq![':', ' '] + decimal(self.count as nat)
    }
}

/// The lines for a list of matches, one for each, in the same order.
pub open spec fn lines_of(found: Seq<CountView>) -> Seq<Seq<char>> {
    found.map_values(|one: CountView| one.line())
}

/// The views of a list of texts.
pub open spec fn texts(lines: Seq<String>) -> Seq<Seq<char>> {
    lines.map_values(|line: String| line@)
}

/// The one-character text of a value below ten.
fn digit_text(value: u64) -> (text: &'static str)
    requires
        value < 10,
    ensures
        text@ == seq![digit(value as nat)],
{
    proof {
        reveal_strlit("0");
        reveal_strlit("1");
        reveal_strlit("2");
        reveal_strlit("3");
        reveal_strlit("4");
        reveal_strlit("5");
        reveal_strlit("6");
        reveal_strlit("7");
        reveal_strlit("8");
        reveal_strlit("9");
    }
    if value == 0 {
        "0"
    } else if value == 1 {
        "1"
    } else if value == 2 {
        "2"
    } else if value == 3 {
        "3"
    } else if value == 4 {
        "4"
    } else if value == 5 {
        "5"
    } else if value == 6 {
        "6"
    } else if value == 7 {
        "7"
    } else if value == 8 {
        "8"
    } else {
        "9"
    }
}

/// Writes `number` in base ten at the end of `text`.
pub fn append_decimal(text: &mut String, number: u64)
    ensures
        final(text)@ == old(text)@ + decimal(number as nat),
    decreases number,
{
    if number >= 10 {
        append_decimal(text, number / 10);
    }
    text.append(digit_text(number % 10));
}

impl PopulationCount {
    /// The line that reports this match.
    pub fn line(&self) -> (text: String)
        ensures
            text@ == self@.line(),
    {
        proof {
            reveal_strlit(", ");
            reveal_strlit(": ");
        }
        let mut text = self.city.clone();
        text.append(", ");
        text.append(self.country.as_str());
        text.append(": ");
        append_decimal(&mut text, self.count);
        text
    }
}

/// The lines that report a list of matches, one for each, in the same order.
pub fn lines(found: &Vec<PopulationCount>) -> (out: Vec<String>)
    ensures
        texts(out@) == lines_of(counts(found@)),
{
    let mut out: Vec<String> = Vec::new();
    let mut k: usize = 0;
    while k < found.len()
        invariant
            k <= found.len(),
            texts(out@) == lines_of(counts(found@.take(k as int))),
        decreases found.len() - k,
    {
        let ghost before = out@;
        let ghost done = found@.take(k as int);
        let line = found[k].line();
        out.push(line);
        proof {
            assert(found@.take(k + 1) == done.push(found@[k as int]));
            assert(texts(out@) == texts(before).push(line@));
            assert(counts(done.push(found@[k as int])) == counts(done).push(found@[k as int]@));
            assert(lines_of(counts(done).push(found@[k as int]@)) == lines_of(counts(done)).push(
                line@,
            ));
        }
        k = k + 1;
    }
    proof {
        assert(found@.take(k as int) == found@);
    }
    out
}

/// What is shown for the way a search ended: a line for each match, or the
/// one line of the error.
pub fn report(result: &Result<Vec<PopulationCount>, CliError>) -> (out: Vec<String>)
    ensures
        result matches Ok(found) ==> texts(out@) == lines_of(counts(found@)),
        result matches Err(error) ==> out@.len() == 1 && error.shown_as(out@[0]),
{
    match result {
        Ok(found) => lines(found),
        Err(error) => {
            let mut out: Vec<String> = Vec::new();
            out.push(error.message());
            out
        },
    }
}

/// What a search finds is reported with exactly one line for each row of
/// the table that answers the query, and the lines stand in the order of
/// those rows in the table.
pub proof fn one_line_for_each_answering_row(rows: Seq<RowView>, query: Seq<char>)
    ensures
        answering_places(rows, query).finite(),
        lines_of(hits(rows, query)).len() == answering_places(rows, query).len(),
        lines_of(hits(rows, query)).len() == places(rows, query).len(),
        forall|k: int|
            0 <= k < places(rows, query).len() ==> {
                let i = #[trigger] places(rows, query)[k];
                &&& 0 <= i < rows.len()
                &&& rows[i].answers(query)
                &&& lines_of(hits(rows, query))[k] == rows[i].count().line()
            },
        forall|j: int, k: int|
            0 <= j < k < places(rows, query).len() ==> places(rows, query)[j] < places(
                rows,
                query,
            )[k],
{
    hits_count_answering_rows(rows, query);
    hits_follow_table_order(rows, query);
}

} // verus!
