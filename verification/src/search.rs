//! The search itself: one pass over the records of the table.

use vstd::prelude::*;
use crate::error::CliError;
use crate::record::{CountView, PopulationCount, Row, RowView};
use crate::table::{decoded, next_row, open_table, pending};

verus! {

/// The test "this row answers `query`", as a function on rows.
pub open spec fn answering(query: Seq<char>) -> spec_fn(RowView) -> bool {
    |row: RowView| row.answers(query)
}

/// The step from a row to the match it gives, as a function on rows.
pub open spec fn counting() -> spec_fn(RowView) -> CountView {
    |row: RowView| row.count()
}

/// What a search for `query` finds in `rows`: the rows that answer it, in
/// their order, each as a match.
pub open spec fn hits(rows: Seq<RowView>, query: Seq<char>) -> Seq<CountView> {
    rows.filter(answering(query)).map_values(counting())
}

/// The views of a list of matches.
pub open spec fn counts(found: Seq<PopulationCount>) -> Seq<CountView> {
    found.map_values(|one: PopulationCount| one@)
}

/// What a record that came out of the reader stands for: its row, or `None`
/// where the reader reported an error.
pub open spec fn outcome(record: Result<Row, csv::Error>) -> Option<RowView> {
    match record {
        Ok(row) => Some(row@),
        Err(_) => None,
    }
}

/// `outcome` of each record of a list.
pub open spec fn outcomes(records: Seq<Result<Row, csv::Error>>) -> Seq<Option<RowView>> {
    records.map_values(|record: Result<Row, csv::Error>| outcome(record))
}

/// Whether some record of the table failed to decode.
pub open spec fn has_malformed(records: Seq<Option<RowView>>) -> bool {
    exists|i: int| 0 <= i < records.len() && records[i] is None
}

/// The rows of a table in which every record decoded.
pub open spec fn rows_of(records: Seq<Option<RowView>>) -> Seq<RowView>
    recommends
        !has_malformed(records),
{
    records.map_values(|record: Option<RowView>| record->0)
}

/// How a search ends.
pub ghost enum Verdict {
    /// A record failed to decode; nothing that was found before counts.
    Malformed,
    /// Every record decoded and none answered the query.
    NotFound,
    /// Every record decoded and these answered the query, in this order.
    Found(Seq<CountView>),
}

/// How a search for `query` in a table with these records ends.
pub open spec fn verdict(records: Seq<Option<RowView>>, query: Seq<char>) -> Verdict {
    if has_malformed(records) {
        Verdict::Malformed
    } else if hits(rows_of(records), query).len() == 0 {
        Verdict::NotFound
    } else {
        Verdict::Found(hits(rows_of(records), query))
    }
}

/// Whether the value that a search returned says what `verdict` says.
pub open spec fn tells(result: Result<Vec<PopulationCount>, CliError>, verdict: Verdict) -> bool {
    match verdict {
        Verdict::Malformed => result matches Err(error) && error is Csv,
        Verdict::NotFound => result matches Err(error) && error is NotFound,
        Verdict::Found(found) => result matches Ok(list) && counts(list@) == found,
    }
}

/// One more row at the end of the table adds its match at the end of the
/// hits if it answers the query, and nothing otherwise.
pub proof fn lemma_hits_push(rows: Seq<RowView>, row: RowView, query: Seq<char>)
    ensures
        hits(rows.push(row), query) == if row.answers(query) {
            hits(rows, query).push(row.count())
        } else {
            hits(rows, query)
        },
{
    reveal(Seq::filter);
    assert(rows.push(row).drop_last() == rows);
}

/// Puts the match of `row` at the end of `found` if the row answers `query`.
pub fn keep(found: &mut Vec<PopulationCount>, row: Row, query: &String)
    ensures
        counts(final(found)@) == if row@.answers(query@) {
            counts(old(found)@).push(row@.count())
        } else {
            counts(old(found)@)
        },
{
    match row.population {
        None => {},
        Some(count) => {
            if row.city == *query {
                found.push(PopulationCount { city: row.city, country: row.country, count });
            }
        },
    }
}

/// Ends a search in which every record decoded: no match at all is an error
/// of its own, anything else is the result.
pub fn conclude(found: Vec<PopulationCount>) -> (result: Result<Vec<PopulationCount>, CliError>)
    ensures
        found@.len() == 0 ==> (result matches Err(error) && error is NotFound),
        found@.len() > 0 ==> result == Ok::<Vec<PopulationCount>, CliError>(found),
{
    if found.is_empty() {
        Err(CliError::NotFound)
    } else {
        Ok(found)
    }
}

/// The rows seen so far, as records that all decoded.
pub open spec fn decoded_rows(rows: Seq<RowView>) -> Seq<Option<RowView>> {
    rows.map_values(|row: RowView| Some(row))
}

/// Searches records that were read before. The first record that failed to
/// decode ends the search with its error, whatever was found until then.
/// Otherwise the result is the matches of the rows that answer `city`, in the
/// order of the records, or the not-found error when there is none.
pub fn scan(records: Vec<Result<Row, csv::Error>>, city: &str) -> (result: Result<
    Vec<PopulationCount>,
    CliError,
>)
    ensures
        tells(result, verdict(outcomes(records@), city@)),
        forall|i: int|
            0 <= i < records@.len() && (#[trigger] records@[i]) is Err && (forall|j: int|
                0 <= j < i ==> (#[trigger] records@[j]) is Ok) ==> result == Err::<
                Vec<PopulationCount>,
                CliError,
            >(CliError::Csv(records@[i]->Err_0)),
{
    let query = city.to_owned();
    let mut found: Vec<PopulationCount> = Vec::new();
    let ghost all = outcomes(records@);
    let ghost mut seen: Seq<RowView> = Seq::empty();
    for record in it: records
        invariant
            query@ == city@,
            it.seq() == records@,
            all == outcomes(it.seq()),
            seen.len() == it.index(),
            decoded_rows(seen) == all.take(it.index()),
            counts(found@) == hits(seen, query@),
    {
        match record {
            Err(error) => {
                assert(all[it.index()] is None);
                assert forall|j: int| 0 <= j < it.index() implies (#[trigger] records@[j]) is Ok by {
                    assert(all.take(it.index())[j] is Some);
                }
                return Err(CliError::from(error));
            },
            Ok(row) => {
                proof {
                    lemma_hits_push(seen, row@, query@);
                    assert(all.take(it.index() + 1) == all.take(it.index()).push(Some(row@)));
                    seen = seen.push(row@);
                }
                keep(&mut found, row, &query);
            },
        }
    }
    proof {
        assert(decoded_rows(seen) == all);
        assert(rows_of(all) == seen);
        assert forall|i: int| 0 <= i < records@.len() implies (#[trigger] records@[i]) is Ok by {
            assert(all[i] is Some);
        }
    }
    conclude(found)
}

/// Searches the table in `data` for the records of `city`.
///
/// The records are read one by one. The first that cannot be taken apart or
/// decoded ends the search with the reader's error. Otherwise the result is
/// the matches of the rows that answer `city`, in the order of the table, or
/// the not-found error when there is none.
pub fn search(data: &[u8], city: &str) -> (result: Result<Vec<PopulationCount>, CliError>)
    ensures
        tells(result, verdict(decoded(data@), city@)),
{
    let query = city.to_owned();
    let mut found: Vec<PopulationCount> = Vec::new();
    let mut reader = open_table(data);
    let ghost mut seen: Seq<RowView> = Seq::empty();
    loop
        invariant
            query@ == city@,
            decoded_rows(seen) + pending(reader) == decoded(data@),
            counts(found@) == hits(seen, query@),
        decreases pending(reader).len(),
    {
        match next_row(&mut reader) {
            None => {
                proof {
                    assert(decoded_rows(seen) == decoded(data@));
                    assert(rows_of(decoded(data@)) == seen);
                }
                return conclude(found);
            },
            Some(Err(error)) => {
                assert(decoded(data@)[seen.len() as int] is None);
                return Err(CliError::from(error));
            },
            Some(Ok(row)) => {
                proof {
                    lemma_hits_push(seen, row@, query@);
                    seen = seen.push(row@);
                }
                keep(&mut found, row, &query);
            },
        }
    }
}

/// The places in the table of the rows that answer `query`, as a set.
pub open spec fn answering_places(rows: Seq<RowView>, query: Seq<char>) -> Set<int> {
    Set::new(|i: int| 0 <= i < rows.len() && rows[i].answers(query))
}

/// The places in the table of the rows that answer `query`, ascending.
pub open spec fn places(rows: Seq<RowView>, query: Seq<char>) -> Seq<int>
    decreases rows.len(),
{
    if rows.len() == 0 {
        Seq::empty()
    } else {
        let before = places(rows.drop_last(), query);
        if rows.last().answers(query) {
            before.push(rows.len() - 1)
        } else {
            before
        }
    }
}

/// A search finds as many matches as the table has rows that answer the
/// query: rows with the queried city and a known population.
pub proof fn hits_count_answering_rows(rows: Seq<RowView>, query: Seq<char>)
    ensures
        answering_places(rows, query).finite(),
        hits(rows, query).len() == answering_places(rows, query).len(),
    decreases rows.len(),
{
    if rows.len() == 0 {
        reveal(Seq::filter);
        assert(answering_places(rows, query) == Set::<int>::empty());
    } else {
        let before = rows.drop_last();
        let last = rows.len() - 1;
        hits_count_answering_rows(before, query);
        assert(rows == before.push(rows.last()));
        lemma_hits_push(before, rows.last(), query);
        if rows.last().answers(query) {
            assert(answering_places(rows, query) == answering_places(before, query).insert(last));
        } else {
            assert(answering_places(rows, query) == answering_places(before, query));
        }
    }
}

/// The matches come in the order of the table: the k-th match is the match
/// of the k-th row that answers the query, and `places` lists those rows
/// with none left out and none twice.
pub proof fn hits_follow_table_order(rows: Seq<RowView>, query: Seq<char>)
    ensures
        places(rows, query).len() == hits(rows, query).len(),
        forall|k: int|
            0 <= k < places(rows, query).len() ==> {
                let i = #[trigger] places(rows, query)[k];
                &&& 0 <= i < rows.len()
                &&& rows[i].answers(query)
                &&& hits(rows, query)[k] == rows[i].count()
            },
        forall|j: int, k: int|
            0 <= j < k < places(rows, query).len() ==> places(rows, query)[j] < places(
                rows,
                query,
            )[k],
        forall|i: int|
            0 <= i < rows.len() && rows[i].answers(query) ==> places(rows, query).contains(i),
    decreases rows.len(),
{
    if rows.len() == 0 {
        reveal(Seq::filter);
    } else {
        let before = rows.drop_last();
        let last = rows.len() - 1;
        hits_follow_table_order(before, query);
        assert(rows == before.push(rows.last()));
        lemma_hits_push(before, rows.last(), query);
        let old_places = places(before, query);
        let new_places = places(rows, query);
        assert forall|i: int| 0 <= i < rows.len() && rows[i].answers(query) implies new_places.contains(
            i,
        ) by {
            if i < last {
                assert(before[i] == rows[i]);
                assert(old_places.contains(i));
                let k = choose|k: int| 0 <= k < old_places.len() && old_places[k] == i;
                assert(new_places[k] == i);
            } else {
                assert(new_places[new_places.len() - 1] == i);
            }
        }
        assert forall|k: int| 0 <= k < new_places.len() implies {
            let i = #[trigger] new_places[k];
            &&& 0 <= i < rows.len()
            &&& rows[i].answers(query)
            &&& hits(rows, query)[k] == rows[i].count()
        } by {
            if k < old_places.len() {
                assert(new_places[k] == old_places[k]);
                assert(before[old_places[k]] == rows[old_places[k]]);
            }
        }
    }
}

/// Taking out of the table a row that does not answer the query changes
/// nothing in what a search finds.
proof fn lemma_hits_remove(rows: Seq<RowView>, query: Seq<char>, i: int)
    requires
        0 <= i < rows.len(),
        !rows[i].answers(query),
    ensures
        hits(rows.remove(i), query) == hits(rows, query),
{
    let head = rows.take(i);
    let tail = rows.skip(i + 1);
    let one = seq![rows[i]];
    let test = answering(query);
    assert(rows == head + one + tail);
    assert(rows.remove(i) == head + tail);
    Seq::filter_distributes_over_add(head, one, test);
    Seq::filter_distributes_over_add(head + one, tail, test);
    Seq::filter_distributes_over_add(head, tail, test);
    assert(one.filter(test) == Seq::<RowView>::empty()) by {
        reveal_with_fuel(Seq::filter, 2);
    }
    assert(head.filter(test) + one.filter(test) == head.filter(test));
}

/// A row whose population is unknown is never found, even where its city
/// is the one asked for: the search finds what it finds without that row.
pub proof fn unknown_population_is_skipped(rows: Seq<RowView>, query: Seq<char>, i: int)
    requires
        0 <= i < rows.len(),
        rows[i].population is None,
    ensures
        hits(rows.remove(i), query) == hits(rows, query),
{
    lemma_hits_remove(rows, query, i);
}

/// A row whose city differs from the query in any character, be it only in
/// upper or lower case or by being longer, is never found, and every match
/// names the query exactly.
pub proof fn other_city_is_skipped(rows: Seq<RowView>, query: Seq<char>, i: int)
    requires
        0 <= i < rows.len(),
        rows[i].city != query,
    ensures
        hits(rows.remove(i), query) == hits(rows, query),
        forall|k: int| 0 <= k < hits(rows, query).len() ==> (#[trigger] hits(rows, query)[k]).city == query,
{
    lemma_hits_remove(rows, query, i);
    hits_follow_table_order(rows, query);
    assert forall|k: int| 0 <= k < hits(rows, query).len() implies (#[trigger] hits(
        rows,
        query,
    )[k]).city == query by {
        let at = places(rows, query)[k];
        assert(rows[at].answers(query));
    }
}

/// Where every record decodes and none has the queried city, the search
/// ends as not found.
pub proof fn absent_city_is_not_found(records: Seq<Option<RowView>>, query: Seq<char>)
    requires
        forall|i: int|
            0 <= i < records.len() ==> ((#[trigger] records[i]) matches Some(row) && row.city
                != query),
    ensures
        verdict(records, query) == Verdict::NotFound,
{
    let rows = rows_of(records);
    hits_follow_table_order(rows, query);
    if hits(rows, query).len() > 0 {
        let at = places(rows, query)[0];
        assert(rows[at].answers(query));
        assert(records[at] is Some);
    }
}

} // verus!
