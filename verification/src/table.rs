//! Reading the table: the comma-separated text is taken apart and decoded by
//! the `csv` crate, one record at a time.
//!
//! Nothing in this file is proved. It states what the rest of the library
//! takes for granted about the reader.

use vstd::prelude::*;
use crate::record::{Row, RowView};

verus! {

/// `csv::Reader`, the reader of comma-separated text. Opaque here.
#[verifier::external_type_specification]
#[verifier::external_body]
#[verifier::reject_recursive_types(R)]
pub struct ExReader<R>(csv::Reader<R>);

/// `csv::Error`, what the reader reports when a record cannot be taken apart
/// or decoded. Opaque here.
#[verifier::external_type_specification]
#[verifier::external_body]
pub struct ExCsvError(csv::Error);

/// The records that a reader has yet to hand out, in their order: `Some` for
/// one that decodes into a row, `None` for one that the reader reports as an
/// error.
pub uninterp spec fn pending(reader: csv::Reader<&[u8]>) -> Seq<Option<RowView>>;

/// What a reader made by `csv::Reader::from_reader` over `data` has to hand
/// out: the records that the `csv` crate finds in `data` after the header
/// line, in their order, each as `pending` describes.
pub uninterp spec fn decoded(data: Seq<u8>) -> Seq<Option<RowView>>;

/// Calls `csv::Reader::from_reader` on a slice of bytes. The reader is left
/// with its defaults: comma, double quote, a header line, records of equal
/// length. It has every record of `data` yet to hand out.
#[verifier::external_body]
pub(crate) fn open_table<'a>(data: &'a [u8]) -> (reader: csv::Reader<&'a [u8]>)
    ensures
        pending(reader) == decoded(data@),
{
    csv::Reader::from_reader(data)
}

/// Calls `csv::Reader::decode` and takes one item from the iterator. The
/// record is decoded as four texts, an optional unsigned number and two more
/// texts, which become the fields of the row in this order.
///
/// The contract claims that the reader hands out its pending records one by
/// one from the front, `None` when there is none left, and that a call removes
/// exactly the record it reports.
#[verifier::external_body]
pub(crate) fn next_row(reader: &mut csv::Reader<&[u8]>) -> (record: Option<Result<Row, csv::Error>>)
    ensures
        record is None <==> pending(*old(reader)).len() == 0,
        record is None ==> pending(*final(reader)).len() == 0,
        record is Some ==> pending(*final(reader)) == pending(*old(reader)).skip(1),
        record matches Some(Ok(row)) ==> pending(*old(reader))[0] == Some(row@),
        record matches Some(Err(_)) ==> pending(*old(reader))[0] is None,
{
    match reader.decode::<(String, String, String, String, Option<u64>, String, String)>().next() {
        None => None,
        Some(Err(error)) => Some(Err(error)),
        Some(Ok((country, city, accent_city, region, population, latitude, longitude))) => {
            Some(Ok(Row { country, city, accent_city, region, population, latitude, longitude }))
        },
    }
}

} // verus!
