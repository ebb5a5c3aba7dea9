//! Splitting of the catalogue text into a header and rows.

use vstd::prelude::*;

verus! {

/// The catalogue as text: the header's column names and the rows that could
/// be read, in the order of the catalogue.
#[derive(Debug, Clone)]
pub struct Table {
    pub headers: Vec<String>,
    pub rows: Vec<Vec<String>>,
}

/// Why no table could be made of a text.
#[derive(Debug, Clone, Copy, PartialEq, Eq, Structural)]
pub enum TableError {
    /// The first record cannot serve as a header.
    Header,
}

/// The header that the catalogue reader finds in `data`, `None` where it
/// reports an error for it.
pub uninterp spec fn csv_header(data: Seq<u8>) -> Option<Seq<Seq<char>>>;

/// The records that the catalogue reader finds after the header of `data`, in
/// order, `None` for each record that it reports an error for.
pub uninterp spec fn csv_records(data: Seq<u8>) -> Seq<Option<Seq<Seq<char>>>>;

/// The text of a record's fields.
pub open spec fn row_text(row: Option<Vec<String>>) -> Option<Seq<Seq<char>>> {
    match row {
        Some(fields) => Some(fields.deep_view()),
        None => None,
    }
}

/// The text of each record's fields.
pub open spec fn rows_text(rows: Seq<Option<Vec<String>>>) -> Seq<Option<Seq<Seq<char>>>> {
    Seq::new(rows.len(), |i: int| row_text(rows[i]))
}

/// The records that were read, in order, without those that were not.
pub open spec fn readable(rows: Seq<Option<Seq<Seq<char>>>>) -> Seq<Seq<Seq<char>>>
    decreases rows.len(),
{
    if rows.len() == 0 {
        Seq::empty()
    } else {
        let rest = readable(rows.drop_last());
        match rows.last() {
            Some(fields) => rest.push(fields),
            None => rest,
        }
    }
}

/// Calls `csv::Reader::from_reader` on the bytes and `csv::Reader::headers` on
/// the reader. The result is the header's fields as the reader gives them, a
/// function of the bytes alone; `None` stands for the reader's error.
#[verifier::external_body]
fn header_fields(data: &[u8]) -> (r: Option<Vec<String>>)
    ensures
        row_text(r) == csv_header(data@),
{
    let mut reader = csv::Reader::from_reader(data);
    reader.headers().ok().map(|h| h.iter().map(String::from).collect())
}

/// Calls `csv::Reader::from_reader` on the bytes and walks
/// `csv::Reader::into_records` to its end. The result holds one entry for each
/// item that the reader yields, in order: the record's fields, or `None` for
/// the reader's error. It is a function of the bytes alone.
#[verifier::external_body]
fn record_fields(data: &[u8]) -> (r: Vec<Option<Vec<String>>>)
    ensures
        rows_text(r@) == csv_records(data@),
{
    csv::Reader::from_reader(data)
        .into_records()
        .map(|item| item.ok().map(|rec| rec.iter().map(String::from).collect()))
        .collect()
}

/// Keeps the records that were read and drops the others, in order.
pub fn keep_readable(rows: &Vec<Option<Vec<String>>>) -> (r: Vec<Vec<String>>)
    ensures
        r.deep_view() == readable(rows_text(rows@)),
{
    let ghost all = rows_text(rows@);
    let mut kept: Vec<Vec<String>> = Vec::new();
    let mut i: usize = 0;
    while i < rows.len()
        invariant
            0 <= i <= rows.len(),
            all == rows_text(rows@),
            kept.deep_view() == readable(all.take(i as int)),
        decreases rows.len() - i,
    {
        let ghost before = kept.deep_view();
        assert(all.take(i + 1).drop_last() == all.take(i as int));
        match &rows[i] {
            Some(fields) => {
                let copy = fields.clone();
                kept.push(copy);
                assert(kept.deep_view() == before.push(fields.deep_view()));
            },
            None => {},
        }
        i += 1;
    }
    assert(all.take(i as int) == all);
    kept
}

/// Makes a table of what the catalogue reader found: there is one exactly when
/// there is a header, and it holds the records that were read.
pub fn make_table(headers: Option<Vec<String>>, rows: &Vec<Option<Vec<String>>>) -> (r: Result<
    Table,
    TableError,
>)
    ensures
        match r {
            Ok(t) => headers.is_some() && t.headers == headers.unwrap() && t.rows.deep_view()
                == readable(rows_text(rows@)),
            Err(e) => headers.is_none() && e == TableError::Header,
        },
{
    match headers {
        Some(h) => Ok(Table { headers: h, rows: keep_readable(rows) }),
        None => Err(TableError::Header),
    }
}

/// Splits the catalogue text into its header and its rows.
///
/// Fails when the reader cannot give the header. Records that the reader
/// cannot give are left out; the others keep their order.
pub fn read_table(data: &[u8]) -> (r: Result<Table, TableError>)
    ensures
        match r {
            Ok(t) => csv_header(data@) == Some(t.headers.deep_view()) && t.rows.deep_view()
                == readable(csv_records(data@)),
            Err(e) => csv_header(data@).is_none() && e == TableError::Header,
        },
{
    let headers = header_fields(data);
    let rows = record_fields(data);
    make_table(headers, &rows)
}

} // verus!
