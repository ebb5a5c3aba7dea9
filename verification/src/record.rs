//! Decoding of one catalogue row into a [`StarSystem`].

use vstd::prelude::*;

verus! {

/// One decoded catalogue entry. The coordinates are IEEE-754 single-precision
/// bit patterns.
#[derive(Debug, Clone)]
pub struct StarSystem {
    pub id: u64,
    pub name: String,
    pub x: u32,
    pub y: u32,
    pub z: u32,
    pub is_populated: u8,
}

/// The text of the six required columns of one row, not yet parsed.
#[derive(Debug, Clone)]
pub struct RowFields {
    pub id: String,
    pub name: String,
    pub x: String,
    pub y: String,
    pub z: String,
    pub is_populated: String,
}

/// `i` is the one and only column of `headers` that is called `name`.
pub open spec fn named_once(headers: Seq<Seq<char>>, name: Seq<char>, i: int) -> bool {
    &&& 0 <= i < headers.len()
    &&& headers[i] == name
    &&& forall|j: int| 0 <= j < headers.len() && #[trigger] headers[j] == name ==> j == i
}

/// The column called `name`, where exactly one column has that name.
pub open spec fn column_of(headers: Seq<Seq<char>>, name: Seq<char>) -> Option<int> {
    if exists|i: int| named_once(headers, name, i) {
        Some(choose|i: int| named_once(headers, name, i))
    } else {
        None
    }
}

/// Every required column is named exactly once and the row reaches as far as
/// the header does.
pub open spec fn selectable(headers: Seq<Seq<char>>, row_len: nat) -> bool {
    &&& headers.len() <= row_len
    &&& column_of(headers, "id"@).is_some()
    &&& column_of(headers, "name"@).is_some()
    &&& column_of(headers, "x"@).is_some()
    &&& column_of(headers, "y"@).is_some()
    &&& column_of(headers, "z"@).is_some()
    &&& column_of(headers, "is_populated"@).is_some()
}

/// What the catalogue reader's integer decoding makes of a field's text at
/// 64 bits.
pub uninterp spec fn csv_u64(text: Seq<char>) -> Option<u64>;

/// What the catalogue reader's integer decoding makes of a field's text at
/// 8 bits.
pub uninterp spec fn csv_u8(text: Seq<char>) -> Option<u8>;

/// Calls `csv::StringRecord::deserialize` for a `u64` on a record of the one
/// field `text`, which is how the reader decodes an integer column of a row.
/// The result is a function of the text alone; `None` stands for the decoding
/// error.
#[verifier::external_body]
fn parse_u64(text: &str) -> (r: Option<u64>)
    ensures
        r == csv_u64(text@),
{
    csv::StringRecord::from(vec![text]).deserialize::<u64>(None).ok()
}

/// Calls `csv::StringRecord::deserialize` for a `u8` on a record of the one
/// field `text`, which is how the reader decodes a small integer column of a
/// row. The result is a function of the text alone; `None` stands for the
/// decoding error.
#[verifier::external_body]
fn parse_u8(text: &str) -> (r: Option<u8>)
    ensures
        r == csv_u8(text@),
{
    csv::StringRecord::from(vec![text]).deserialize::<u8>(None).ok()
}

/// Finds the column that is called `name`, provided that exactly one is.
pub fn locate(headers: &Vec<String>, name: &str) -> (r: Option<usize>)
    ensures
        match r {
            Some(i) => column_of(headers.deep_view(), name@) == Some(i as int),
            None => column_of(headers.deep_view(), name@).is_none(),
        },
{
    let wanted = name.to_owned();
    let ghost h = headers.deep_view();
    let mut found: Option<usize> = None;
    let mut twice = false;
    let mut i: usize = 0;
    while i < headers.len()
        invariant
            0 <= i <= headers.len(),
            h == headers.deep_view(),
            wanted@ == name@,
            match found {
                Some(k) => k < i && h[k as int] == name@ && (!twice ==> forall|j: int|
                    0 <= j < i && #[trigger] h[j] == name@ ==> j == k),
                None => !twice && forall|j: int| 0 <= j < i ==> #[trigger] h[j] != name@,
            },
            twice ==> exists|a: int, b: int|
                0 <= a < b < i && #[trigger] h[a] == name@ && #[trigger] h[b] == name@,
        decreases headers.len() - i,
    {
        if headers[i] == wanted {
            if found.is_some() {
                twice = true;
                assert(found.unwrap() < i && h[found.unwrap() as int] == name@ && h[i as int]
                    == name@);
            } else {
                found = Some(i);
            }
        }
        i += 1;
    }
    if twice {
        assert forall|k: int| !named_once(h, name@, k) by {
            let (a, b) = choose|a: int, b: int|
                0 <= a < b < h.len() && #[trigger] h[a] == name@ && #[trigger] h[b] == name@;
        }
        None
    } else {
        match found {
            Some(k) => {
                assert(named_once(h, name@, k as int));
                let ghost c = choose|c: int| named_once(h, name@, c);
                assert(c == k);
                Some(k)
            },
            None => None,
        }
    }
}

/// Picks the text of the six required columns out of a row.
///
/// A row is usable when `id`, `name`, `x`, `y`, `z` and `is_populated` each
/// name exactly one column and the row has a field for every column of the
/// header. Other columns, and fields beyond the header, are ignored.
pub fn select_fields(headers: &Vec<String>, row: &Vec<String>) -> (r: Option<RowFields>)
    ensures
        r.is_some() == selectable(headers.deep_view(), row@.len()),
        r.is_some() ==> {
            let h = headers.deep_view();
            let f = r.unwrap();
            &&& f.id@ == row[column_of(h, "id"@).unwrap()]@
            &&& f.name@ == row[column_of(h, "name"@).unwrap()]@
            &&& f.x@ == row[column_of(h, "x"@).unwrap()]@
            &&& f.y@ == row[column_of(h, "y"@).unwrap()]@
            &&& f.z@ == row[column_of(h, "z"@).unwrap()]@
            &&& f.is_populated@ == row[column_of(h, "is_populated"@).unwrap()]@
        },
{
    if row.len() < headers.len() {
        return None;
    }
    let id = locate(headers, "id");
    let name = locate(headers, "name");
    let x = locate(headers, "x");
    let y = locate(headers, "y");
    let z = locate(headers, "z");
    let flag = locate(headers, "is_populated");
    match (id, name, x, y, z, flag) {
        (Some(a), Some(b), Some(c), Some(d), Some(e), Some(f)) => Some(
            RowFields {
                id: row[a].clone(),
                name: row[b].clone(),
                x: row[c].clone(),
                y: row[d].clone(),
                z: row[e].clone(),
                is_populated: row[f].clone(),
            },
        ),
        _ => None,
    }
}

/// Builds the system from the parsed values of its fields: all of them, or
/// nothing.
pub fn assemble(
    id: Option<u64>,
    name: String,
    x: Option<u32>,
    y: Option<u32>,
    z: Option<u32>,
    is_populated: Option<u8>,
) -> (r: Option<StarSystem>)
    ensures
        r.is_some() == (id.is_some() && x.is_some() && y.is_some() && z.is_some()
            && is_populated.is_some()),
        r.is_some() ==> r.unwrap() == (StarSystem {
            id: id.unwrap(),
            name: name,
            x: x.unwrap(),
            y: y.unwrap(),
            z: z.unwrap(),
            is_populated: is_populated.unwrap(),
        }),
{
    match (id, x, y, z, is_populated) {
        (Some(id), Some(x), Some(y), Some(z), Some(is_populated)) => Some(
            StarSystem { id, name, x, y, z, is_populated },
        ),
        _ => None,
    }
}

/// Decodes the selected fields of a row. `x`, `y` and `z` are the bit patterns
/// of the parsed coordinates, `None` where the text was no number.
///
/// The row is decoded when the identifier and the flag are integers to the
/// catalogue reader and all three coordinates were parsed; the name is taken
/// as it stands.
pub fn decode_fields(fields: RowFields, x: Option<u32>, y: Option<u32>, z: Option<u32>) -> (r:
    Option<StarSystem>)
    ensures
        r.is_some() == (csv_u64(fields.id@).is_some() && x.is_some() && y.is_some() && z.is_some()
            && csv_u8(fields.is_populated@).is_some()),
        r.is_some() ==> r.unwrap() == (StarSystem {
            id: csv_u64(fields.id@).unwrap(),
            name: fields.name,
            x: x.unwrap(),
            y: y.unwrap(),
            z: z.unwrap(),
            is_populated: csv_u8(fields.is_populated@).unwrap(),
        }),
{
    let id = parse_u64(fields.id.as_str());
    let flag = parse_u8(fields.is_populated.as_str());
    assemble(id, fields.name, x, y, z, flag)
}

} // verus!
