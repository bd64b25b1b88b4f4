//! Reading tables from CSV text and writing tables as CSV text, with the
//! `csv` crate doing the parsing and the quoting
use crate::{fully_accessible, DynamicTable, Table};
use vstd::prelude::*;
use vstd::string::StringSliceAdditionalSpecFns;

verus! {

/// `csv::Error`, the error of the `csv` crate, declared so that results can
/// carry it; nothing is claimed of what it holds
#[verifier::external_type_specification]
#[verifier::external_body]
pub struct ExCsvError(csv::Error);

/// The text of each field of each record
pub open spec fn records_view(records: Seq<Vec<String>>) -> Seq<Seq<Seq<char>>> {
    records.map_values(|record: Vec<String>| record@.map_values(|field: String| field@))
}

/// The records that the `csv` crate reads from `bytes`, each as the text of
/// its fields, with a reader that takes no header row and wants every record
/// to have as many fields as the first; `None` where that reader reports an
/// error
pub uninterp spec fn csv_records(bytes: Seq<u8>) -> Option<Seq<Seq<Seq<char>>>>;

/// The bytes that the `csv` crate writes for `records`, one line per record,
/// with a writer that wants every record to have as many fields as the
/// first; `None` where that writer reports an error
pub uninterp spec fn csv_bytes(records: Seq<Seq<Seq<char>>>) -> Option<Seq<u8>>;

/// The text that `String::from_utf8_lossy` makes of `bytes`
pub uninterp spec fn utf8_lossy(bytes: Seq<u8>) -> Seq<char>;

/// Reads every record of `bytes` with `csv::ReaderBuilder`, with no header
/// row, up to the first error. The contract claims only that what comes back
/// depends on the bytes alone, and names it `csv_records`.
#[verifier::external_body]
fn read_csv_records(bytes: &[u8]) -> (r: Result<Vec<Vec<String>>, csv::Error>)
    ensures
        match r {
            Ok(records) => csv_records(bytes@) == Some(records_view(records@)),
            Err(_) => csv_records(bytes@) is None,
        },
{
    let mut reader = csv::ReaderBuilder::new().has_headers(false).from_reader(bytes);
    reader.records().map(|record| record.map(|fields| fields.iter().map(String::from).collect())).collect()
}

/// Writes `records` with `csv::WriterBuilder`, with no header row, into a
/// buffer, up to the first error. The contract claims only that what comes
/// back depends on the records' text alone, and names it `csv_bytes`.
#[verifier::external_body]
fn write_csv_records(records: &Vec<Vec<String>>) -> (r: Result<Vec<u8>, csv::Error>)
    ensures
        match r {
            Ok(bytes) => csv_bytes(records_view(records@)) == Some(bytes@),
            Err(_) => csv_bytes(records_view(records@)) is None,
        },
{
    let mut writer = csv::WriterBuilder::new().has_headers(false).from_writer(Vec::new());
    for record in records {
        writer.write_record(record)?;
    }
    writer.into_inner().map_err(|e| csv::Error::from(e.into_error()))
}

/// Turns `bytes` into text with `String::from_utf8_lossy`, which replaces
/// each invalid sequence with a replacement character; the contract names
/// the result `utf8_lossy`
#[verifier::external_body]
fn lossy_text(bytes: &[u8]) -> (r: String)
    ensures
        r@ == utf8_lossy(bytes@),
{
    String::from_utf8_lossy(bytes).to_string()
}

/// Why a table could not be read from CSV text or written as CSV text
#[derive(Debug)]
pub enum CsvError {
    /// The bytes are not CSV that the reader accepts
    Read(csv::Error),
    /// The rows of the table cannot be written as CSV
    Write(csv::Error),
}

/// The row count of a table that holds `records`, one row per record: one
/// past the last record that has a field
pub open spec fn records_row_cnt(records: Seq<Seq<Seq<char>>>) -> nat
    decreases records.len(),
{
    if records.len() == 0 {
        0
    } else if records.last().len() > 0 {
        records.len()
    } else {
        records_row_cnt(records.drop_last())
    }
}

/// The column count of a table that holds `records`: the most fields of any
/// record
pub open spec fn records_col_cnt(records: Seq<Seq<Seq<char>>>) -> nat
    decreases records.len(),
{
    if records.len() == 0 {
        0
    } else if records.last().len() > records_col_cnt(records.drop_last()) {
        records.last().len()
    } else {
        records_col_cnt(records.drop_last())
    }
}

/// `t` holds `records`, record `i` as row `i` from its first column on, and
/// nothing else; its counts are the least that cover them
pub open spec fn holds_records(t: DynamicTable<String>, records: Seq<Seq<Seq<char>>>) -> bool {
    &&& t.spec_row_cnt() == records_row_cnt(records)
    &&& t.spec_col_cnt() == records_col_cnt(records)
    &&& forall|i: int, j: int|
        #[trigger] t.spec_cell(i, j) is Some ==> 0 <= i < records.len() && 0 <= j < records[i].len()
            && t.spec_cell(i, j)->Some_0@ == records[i][j]
    &&& forall|i: int, j: int|
        0 <= i < records.len() && 0 <= j < records[i].len() ==> #[trigger] t.spec_cell(i, j) is Some
}

/// `records` are the rows of `t` as reading a row gives them: one record
/// per row within the row count, each the cells of its row from the first
/// column up to the first empty position
pub open spec fn rows_as_records<T: Table<Data = String>>(t: T, records: Seq<Seq<Seq<char>>>) -> bool {
    &&& records.len() == t.spec_row_cnt()
    &&& forall|i: int| 0 <= i < records.len() ==> (#[trigger] t.spec_cell(i, records[i].len() as int)) is None
    &&& forall|i: int, j: int|
        0 <= i < records.len() && 0 <= j < records[i].len() ==> #[trigger] t.spec_cell(i, j) is Some
            && t.spec_cell(i, j)->Some_0@ == records[i][j]
}

/// The counts of the first `n` records, and those of one more
proof fn lemma_records_counts_step(records: Seq<Seq<Seq<char>>>, n: int)
    requires
        0 <= n < records.len(),
    ensures
        records_row_cnt(records.take(n + 1)) == if records[n].len() > 0 {
            n + 1
        } else {
            records_row_cnt(records.take(n)) as int
        },
        records_col_cnt(records.take(n + 1)) == if records[n].len() > records_col_cnt(records.take(n)) {
            records[n].len() as int
        } else {
            records_col_cnt(records.take(n)) as int
        },
        records_row_cnt(records.take(n)) <= n,
{
    assert(records.take(n + 1).drop_last() == records.take(n));
    lemma_records_row_cnt_bound(records.take(n));
}

/// The row count of records is at most their number
proof fn lemma_records_row_cnt_bound(records: Seq<Seq<Seq<char>>>)
    ensures
        records_row_cnt(records) <= records.len(),
    decreases records.len(),
{
    if records.len() > 0 {
        lemma_records_row_cnt_bound(records.drop_last());
    }
}

/// Builds a table that holds `records`, record `i` as row `i`, field by
/// field from the first column on
pub fn table_from_records(records: &Vec<Vec<String>>) -> (t: DynamicTable<String>)
    ensures
        holds_records(t, records_view(records@)),
        fully_accessible(t),
{
    let ghost recs = records_view(records@);
    let mut table: DynamicTable<String> = DynamicTable::new();
    let n = records.len();
    let mut r: usize = 0;
    while r < n
        invariant
            n == records@.len(),
            recs == records_view(records@),
            r <= n,
            fully_accessible(table),
            table.spec_row_cnt() == records_row_cnt(recs.take(r as int)),
            table.spec_col_cnt() == records_col_cnt(recs.take(r as int)),
            forall|i: int, j: int|
                #[trigger] table.spec_cell(i, j) is Some ==> 0 <= i < r && 0 <= j < recs[i].len()
                    && table.spec_cell(i, j)->Some_0@ == recs[i][j],
            forall|i: int, j: int| 0 <= i < r && 0 <= j < recs[i].len() ==> #[trigger] table.spec_cell(i, j) is Some,
        decreases n - r,
    {
        let record = &records[r];
        let len = record.len();
        proof {
            lemma_records_counts_step(recs, r as int);
        }
        let mut c: usize = 0;
        while c < len
            invariant
                n == records@.len(),
                recs == records_view(records@),
                r < n,
                *record == records@[r as int],
                len == record@.len(),
                c <= len,
                fully_accessible(table),
                records_row_cnt(recs.take(r as int)) <= r,
                table.spec_row_cnt() == if c > 0 {
                    r + 1
                } else {
                    records_row_cnt(recs.take(r as int)) as int
                },
                table.spec_col_cnt() == if c > records_col_cnt(recs.take(r as int)) {
                    c as int
                } else {
                    records_col_cnt(recs.take(r as int)) as int
                },
                forall|i: int, j: int|
                    #[trigger] table.spec_cell(i, j) is Some ==> ((0 <= i < r && 0 <= j < recs[i].len())
                        || (i == r && 0 <= j < c)) && table.spec_cell(i, j)->Some_0@ == recs[i][j],
                forall|i: int, j: int|
                    (0 <= i < r && 0 <= j < recs[i].len()) || (i == r && 0 <= j < c) ==> #[trigger] table.spec_cell(
                        i,
                        j,
                    ) is Some,
            decreases len - c,
        {
            let field = record[c].clone();
            let ghost before = table;
            proof {
                table.lemma_access_to_insert(r as int, c as int);
            }
            table.insert_cell(r, c, field);
            proof {
                assert(recs[r as int][c as int] == record@[c as int]@);
                assert forall|i: int, j: int| #[trigger] table.spec_cell(i, j) is Some implies ((0 <= i < r
                    && 0 <= j < recs[i].len()) || (i == r && 0 <= j < c + 1)) && table.spec_cell(i, j)->Some_0@
                    == recs[i][j] by {
                    assert(before.spec_cell(i, j) == before.spec_cell(i, j));
                }
                assert forall|i: int, j: int|
                    (0 <= i < r && 0 <= j < recs[i].len()) || (i == r && 0 <= j < c + 1) implies #[trigger] table.spec_cell(
                    i,
                    j,
                ) is Some by {
                    assert(before.spec_cell(i, j) == before.spec_cell(i, j));
                }
            }
            c = c + 1;
        }
        r = r + 1;
    }
    proof {
        assert(recs.take(n as int) == recs);
    }
    table
}

/// Reads a table from CSV bytes: record `i` becomes row `i`, field by
/// field from the first column on
///
/// Returns an error exactly when the CSV reader reports one
pub fn from_csv_bytes(bytes: &[u8]) -> (r: Result<DynamicTable<String>, CsvError>)
    ensures
        r is Ok <==> csv_records(bytes@) is Some,
        r matches Ok(t) ==> holds_records(t, csv_records(bytes@)->Some_0) && fully_accessible(t),
        r matches Err(e) ==> e is Read,
{
    match read_csv_records(bytes) {
        Ok(records) => Ok(table_from_records(&records)),
        Err(e) => Err(CsvError::Read(e)),
    }
}

/// Reads a table from CSV text: record `i` becomes row `i`, field by field
/// from the first column on
///
/// Returns an error exactly when the CSV reader reports one
pub fn from_csv_str(s: &str) -> (r: Result<DynamicTable<String>, CsvError>)
    ensures
        r is Ok <==> csv_records(s.spec_bytes()) is Some,
        r matches Ok(t) ==> holds_records(t, csv_records(s.spec_bytes())->Some_0) && fully_accessible(t),
        r matches Err(e) ==> e is Read,
{
    from_csv_bytes(s.as_bytes())
}

/// The rows of the table as reading each row gives them: from the first
/// column up to the first empty position
pub fn rows_of<T: Table<Data = String>>(table: &T) -> (r: Vec<Vec<String>>)
    requires
        fully_accessible(*table),
    ensures
        rows_as_records(*table, records_view(r@)),
{
    let mut rows: Vec<Vec<String>> = Vec::new();
    let rc = table.row_cnt();
    let mut i: usize = 0;
    while i < rc
        invariant
            rc == table.spec_row_cnt(),
            i <= rc,
            fully_accessible(*table),
            rows@.len() == i,
            forall|a: int| 0 <= a < i ==> (#[trigger] table.spec_cell(a, rows@[a]@.len() as int)) is None,
            forall|a: int, b: int|
                0 <= a < i && 0 <= b < rows@[a]@.len() ==> #[trigger] table.spec_cell(a, b) is Some
                    && table.spec_cell(a, b)->Some_0@ == rows@[a]@[b]@,
        decreases rc - i,
    {
        let mut row: Vec<String> = Vec::new();
        let mut j: usize = 0;
        loop
            invariant
                i < rc,
                fully_accessible(*table),
                row@.len() == j,
                forall|b: int| 0 <= b < j ==> #[trigger] table.spec_cell(i as int, b) is Some
                    && table.spec_cell(i as int, b)->Some_0@ == row@[b]@,
            ensures
                table.spec_cell(i as int, j as int) is None,
            decreases usize::MAX - j,
        {
            match table.get_cell(i, j) {
                Some(x) => {
                    proof {
                        table.lemma_cell_position(i as int, j as int);
                    }
                    row.push(x.clone());
                    j = j + 1;
                },
                None => {
                    break;
                },
            }
        }
        let ghost before = rows@;
        rows.push(row);
        proof {
            assert forall|a: int| 0 <= a < i + 1 implies (#[trigger] table.spec_cell(a, rows@[a]@.len() as int))
                is None by {
                if a < i {
                    assert(rows@[a] == before[a]);
                }
            }
            assert forall|a: int, b: int|
                0 <= a < i + 1 && 0 <= b < rows@[a]@.len() implies #[trigger] table.spec_cell(a, b) is Some
                && table.spec_cell(a, b)->Some_0@ == rows@[a]@[b]@ by {
                if a < i {
                    assert(rows@[a] == before[a]);
                }
            }
        }
        i = i + 1;
    }
    rows
}

/// Writes the table as CSV bytes, one line per row within the row count,
/// each row as reading it gives it: from the first column up to the first
/// empty position
///
/// Returns an error exactly when the CSV writer reports one, such as for
/// rows of different lengths
pub fn to_csv_bytes<T: Table<Data = String>>(table: &T) -> (r: Result<Vec<u8>, CsvError>)
    requires
        fully_accessible(*table),
    ensures
        exists|records: Seq<Seq<Seq<char>>>|
            {
                &&& #[trigger] rows_as_records(*table, records)
                &&& match r {
                    Ok(bytes) => csv_bytes(records) == Some(bytes@),
                    Err(e) => csv_bytes(records) is None && e is Write,
                }
            },
{
    let rows = rows_of(table);
    match write_csv_records(&rows) {
        Ok(bytes) => Ok(bytes),
        Err(e) => Err(CsvError::Write(e)),
    }
}

/// Writes the table as CSV text, as [`to_csv_bytes`] writes it, turning the
/// bytes into text with `String::from_utf8_lossy`
pub fn to_csv_str<T: Table<Data = String>>(table: &T) -> (r: Result<String, CsvError>)
    requires
        fully_accessible(*table),
    ensures
        exists|records: Seq<Seq<Seq<char>>>|
            {
                &&& #[trigger] rows_as_records(*table, records)
                &&& match r {
                    Ok(text) => csv_bytes(records) matches Some(bytes) && text@ == utf8_lossy(bytes),
                    Err(e) => csv_bytes(records) is None && e is Write,
                }
            },
{
    match to_csv_bytes(table) {
        Ok(bytes) => Ok(lossy_text(bytes.as_slice())),
        Err(e) => Err(e),
    }
}

} // verus!
