use crate::decimal::append_decimal_run;
use crate::decimal::append_signed_decimal;
use crate::decimal::decimal_run;
use crate::decimal::signed_decimal;
use crate::dictionary::Dictionary;
use crate::dictionary::position_in;
use vstd::prelude::*;
use vstd::string::*;

verus! {

/// The kind of database behind a connection.
#[derive(Clone, Copy, PartialEq, Eq, Structural)]
pub enum ConnectionBase {
    Odbc,
    Sqlite,
}

/// A value of the embedded database. A floating-point value is held as the
/// text that displays it.
pub enum SqliteValue {
    Binary(Vec<u8>),
    Float(String),
    Integer(i64),
    String(String),
    Null,
}

/// The storage class of a column of the embedded database.
#[derive(Clone, Copy, PartialEq, Eq, Structural)]
pub enum SqliteType {
    Binary,
    Float,
    Integer,
    String,
    Null,
}

/// One cell of a record.
pub enum SqlData {
    Sqlite(SqliteValue),
    Odbc(String),
}

/// The type of a column: a storage class of the embedded database, or the
/// numeric code of an ODBC data type.
#[derive(Clone, Copy, PartialEq, Eq, Structural)]
pub enum SqlType {
    Sqlite(SqliteType),
    Odbc(i16),
}

/// What is asked of a database besides a query text.
#[derive(Clone)]
pub enum Request {
    Schema(u8),
    Tables(u8),
    Columns(String),
}

/// A request for a database: a catalogue function, or the user's own query.
#[derive(Clone)]
pub enum QueryType {
    SqlFunction(Request),
    UserDefined(String),
}

/// The mathematical value of a `SqliteValue`.
pub enum SqliteValueView {
    Binary(Seq<u8>),
    Float(Seq<char>),
    Integer(i64),
    String(Seq<char>),
    Null,
}

/// The mathematical value of a `SqlData`.
pub enum SqlDataView {
    Sqlite(SqliteValueView),
    Odbc(Seq<char>),
}

impl SqliteValueView {
    /// The text that displays the value.
    pub open spec fn text(self) -> Seq<char> {
        match self {
            SqliteValueView::Binary(bytes) => decimal_run(bytes),
            SqliteValueView::Float(shown) => shown,
            SqliteValueView::Integer(n) => signed_decimal(n as int),
            SqliteValueView::String(s) => s,
            SqliteValueView::Null => seq!['N', 'u', 'l', 'l'],
        }
    }
}

impl SqlDataView {
    /// The text that displays the cell.
    pub open spec fn text(self) -> Seq<char> {
        match self {
            SqlDataView::Sqlite(v) => v.text(),
            SqlDataView::Odbc(s) => s,
        }
    }
}

impl View for SqliteValue {
    type V = SqliteValueView;

    open spec fn view(&self) -> SqliteValueView {
        match self {
            SqliteValue::Binary(bytes) => SqliteValueView::Binary(bytes@),
            SqliteValue::Float(shown) => SqliteValueView::Float(shown@),
            SqliteValue::Integer(n) => SqliteValueView::Integer(*n),
            SqliteValue::String(s) => SqliteValueView::String(s@),
            SqliteValue::Null => SqliteValueView::Null,
        }
    }
}

impl View for SqlData {
    type V = SqlDataView;

    open spec fn view(&self) -> SqlDataView {
        match self {
            SqlData::Sqlite(v) => SqlDataView::Sqlite(v@),
            SqlData::Odbc(s) => SqlDataView::Odbc(s@),
        }
    }
}

impl Clone for SqliteValue {
    fn clone(&self) -> (r: Self)
        ensures
            r@ == self@,
    {
        match self {
            SqliteValue::Binary(bytes) => {
                let mut copy: Vec<u8> = Vec::new();
                let mut i: usize = 0;
                while i < bytes.len()
                    invariant
                        i <= bytes@.len(),
                        copy@ == bytes@.take(i as int),
                    decreases bytes@.len() - i,
                {
                    copy.push(bytes[i]);
                    assert(copy@ =~= bytes@.take(i + 1));
                    i += 1;
                }
                assert(copy@ =~= bytes@);
                SqliteValue::Binary(copy)
            },
            SqliteValue::Float(shown) => SqliteValue::Float(shown.clone()),
            SqliteValue::Integer(n) => SqliteValue::Integer(*n),
            SqliteValue::String(s) => SqliteValue::String(s.clone()),
            SqliteValue::Null => SqliteValue::Null,
        }
    }
}

impl Clone for SqlData {
    fn clone(&self) -> (r: Self)
        ensures
            r@ == self@,
    {
        match self {
            SqlData::Sqlite(v) => SqlData::Sqlite(v.clone()),
            SqlData::Odbc(s) => SqlData::Odbc(s.clone()),
        }
    }
}

impl SqliteValue {
    /// The text that displays the value: a number in decimal, a text as it
    /// is, the bytes of a blob as numerals set side by side, and `Null`.
    pub fn shown(&self) -> (r: String)
        ensures
            r@ == self@.text(),
    {
        let mut payload: String = String::new();
        match self {
            SqliteValue::Float(shown) => payload.append(shown.as_str()),
            SqliteValue::Integer(n) => append_signed_decimal(&mut payload, *n),
            SqliteValue::String(s) => payload.append(s.as_str()),
            SqliteValue::Binary(bytes) => append_decimal_run(&mut payload, bytes),
            SqliteValue::Null => {
                proof {
                    reveal_strlit("Null");
                }
                payload.append("Null");
            },
        }
        assert(payload@ =~= self@.text());
        payload
    }
}

/// Flattening a value to the text that displays it.
pub trait Translate {
    /// The text that displays the value.
    spec fn text(&self) -> Seq<char>;

    fn translate(&self) -> (r: String)
        ensures
            r@ == self.text(),
    ;
}

impl Translate for SqlData {
    open spec fn text(&self) -> Seq<char> {
        self@.text()
    }

    fn translate(&self) -> (r: String) {
        match self {
            SqlData::Sqlite(val) => val.shown(),
            SqlData::Odbc(val) => val.clone(),
        }
    }
}

impl Translate for String {
    open spec fn text(&self) -> Seq<char> {
        self@
    }

    fn translate(&self) -> (r: String) {
        self.clone()
    }
}

/// The mathematical value of an optional cell.
pub open spec fn cell_view(c: Option<SqlData>) -> Option<SqlDataView> {
    match c {
        Some(d) => Some(d@),
        None => None,
    }
}

/// The texts of a list of names, in order.
pub open spec fn names_view(names: Seq<String>) -> Seq<Seq<char>> {
    Seq::new(names.len(), |i: int| names[i]@)
}

/// One row of a result: a cell, possibly empty, under each column name.
pub struct Record {
    pub columns: Dictionary<Option<SqlData>>,
    pub data_type: Option<ConnectionBase>,
}

/// The mathematical value of a `Record`: its column names in order, the cell
/// under each, and the kind of database it came from.
pub struct RecordView {
    pub keys: Seq<Seq<char>>,
    pub cells: Seq<Option<SqlDataView>>,
    pub data_type: Option<ConnectionBase>,
}

impl RecordView {
    /// The cell under `name`, where the record has that column.
    pub open spec fn cell(self, name: Seq<char>) -> Option<Option<SqlDataView>> {
        match position_in(self.keys, name) {
            Some(i) => Some(self.cells[i]),
            None => None,
        }
    }

    /// The text shown for column `name`: that of its cell, and nothing where
    /// the column is missing or its cell is empty.
    pub open spec fn shown(self, name: Seq<char>) -> Seq<char> {
        match self.cell(name) {
            Some(Some(d)) => d.text(),
            _ => Seq::<char>::empty(),
        }
    }

    /// The record with `cell` under `name`: replaced in place where the
    /// column exists, added at the end where it does not.
    pub open spec fn with(self, name: Seq<char>, cell: Option<SqlDataView>) -> RecordView {
        match position_in(self.keys, name) {
            Some(i) => RecordView { cells: self.cells.update(i, cell), ..self },
            None => RecordView {
                keys: self.keys.push(name),
                cells: self.cells.push(cell),
                ..self
            },
        }
    }

    /// The record with an empty cell under each of `names`, taken in order.
    pub open spec fn with_blanks(self, names: Seq<Seq<char>>) -> RecordView
        decreases names.len(),
    {
        if names.len() == 0 {
            self
        } else {
            self.with_blanks(names.drop_last()).with(names.last(), None)
        }
    }

    /// The record cut down to the column `name`.
    pub open spec fn only(self, name: Seq<char>) -> RecordView {
        match self.cell(name) {
            Some(c) => RecordView { keys: seq![name], cells: seq![c], ..self },
            None => RecordView { keys: Seq::empty(), cells: Seq::empty(), ..self },
        }
    }
}

impl View for Record {
    type V = RecordView;

    open spec fn view(&self) -> RecordView {
        RecordView {
            keys: self.columns.keys(),
            cells: Seq::new(
                self.columns.values().len(),
                |i: int| cell_view(self.columns.values()[i]),
            ),
            data_type: self.data_type,
        }
    }
}

impl Clone for Record {
    fn clone(&self) -> (r: Self)
        ensures
            r@ == self@,
    {
        let mut entries: Vec<(String, Option<SqlData>)> = Vec::new();
        let n = self.columns.len();
        let mut i: usize = 0;
        while i < n
            invariant
                i <= n,
                n == self.columns.keys().len(),
                n == self.columns.values().len(),
                entries@.len() == i,
                forall|j: int|
                    0 <= j < i ==> (#[trigger] entries@[j]).0@ == self.columns.keys()[j]
                        && cell_view(entries@[j].1) == cell_view(self.columns.values()[j]),
            decreases n - i,
        {
            let key = self.columns.key_at(i).clone();
            let cell = match self.columns.value_at(i) {
                Some(d) => Some(d.clone()),
                None => None,
            };
            entries.push((key, cell));
            i += 1;
        }
        let columns = Dictionary::from_entries(entries);
        let r = Record { columns, data_type: self.data_type };
        assert(r@.keys =~= self@.keys);
        assert(r@.cells =~= self@.cells);
        r
    }
}

impl Record {
    /// A record with no column, from no stated kind of database.
    pub fn new() -> (r: Self)
        ensures
            r@ == (RecordView { keys: Seq::empty(), cells: Seq::empty(), data_type: None }),
    {
        let r = Record { columns: Dictionary::new(), data_type: None };
        assert(r@.cells =~= Seq::<Option<SqlDataView>>::empty());
        r
    }

    /// Puts `val` under column `key`.
    pub fn add(&mut self, key: String, val: SqlData)
        ensures
            final(self)@ == old(self)@.with(key@, Some(val@)),
    {
        self.columns.insert(key, Some(val));
        proof {
            old(self).columns.lemma_paired();
            let before = old(self)@;
            let after = before.with(key@, Some(val@));
            assert(self@.keys =~= after.keys);
            assert(self@.cells =~= after.cells);
        }
    }

    /// Gives the record an empty cell under every column of `column_info`.
    pub fn construct(&mut self, column_info: &Dictionary<SqlType>)
        ensures
            final(self)@ == old(self)@.with_blanks(column_info.keys()),
    {
        let n = column_info.len();
        let mut i: usize = 0;
        while i < n
            invariant
                i <= n,
                n == column_info.keys().len(),
                self@ == old(self)@.with_blanks(column_info.keys().take(i as int)),
            decreases n - i,
        {
            let key = column_info.key_at(i).clone();
            let ghost before = self@;
            proof {
                self.columns.lemma_paired();
            }
            self.columns.insert(key, None);
            proof {
                let next = column_info.keys().take(i + 1);
                assert(next.drop_last() =~= column_info.keys().take(i as int));
                assert(next.last() == key@);
                let after = before.with(key@, None);
                assert(self@.keys =~= after.keys);
                assert(self@.cells =~= after.cells);
            }
            i += 1;
        }
        assert(column_info.keys().take(i as int) =~= column_info.keys());
    }
}

/// The number of records on a page.
pub const PAGE_SIZE: usize = 50;

/// Where page `page` of `len` records ends: after `page` full pages, or at
/// the last record where there are fewer.
pub open spec fn page_end(page: int, len: int) -> int {
    if page * 50 < len {
        page * 50
    } else {
        len
    }
}

/// Where a page that ends at `end` begins: fifty records earlier, or at the
/// first record.
pub open spec fn page_start(end: int) -> int {
    if end > 50 {
        end - 50
    } else {
        0
    }
}

/// A page lies within the records, ends where `page_end` says and holds
/// fifty records at most; page 0 is empty, and a page that reaches the end
/// of fifty records or more is full.
pub proof fn lemma_page_bounds(page: nat, len: nat)
    ensures
        0 <= page_start(page_end(page as int, len as int)) <= page_end(page as int, len as int)
            <= len,
        page_end(page as int, len as int) - page_start(page_end(page as int, len as int)) <= 50,
        page == 0 ==> page_end(page as int, len as int) == 0,
        page >= 1 && len >= 50 ==> page_end(page as int, len as int) - page_start(
            page_end(page as int, len as int),
        ) == 50,
{
}

/// The result of a query: the columns with their types, the order in which
/// the columns are shown, and the rows.
#[derive(Clone)]
pub struct RecordSet {
    pub column_info: Dictionary<SqlType>,
    pub column_order: Vec<String>,
    pub records: Vec<Record>,
}

impl RecordSet {
    /// The column names in the order in which they are shown.
    pub open spec fn order(&self) -> Seq<Seq<char>> {
        names_view(self.column_order@)
    }

    /// The mathematical values of the rows, in order.
    pub open spec fn rows(&self) -> Seq<RecordView> {
        Seq::new(self.records@.len(), |i: int| self.records@[i]@)
    }

    /// A record set with no column and no row.
    pub fn default() -> (rs: Self)
        ensures
            rs.column_info.keys() == Seq::<Seq<char>>::empty(),
            rs.column_info.values() == Seq::<SqlType>::empty(),
            rs.order() == Seq::<Seq<char>>::empty(),
            rs.rows() == Seq::<RecordView>::empty(),
    {
        let rs = RecordSet {
            column_info: Dictionary::new(),
            column_order: Vec::new(),
            records: Vec::new(),
        };
        assert(rs.order() =~= Seq::<Seq<char>>::empty());
        assert(rs.rows() =~= Seq::<RecordView>::empty());
        rs
    }

    /// Appends a row.
    pub fn add(&mut self, rec: Record)
        ensures
            final(self).records@ == old(self).records@.push(rec),
            final(self).rows() == old(self).rows().push(rec@),
            final(self).column_info == old(self).column_info,
            final(self).column_order == old(self).column_order,
    {
        self.records.push(rec);
        assert(self.rows() =~= old(self).rows().push(rec@));
    }

    /// Appends a column: its type is recorded under its name, and its name
    /// comes last in the order of display.
    pub fn add_column(&mut self, name: String, kind: SqlType)
        ensures
            final(self).order() == old(self).order().push(name@),
            final(self).records == old(self).records,
            match old(self).column_info.position(name@) {
                Some(i) => final(self).column_info.keys() == old(self).column_info.keys() && final(self).column_info.values() == old(self).column_info.values().update(i, kind),
                None => final(self).column_info.keys() == old(self).column_info.keys().push(name@)
                    && final(self).column_info.values() == old(self).column_info.values().push(
                    kind,
                ),
            },
    {
        self.column_info.insert(name.clone(), kind);
        self.column_order.push(name);
        assert(self.order() =~= old(self).order().push(name@));
    }

    /// The number of rows.
    pub fn record_count(&self) -> (n: usize)
        ensures
            n == self.rows().len(),
    {
        self.records.len()
    }

    /// The number of columns of the first row.
    pub fn column_count(&self) -> (n: usize)
        requires
            self.rows().len() > 0,
        ensures
            n == self.rows()[0].keys.len(),
    {
        self.records[0].columns.len()
    }

    /// The rows of page `page`, counted from 1: the fifty rows that end where
    /// `page` full pages end, and the last fifty rows (or all, where there
    /// are fewer) for any page at or past the end. Page 0 is empty.
    pub fn fetch_page_of_records(&self, page: usize) -> (out: Vec<Record>)
        ensures
            Seq::new(out@.len(), |i: int| out@[i]@) == self.rows().subrange(
                page_start(page_end(page as int, self.rows().len() as int)),
                page_end(page as int, self.rows().len() as int),
            ),
    {
        let len = self.records.len();
        let range_upper: usize = match page.checked_mul(PAGE_SIZE) {
            Some(reach) => if reach < len {
                reach
            } else {
                len
            },
            None => len,
        };
        let range_lower: usize = if range_upper > PAGE_SIZE {
            range_upper - PAGE_SIZE
        } else {
            0
        };
        let mut out: Vec<Record> = Vec::new();
        let mut i: usize = range_lower;
        while i < range_upper
            invariant
                range_lower <= i <= range_upper <= self.records@.len(),
                out@.len() == i - range_lower,
                forall|j: int| 0 <= j < out@.len() ==> (#[trigger] out@[j])@ == self.records@[range_lower + j]@,
            decreases range_upper - i,
        {
            out.push(self.records[i].clone());
            i += 1;
        }
        assert(Seq::new(out@.len(), |i: int| out@[i]@) =~= self.rows().subrange(
            range_lower as int,
            range_upper as int,
        ));
        out
    }

    /// Cuts the record set down to the column `index`: every row keeps only
    /// that cell, and so do the column types and the order of display, which
    /// then names `index` alone.
    pub fn keep(&mut self, index: String)
        ensures
            final(self).rows() == Seq::new(
                old(self).rows().len(),
                |i: int| old(self).rows()[i].only(index@),
            ),
            final(self).order() == seq![index@],
            match old(self).column_info.lookup(index@) {
                Some(kind) => final(self).column_info.keys() == seq![index@] && final(self).column_info.values() == seq![kind],
                None => final(self).column_info.keys() == Seq::<Seq<char>>::empty() && final(self).column_info.values() == Seq::<SqlType>::empty(),
            },
    {
        let n = self.records.len();
        let mut i: usize = 0;
        while i < n
            invariant
                i <= n,
                n == self.records@.len(),
                n == old(self).records@.len(),
                self.column_info == old(self).column_info,
                forall|j: int| 0 <= j < i ==> (#[trigger] self.records@[j])@ == old(self).records@[j]@.only(index@),
                forall|j: int| i <= j < n ==> #[trigger] self.records@[j] == old(self).records@[j],
            decreases n - i,
        {
            let ghost before = self.records@[i as int];
            self.records[i].columns.retain_key(&index);
            proof {
                let after = self.records@[i as int];
                before.columns.lemma_paired();
                assert(after.data_type == before.data_type);
                assert(after@.keys =~= before@.only(index@).keys);
                assert(after@.cells =~= before@.only(index@).cells);
            }
            i += 1;
        }
        self.reconsile(index);
        assert(self.rows() =~= Seq::new(
            old(self).rows().len(),
            |i: int| old(self).rows()[i].only(index@),
        ));
    }

    /// Cuts the column types and the order of display down to `index`.
    fn reconsile(&mut self, index: String)
        ensures
            final(self).records == old(self).records,
            final(self).order() == seq![index@],
            match old(self).column_info.lookup(index@) {
                Some(kind) => final(self).column_info.keys() == seq![index@] && final(self).column_info.values() == seq![kind],
                None => final(self).column_info.keys() == Seq::<Seq<char>>::empty() && final(self).column_info.values() == Seq::<SqlType>::empty(),
            },
    {
        let mut new_column_order: Vec<String> = Vec::new();
        new_column_order.push(index.clone());
        self.column_order = new_column_order;
        self.column_info.retain_key(&index);
        assert(self.order() =~= seq![index@]);
    }
}

/// A connection to a database: where it leads, of which kind it is, and what
/// the last query gave.
pub struct Connection {
    pub record_set: Option<RecordSet>,
    pub connection: Option<String>,
    pub result_code: Option<i32>,
    pub result_details: Option<String>,
    pub connection_type: Option<ConnectionBase>,
}

impl Connection {
    /// Takes in the result of a query and marks the query as passed.
    pub fn assemble_rs(&mut self, donor_rs: RecordSet)
        ensures
            final(self).record_set == Some(donor_rs),
            final(self).result_code == Some(1i32),
            final(self).connection == old(self).connection,
            final(self).result_details == old(self).result_details,
            final(self).connection_type == old(self).connection_type,
    {
        self.record_set = Some(donor_rs);
        self.result_code = Some(1);
    }
}

/// The one-column row that lists `name` under the heading `heading`.
pub open spec fn name_row(
    heading: Seq<char>,
    cell: SqlDataView,
    data_type: Option<ConnectionBase>,
) -> RecordView {
    RecordView { keys: seq![heading], cells: seq![Some(cell)], data_type }
}

/// A record with the single cell `cell` under `heading`.
pub fn single_cell_record(heading: &str, cell: SqlData, data_type: Option<ConnectionBase>) -> (r:
    Record)
    ensures
        r@ == name_row(heading@, cell@, data_type),
{
    let mut r = Record::new();
    r.data_type = data_type;
    r.add(heading.to_owned(), cell);
    proof {
        assert(position_in(Seq::<Seq<char>>::empty(), heading@) is None);
        assert(r@.keys =~= seq![heading@]);
        assert(r@.cells =~= seq![Some(cell@)]);
    }
    r
}

} // verus!
