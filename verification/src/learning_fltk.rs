use crate::decimal::append_signed_decimal;
use crate::decimal::signed_decimal;
use crate::sql_aux_funcs::Connection;
use crate::sql_aux_funcs::ConnectionBase;
use crate::sql_aux_funcs::QueryType;
use crate::sql_aux_funcs::Record;
use crate::sql_aux_funcs::RecordSet;
use crate::sql_aux_funcs::RecordView;
use crate::sql_aux_funcs::Request;
use crate::sql_aux_funcs::SqlData;
use crate::sql_aux_funcs::SqlDataView;
use crate::sql_aux_funcs::SqliteValue;
use crate::sql_aux_funcs::SqliteValueView;
use crate::sql_aux_funcs::Translate;
use vstd::prelude::*;
use vstd::std_specs::cmp::PartialOrdIs;
use vstd::std_specs::cmp::PartialOrdSpec;
use vstd::string::*;

verus! {

/// Whether a query is to name the table that is selected in the grid of
/// tables.
#[derive(Clone, Copy, PartialEq, Eq, Structural)]
pub enum FetchFlag {
    True,
    False,
}

/// What the window's controls and workers tell its event loop.
#[derive(Clone)]
pub enum Message {
    Query(QueryType, FetchFlag),
    FillGrid(i32),
    Save,
    ClearGrid,
    RandomNumber(usize, u64),
    LaunchObserver,
    SqlServerPacket(Option<i32>),
}

/// The grids of the window.
#[derive(Clone, Copy, Debug, PartialEq, Eq, Structural)]
pub enum Grid {
    Records,
    Tables,
    Columns,
}

/// The frame `frame` stretched to take in `child`: its first two parts fall
/// to those of the child where they are greater, its last two rise to those
/// of the child where they are less.
pub open spec fn stretched<T: PartialOrd>(frame: (T, T, T, T), child: (T, T, T, T)) -> (
    T,
    T,
    T,
    T,
) {
    (
        if frame.0.is_gt(&child.0) {
            child.0
        } else {
            frame.0
        },
        if frame.1.is_gt(&child.1) {
            child.1
        } else {
            frame.1
        },
        if frame.2.is_lt(&child.2) {
            child.2
        } else {
            frame.2
        },
        if frame.3.is_lt(&child.3) {
            child.3
        } else {
            frame.3
        },
    )
}

/// The frame `start` stretched to take in each of `bounds` in turn.
pub open spec fn enclosing<T: PartialOrd>(start: (T, T, T, T), bounds: Seq<(T, T, T, T)>) -> (
    T,
    T,
    T,
    T,
)
    decreases bounds.len(),
{
    if bounds.len() == 0 {
        start
    } else {
        stretched(enclosing(start, bounds.drop_last()), bounds.last())
    }
}

/// The first `n` of `bounds`.
pub open spec fn first_bounds<T>(bounds: Seq<(T, T, T, T)>, n: int) -> Seq<(T, T, T, T)> {
    bounds.take(n)
}

/// Stretches the frame `start` to take in each of `bounds` in turn.
pub fn enclose<T: PartialOrd>(start: (T, T, T, T), bounds: Vec<(T, T, T, T)>) -> (frame: (
    T,
    T,
    T,
    T,
))
    ensures
        T::obeys_partial_cmp_spec() ==> frame == enclosing(start, bounds@),
{
    let mut boundary = start;
    let ghost all = bounds@;
    assert(first_bounds(all, 0) =~= Seq::<(T, T, T, T)>::empty());
    for current_boundary in it: bounds
        invariant
            it.seq() == all,
            T::obeys_partial_cmp_spec() ==> boundary == enclosing(
                start,
                first_bounds(all, it.index()),
            ),
    {
        proof {
            assert(first_bounds(all, it.index() + 1).drop_last() =~= first_bounds(
                all,
                it.index(),
            ));
            assert(first_bounds(all, it.index() + 1).last() == current_boundary);
        }
        let (left, top, right, bottom) = boundary;
        let (child_left, child_top, child_right, child_bottom) = current_boundary;
        let left = if left > child_left {
            child_left
        } else {
            left
        };
        let top = if top > child_top {
            child_top
        } else {
            top
        };
        let right = if right < child_right {
            child_right
        } else {
            right
        };
        let bottom = if bottom < child_bottom {
            child_bottom
        } else {
            bottom
        };
        boundary = (left, top, right, bottom);
    }
    assert(first_bounds(all, all.len() - 0) =~= all);
    boundary
}

/// The frame that takes in every one of `bounds`, grown from a frame whose
/// four parts are default values of the type.
pub fn resize_window_to_children<T>(bounds: Vec<(T, T, T, T)>) -> (frame: (T, T, T, T)) where
    T: PartialOrd + Default,

    ensures
        T::obeys_partial_cmp_spec() ==> exists|a: T, b: T, c: T, d: T|
            {
                &&& call_ensures(T::default, (), a)
                &&& call_ensures(T::default, (), b)
                &&& call_ensures(T::default, (), c)
                &&& call_ensures(T::default, (), d)
                &&& frame == enclosing((a, b, c, d), bounds@)
            },
{
    let start: (T, T, T, T) = (T::default(), T::default(), T::default(), T::default());
    enclose(start, bounds)
}

/// How long the observer's worker number `index` rests between two numbers,
/// in milliseconds: a tenth of a second, and eighty milliseconds more for
/// itself and for each worker before it.
pub fn worker_pause_millis(index: u64) -> (pause: u64)
    requires
        100 + (index + 1) * 80 <= u64::MAX,
    ensures
        pause == 100 + (index + 1) * 80,
{
    100 + (index + 1) * 80
}

/// The label of row `index` of a grid: its number in decimal.
pub fn row_label(index: i32) -> (label: String)
    ensures
        label@ == signed_decimal(index as int),
{
    let mut label = String::new();
    append_signed_decimal(&mut label, index as i64);
    label
}

/// Whether a selection in a grid, given by its four corners, selects
/// anything: whether it comes after four times -1 in the order of tuples.
pub fn has_selection(selection: (i32, i32, i32, i32)) -> (selected: bool)
    ensures
        selected == (selection.0 > -1 || (selection.0 == -1 && (selection.1 > -1 || (selection.1
            == -1 && (selection.2 > -1 || (selection.2 == -1 && selection.3 > -1)))))),
{
    selection.0 > -1 || (selection.0 == -1 && (selection.1 > -1 || (selection.1 == -1 && (
    selection.2 > -1 || (selection.2 == -1 && selection.3 > -1)))))
}

/// The query that is run for a request of the window: the request itself
/// where no table is selected; else the columns of the selected table, named
/// by `selected` where the request fetches the name and by the empty text
/// where it does not.
pub fn effective_query(query: QueryType, fetch_flag: FetchFlag, selected: Option<String>) -> (q:
    QueryType)
    ensures
        match selected {
            None => q == query,
            Some(name) => q matches QueryType::SqlFunction(Request::Columns(table)) && table@
                == if fetch_flag == FetchFlag::True {
                name@
            } else {
                Seq::<char>::empty()
            },
        },
{
    match selected {
        None => query,
        Some(name) => {
            let table_name = match fetch_flag {
                FetchFlag::True => name,
                FetchFlag::False => String::new(),
            };
            QueryType::SqlFunction(Request::Columns(table_name))
        },
    }
}

/// The grid that a fill message names: the grid of tables for 2, the grid
/// of columns for 3, the grid of records for any other number.
pub fn grid_for(table_index: i32) -> (grid: Grid)
    ensures
        grid == if table_index == 2 {
            Grid::Tables
        } else if table_index == 3 {
            Grid::Columns
        } else {
            Grid::Records
        },
{
    if table_index == 2 {
        Grid::Tables
    } else if table_index == 3 {
        Grid::Columns
    } else {
        Grid::Records
    }
}

/// The kind of database that a choice of the server dialog stands for: ODBC
/// for 1, the embedded database for 2, none for anything else.
pub fn server_for(packet: Option<i32>) -> (kind: Option<ConnectionBase>)
    ensures
        kind == match packet {
            Some(1i32) => Some(ConnectionBase::Odbc),
            Some(2i32) => Some(ConnectionBase::Sqlite),
            _ => None::<ConnectionBase>,
        },
{
    match packet {
        Some(1) => Some(ConnectionBase::Odbc),
        Some(2) => Some(ConnectionBase::Sqlite),
        _ => None,
    }
}

/// The text of a cell of a grid that shows the record: that of the record's
/// cell under `name`, and none where the record has no such column or the
/// cell is empty.
pub open spec fn grid_cell(row: RecordView, name: Seq<char>) -> Option<Seq<char>> {
    match row.cell(name) {
        Some(Some(d)) => Some(d.text()),
        _ => None,
    }
}

/// The text of the cell of `record` under `name`, where it has one.
pub fn cell_text(record: &Record, name: &String) -> (shown: Option<String>)
    ensures
        match shown {
            Some(t) => grid_cell(record@, name@) == Some(t@),
            None => grid_cell(record@, name@) is None,
        },
{
    proof {
        record.columns.lemma_paired();
    }
    match record.columns.get(name) {
        Some(value) => match value {
            Some(data) => Some(data.translate()),
            None => None,
        },
        None => None,
    }
}

/// The number of rows that decide the widths of the columns.
pub const SIZING_ROWS: usize = 50;

/// The length of a text in bytes of UTF-8.
pub open spec fn byte_len(t: Seq<char>) -> nat {
    vstd::utf8::encode_utf8(t).len()
}

/// The width of a text: its length in bytes, as a 32-bit number.
pub open spec fn width_of(t: Seq<char>) -> i32 {
    byte_len(t) as i32
}

/// The width that a cell asks of its column: the width of its text for a
/// value of the embedded database other than null, and none otherwise.
pub open spec fn cell_width(cell: Option<Option<SqlDataView>>) -> Option<i32> {
    match cell {
        Some(Some(SqlDataView::Sqlite(SqliteValueView::Null))) => None,
        Some(Some(SqlDataView::Sqlite(v))) => Some(width_of(v.text())),
        _ => None,
    }
}

/// The width of column `name` after its own name and the first `n` rows
/// have been measured: the width of the name, raised by every cell that
/// asks for more.
pub open spec fn column_width(name: Seq<char>, rows: Seq<RecordView>, n: nat) -> i32
    decreases n,
{
    if n == 0 {
        width_of(name)
    } else {
        let before = column_width(name, rows, (n - 1) as nat);
        match cell_width(rows[n - 1].cell(name)) {
            Some(asked) => if asked > before {
                asked
            } else {
                before
            },
            None => before,
        }
    }
}

/// How many rows are measured: all of them, up to fifty.
pub open spec fn sizing_rows(len: nat) -> nat {
    if len > 50 {
        50
    } else {
        len
    }
}

/// The width of `s`.
fn text_width(s: &str) -> (n: i32)
    ensures
        n == width_of(s@),
{
    let len: usize = s.as_bytes().len();
    #[verifier::truncate]
    (len as i32)
}

/// What the cell of `record` under `name` asks of its column.
fn measure_cell(record: &Record, name: &String) -> (w: Option<i32>)
    ensures
        w == cell_width(record@.cell(name@)),
{
    proof {
        record.columns.lemma_paired();
    }
    match record.columns.get(name) {
        Some(Some(SqlData::Sqlite(value))) => match value {
            SqliteValue::Null => None,
            _ => {
                let shown = value.shown();
                Some(text_width(shown.as_str()))
            },
        },
        _ => None,
    }
}

/// The width of each column, in the order of display: the
/// greatest width among the column's name and its cells in the rows that
/// are measured.
pub fn column_widths(record_set: &RecordSet) -> (widths: Vec<i32>)
    ensures
        widths@.len() == record_set.order().len(),
        forall|c: int|
            0 <= c < widths@.len() ==> #[trigger] widths@[c] == column_width(
                record_set.order()[c],
                record_set.rows(),
                sizing_rows(record_set.rows().len()),
            ),
{
    let ghost order = record_set.order();
    let ghost rows = record_set.rows();
    let sort_count: usize = if record_set.records.len() > SIZING_ROWS {
        SIZING_ROWS
    } else {
        record_set.records.len()
    };
    let mut widths: Vec<i32> = Vec::new();
    let mut c: usize = 0;
    while c < record_set.column_order.len()
        invariant
            c <= record_set.column_order@.len(),
            order == record_set.order(),
            rows == record_set.rows(),
            sort_count == sizing_rows(rows.len()),
            widths@.len() == c,
            forall|d: int|
                0 <= d < c ==> #[trigger] widths@[d] == column_width(
                    order[d],
                    rows,
                    sort_count as nat,
                ),
        decreases record_set.column_order@.len() - c,
    {
        let name = &record_set.column_order[c];
        let mut width: i32 = text_width(name.as_str());
        let mut r: usize = 0;
        while r < sort_count
            invariant
                r <= sort_count <= record_set.records@.len(),
                rows == record_set.rows(),
                name@ == order[c as int],
                width == column_width(name@, rows, r as nat),
            decreases sort_count - r,
        {
            match measure_cell(&record_set.records[r], name) {
                Some(asked) => {
                    if asked > width {
                        width = asked;
                    }
                },
                None => {},
            }
            r += 1;
        }
        widths.push(width);
        c += 1;
    }
    widths
}

/// The text of an optional string.
pub open spec fn text_of(cell: Option<String>) -> Option<Seq<char>> {
    match cell {
        Some(t) => Some(t@),
        None => None,
    }
}

/// The texts of a list of optional strings.
pub open spec fn texts_of(cells: Seq<Option<String>>) -> Seq<Option<Seq<char>>> {
    Seq::new(cells.len(), |i: int| text_of(cells[i]))
}

/// The cells of one row of the grid that shows `record_set`, in the order
/// of display.
pub fn row_cells(record_set: &RecordSet, record: &Record) -> (cells: Vec<Option<String>>)
    ensures
        texts_of(cells@) == Seq::new(
            record_set.order().len(),
            |c: int| grid_cell(record@, record_set.order()[c]),
        ),
{
    let mut cells: Vec<Option<String>> = Vec::new();
    let n = record_set.column_order.len();
    let mut c: usize = 0;
    while c < n
        invariant
            c <= n,
            n == record_set.column_order@.len(),
            cells@.len() == c,
            forall|k: int|
                0 <= k < c ==> text_of(#[trigger] cells@[k]) == grid_cell(
                    record@,
                    record_set.order()[k],
                ),
        decreases n - c,
    {
        let cell = cell_text(record, &record_set.column_order[c]);
        cells.push(cell);
        c += 1;
    }
    assert(texts_of(cells@) =~= Seq::new(
        record_set.order().len(),
        |c: int| grid_cell(record@, record_set.order()[c]),
    ));
    cells
}

impl Connection {
    /// A connection that leads nowhere yet.
    pub fn new() -> (conn: Connection)
        ensures
            conn.record_set is None,
            conn.connection is None,
            conn.result_code is None,
            conn.result_details is None,
            conn.connection_type is None,
    {
        Connection {
            record_set: None,
            connection: None,
            result_code: None,
            result_details: None,
            connection_type: None,
        }
    }

    /// The name of the database that a query goes to: where the connection
    /// leads, and `None` for a connection of no kind.
    pub fn database_name(&self) -> (name: String)
        requires
            self.connection_type is Some ==> self.connection is Some,
        ensures
            name@ == match self.connection_type {
                Some(_) => self.connection->0@,
                None => "None"@,
            },
    {
        match self.connection_type {
            Some(_) => match &self.connection {
                Some(target) => target.clone(),
                None => String::new(),
            },
            None => "None".to_owned(),
        }
    }

    /// Whether the last query passed, so that its records can be shown.
    pub fn is_ready(&self) -> (ready: bool)
        ensures
            ready == (self.result_code == Some(1i32)),
    {
        match self.result_code {
            Some(code) => code == 1,
            None => false,
        }
    }

    /// Where the last query failed (result code -1): hands out what is to
    /// be reported, the details or the text `Empty error message`, and
    /// forgets the failure. Otherwise nothing is handed out or changed.
    pub fn take_failure(&mut self) -> (report: Option<String>)
        ensures
            old(self).result_code == Some(-1i32) ==> {
                &&& report is Some
                &&& report->0@ == match old(self).result_details {
                    Some(details) => details@,
                    None => "Empty error message"@,
                }
                &&& final(self).result_code is None
                &&& final(self).result_details is None
            },
            old(self).result_code != Some(-1i32) ==> {
                &&& report is None
                &&& final(self).result_code == old(self).result_code
                &&& final(self).result_details == old(self).result_details
            },
            final(self).record_set == old(self).record_set,
            final(self).connection == old(self).connection,
            final(self).connection_type == old(self).connection_type,
    {
        let failed = match self.result_code {
            Some(code) => code == -1,
            None => false,
        };
        if failed {
            let report = match &self.result_details {
                Some(details) => details.clone(),
                None => "Empty error message".to_owned(),
            };
            self.result_code = None;
            self.result_details = None;
            Some(report)
        } else {
            None
        }
    }

    /// Points the connection at `target`, a database of kind `kind`. An ODBC
    /// connection starts with an empty record set.
    pub fn connect_to(&mut self, kind: ConnectionBase, target: String)
        ensures
            final(self).connection_type == Some(kind),
            final(self).connection == Some(target),
            final(self).result_code == old(self).result_code,
            final(self).result_details == old(self).result_details,
            kind == ConnectionBase::Sqlite ==> final(self).record_set == old(self).record_set,
            kind == ConnectionBase::Odbc ==> {
                &&& final(self).record_set is Some
                &&& final(self).record_set->0.rows().len() == 0
                &&& final(self).record_set->0.order().len() == 0
                &&& final(self).record_set->0.column_info.keys().len() == 0
            },
    {
        self.connection_type = Some(kind);
        self.connection = Some(target);
        match kind {
            ConnectionBase::Odbc => {
                self.record_set = Some(RecordSet::default());
            },
            ConnectionBase::Sqlite => {},
        }
    }
}

} // verus!
