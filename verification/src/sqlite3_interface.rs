use crate::dictionary::position_in;
use crate::sql_aux_funcs::ConnectionBase;
use crate::sql_aux_funcs::QueryType;
use crate::sql_aux_funcs::Record;
use crate::sql_aux_funcs::RecordSet;
use crate::sql_aux_funcs::RecordView;
use crate::sql_aux_funcs::Request;
use crate::sql_aux_funcs::SqlData;
use crate::sql_aux_funcs::SqlDataView;
use crate::sql_aux_funcs::SqlType;
use crate::sql_aux_funcs::SqliteType;
use crate::sql_aux_funcs::SqliteValue;
use crate::sql_aux_funcs::SqliteValueView;
use crate::sql_aux_funcs::Translate;
use crate::sql_aux_funcs::name_row;
use crate::sql_aux_funcs::names_view;
use crate::sql_aux_funcs::single_cell_record;
use vstd::prelude::*;
use vstd::string::*;

verus! {

/// What follows column `j` on a line: a line feed after a column named as
/// the last one is, a comma and a space after any other.
pub open spec fn separator(order: Seq<Seq<char>>, j: int) -> Seq<char> {
    if order[j] == order.last() {
        seq!['\n']
    } else {
        seq![',', ' ']
    }
}

/// The first `n` column names of the header line, each with its separator.
pub open spec fn header_text(order: Seq<Seq<char>>, n: nat) -> Seq<char>
    decreases n,
{
    if n == 0 {
        Seq::<char>::empty()
    } else {
        header_text(order, (n - 1) as nat) + order[n - 1] + separator(order, n - 1)
    }
}

/// The first `n` cells of the line of `row`, each with its separator.
pub open spec fn line_text(row: RecordView, order: Seq<Seq<char>>, n: nat) -> Seq<char>
    decreases n,
{
    if n == 0 {
        Seq::<char>::empty()
    } else {
        line_text(row, order, (n - 1) as nat) + row.shown(order[n - 1]) + separator(order, n - 1)
    }
}

/// The lines of the first `m` rows.
pub open spec fn body_text(rows: Seq<RecordView>, order: Seq<Seq<char>>, m: nat) -> Seq<char>
    decreases m,
{
    if m == 0 {
        Seq::<char>::empty()
    } else {
        body_text(rows, order, (m - 1) as nat) + line_text(rows[m - 1], order, order.len())
    }
}

/// The listing of a record set: the header line, then one line for each row.
pub open spec fn listing(order: Seq<Seq<char>>, rows: Seq<RecordView>) -> Seq<char> {
    header_text(order, order.len()) + body_text(rows, order, rows.len())
}

/// Appends to `line` what follows column `j`.
fn append_separator(line: &mut String, column_order: &Vec<String>, j: usize)
    requires
        j < column_order@.len(),
    ensures
        final(line)@ == old(line)@ + separator(names_view(column_order@), j as int),
{
    proof {
        reveal_strlit("\n");
        reveal_strlit(", ");
    }
    let last = column_order.len() - 1;
    if column_order[j] == column_order[last] {
        line.append("\n");
        assert(line@ =~= old(line)@ + seq!['\n']);
    } else {
        line.append(", ");
        assert(line@ =~= old(line)@ + seq![',', ' ']);
    }
}

/// The text shown for the cell of `record` under `name`, appended to `line`.
fn append_cell(line: &mut String, record: &Record, name: &String)
    ensures
        final(line)@ == old(line)@ + record@.shown(name@),
{
    proof {
        record.columns.lemma_paired();
    }
    match record.columns.get(name) {
        Some(value) => match value {
            Some(data) => {
                let shown = data.translate();
                line.append(shown.as_str());
            },
            None => {
                assert(line@ =~= old(line)@ + record@.shown(name@));
            },
        },
        None => {
            assert(line@ =~= old(line)@ + record@.shown(name@));
        },
    }
}

/// The listing of a record set as one text: the column names on the first
/// line, then the cells of each row on a line of its own, in the order of
/// display.
pub fn results_text(record_set: &RecordSet) -> (text: String)
    ensures
        text@ == listing(record_set.order(), record_set.rows()),
{
    let ghost order = record_set.order();
    let ghost rows = record_set.rows();
    let width = record_set.column_order.len();
    let mut text: String = String::new();
    let mut j: usize = 0;
    while j < width
        invariant
            j <= width,
            width == record_set.column_order@.len(),
            order == record_set.order(),
            text@ == header_text(order, j as nat),
        decreases width - j,
    {
        text.append(record_set.column_order[j].as_str());
        append_separator(&mut text, &record_set.column_order, j);
        j += 1;
    }
    let height = record_set.records.len();
    let mut k: usize = 0;
    assert(text@ =~= header_text(order, order.len()) + body_text(rows, order, 0));
    while k < height
        invariant
            k <= height,
            height == record_set.records@.len(),
            width == record_set.column_order@.len(),
            order == record_set.order(),
            rows == record_set.rows(),
            text@ == header_text(order, order.len()) + body_text(rows, order, k as nat),
        decreases height - k,
    {
        let ghost before = text@;
        let record = &record_set.records[k];
        let mut c: usize = 0;
        assert(text@ =~= before + line_text(rows[k as int], order, 0));
        while c < width
            invariant
                c <= width,
                k < height,
                height == record_set.records@.len(),
                width == record_set.column_order@.len(),
                order == record_set.order(),
                rows == record_set.rows(),
                *record == record_set.records@[k as int],
                text@ == before + line_text(rows[k as int], order, c as nat),
            decreases width - c,
        {
            let ghost so_far = text@;
            append_cell(&mut text, record, &record_set.column_order[c]);
            append_separator(&mut text, &record_set.column_order, c);
            assert(text@ =~= before + line_text(rows[k as int], order, (c + 1) as nat));
            c += 1;
        }
        assert(text@ =~= header_text(order, order.len()) + body_text(rows, order, (k + 1) as nat));
        k += 1;
    }
    text
}

/// What to do with the embedded database for a request.
pub enum SqlitePlan {
    /// Run the query and collect its rows.
    Rows(String),
    /// Prepare the query and list the names of its columns.
    ColumnNames(String),
    /// Ask nothing: the answer is an empty record set.
    Nothing,
}

/// The query that lists the user's tables of the embedded database.
pub open spec fn tables_query() -> Seq<char> {
    "select name from sqlite_schema where type = 'table' and name not like 'sqlite_%';"@
}

/// The plan by which the embedded database serves `request`: the user's
/// query as it stands, the tables query, a query over every column of the
/// table asked for, or nothing for a schema.
pub fn plan_sqlite(request: QueryType) -> (plan: SqlitePlan)
    ensures
        match request {
            QueryType::UserDefined(s) => plan matches SqlitePlan::Rows(q) && q@ == s@,
            QueryType::SqlFunction(Request::Tables(_)) => plan matches SqlitePlan::Rows(q) && q@
                == tables_query(),
            QueryType::SqlFunction(Request::Columns(c)) => plan matches SqlitePlan::ColumnNames(q)
                && q@ == "select * from "@ + c@,
            QueryType::SqlFunction(Request::Schema(_)) => plan is Nothing,
        },
{
    match request {
        QueryType::SqlFunction(request_type) => match request_type {
            Request::Tables(_) => SqlitePlan::Rows(
                "select name from sqlite_schema where type = 'table' and name not like 'sqlite_%';".to_owned(),
            ),
            Request::Columns(c) => {
                let mut q = "select * from ".to_owned();
                q.append(c.as_str());
                SqlitePlan::ColumnNames(q)
            },
            Request::Schema(_) => SqlitePlan::Nothing,
        },
        QueryType::UserDefined(s) => SqlitePlan::Rows(s),
    }
}

/// The record set that lists the column names of a table of the embedded
/// database: one text column headed `Column`, and a row for each name.
pub fn column_listing(column_names: &Vec<String>) -> (out: RecordSet)
    ensures
        out.order() == seq!["Column"@],
        out.column_info.keys() == seq!["Column"@],
        out.column_info.values() == seq![SqlType::Sqlite(SqliteType::String)],
        out.rows() == Seq::new(
            column_names@.len(),
            |i: int|
                name_row(
                    "Column"@,
                    SqlDataView::Sqlite(SqliteValueView::String(column_names@[i]@)),
                    Some(ConnectionBase::Sqlite),
                ),
        ),
{
    let mut record_set = RecordSet::default();
    proof {
        assert(position_in(Seq::<Seq<char>>::empty(), "Column"@) is None);
    }
    record_set.add_column("Column".to_owned(), SqlType::Sqlite(SqliteType::String));
    assert(record_set.order() =~= seq!["Column"@]);
    assert(record_set.column_info.keys() =~= seq!["Column"@]);
    assert(record_set.column_info.values() =~= seq![SqlType::Sqlite(SqliteType::String)]);
    let n = column_names.len();
    let mut i: usize = 0;
    assert(record_set.rows() =~= Seq::new(
        0,
        |j: int|
            name_row(
                "Column"@,
                SqlDataView::Sqlite(SqliteValueView::String(column_names@[j]@)),
                Some(ConnectionBase::Sqlite),
            ),
    ));
    while i < n
        invariant
            i <= n,
            n == column_names@.len(),
            record_set.order() == seq!["Column"@],
            record_set.column_info.keys() == seq!["Column"@],
            record_set.column_info.values() == seq![SqlType::Sqlite(SqliteType::String)],
            record_set.rows() == Seq::new(
                i as nat,
                |j: int|
                    name_row(
                        "Column"@,
                        SqlDataView::Sqlite(SqliteValueView::String(column_names@[j]@)),
                        Some(ConnectionBase::Sqlite),
                    ),
            ),
        decreases n - i,
    {
        let cell = SqlData::Sqlite(SqliteValue::String(column_names[i].clone()));
        let row = single_cell_record("Column", cell, Some(ConnectionBase::Sqlite));
        record_set.add(row);
        assert(record_set.rows() =~= Seq::new(
            (i + 1) as nat,
            |j: int|
                name_row(
                    "Column"@,
                    SqlDataView::Sqlite(SqliteValueView::String(column_names@[j]@)),
                    Some(ConnectionBase::Sqlite),
                ),
        ));
        i += 1;
    }
    record_set
}

} // verus!
