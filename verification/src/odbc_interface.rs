use crate::sql_aux_funcs::ConnectionBase;
use crate::sql_aux_funcs::QueryType;
use crate::sql_aux_funcs::Record;
use crate::sql_aux_funcs::RecordSet;
use crate::sql_aux_funcs::RecordView;
use crate::sql_aux_funcs::Request;
use crate::sql_aux_funcs::SqlData;
use crate::sql_aux_funcs::SqlDataView;
use crate::sql_aux_funcs::SqlType;
use crate::sql_aux_funcs::name_row;
use crate::sql_aux_funcs::single_cell_record;
use vstd::prelude::*;
use vstd::string::*;

verus! {

/// The column names of the last row of `rs`, each as a row of its own under
/// the heading `COLUMN_NAME`; no row where `rs` has none.
pub fn sqlcolumns(rs: RecordSet) -> (out: RecordSet)
    ensures
        out.order() == seq!["COLUMN_NAME"@],
        out.column_info.keys() == Seq::<Seq<char>>::empty(),
        out.rows() == if rs.rows().len() > 0 {
            Seq::new(
                rs.rows().last().keys.len(),
                |i: int|
                    name_row(
                        "COLUMN_NAME"@,
                        SqlDataView::Odbc(rs.rows().last().keys[i]),
                        None,
                    ),
            )
        } else {
            Seq::<RecordView>::empty()
        },
{
    let mut new_rs = RecordSet::default();
    new_rs.column_order.push("COLUMN_NAME".to_owned());
    assert(new_rs.order() =~= seq!["COLUMN_NAME"@]);
    let count = rs.records.len();
    if count > 0 {
        let record = &rs.records[count - 1];
        let n = record.columns.len();
        let mut i: usize = 0;
        while i < n
            invariant
                i <= n,
                n == record.columns.keys().len(),
                new_rs.order() == seq!["COLUMN_NAME"@],
                new_rs.column_info.keys() == Seq::<Seq<char>>::empty(),
                new_rs.rows() == Seq::new(
                    i as nat,
                    |j: int|
                        name_row("COLUMN_NAME"@, SqlDataView::Odbc(record.columns.keys()[j]), None),
                ),
            decreases n - i,
        {
            let name = record.columns.key_at(i).clone();
            let row = single_cell_record("COLUMN_NAME", SqlData::Odbc(name), None);
            let ghost before = new_rs.rows();
            new_rs.add(row);
            assert(new_rs.rows() =~= Seq::new(
                (i + 1) as nat,
                |j: int|
                    name_row("COLUMN_NAME"@, SqlDataView::Odbc(record.columns.keys()[j]), None),
            ));
            i += 1;
        }
        assert(rs.rows().last() == record@);
    }
    new_rs
}

/// The record set cut down to its column `TABLE_NAME`.
pub fn sqltables(rs: RecordSet) -> (out: RecordSet)
    ensures
        out.rows() == Seq::new(rs.rows().len(), |i: int| rs.rows()[i].only("TABLE_NAME"@)),
        out.order() == seq!["TABLE_NAME"@],
        match rs.column_info.lookup("TABLE_NAME"@) {
            Some(kind) => out.column_info.keys() == seq!["TABLE_NAME"@]
                && out.column_info.values() == seq![kind],
            None => out.column_info.keys() == Seq::<Seq<char>>::empty()
                && out.column_info.values() == Seq::<SqlType>::empty(),
        },
{
    let mut rs = rs;
    rs.keep("TABLE_NAME".to_owned());
    rs
}

/// The cell that an ODBC driver's answer fills: the text it gave, or the
/// text `Null` where it gave none.
pub open spec fn odbc_cell(answer: Option<String>) -> SqlDataView {
    match answer {
        Some(t) => SqlDataView::Odbc(t@),
        None => SqlDataView::Odbc("Null"@),
    }
}

/// The row after the first `n` answers have been put under the first `n`
/// columns of `order`.
pub open spec fn filled(
    row: RecordView,
    order: Seq<Seq<char>>,
    answers: Seq<Option<String>>,
    n: nat,
) -> RecordView
    decreases n,
{
    if n == 0 {
        row
    } else {
        filled(row, order, answers, (n - 1) as nat).with(
            order[n - 1],
            Some(odbc_cell(answers[n - 1])),
        )
    }
}

/// The row of an ODBC result: an empty cell under every known column, then
/// each answer under the column at its place in the order of display.
pub fn odbc_record(record_set: &RecordSet, answers: &Vec<Option<String>>) -> (rec: Record)
    requires
        answers@.len() <= record_set.order().len(),
    ensures
        rec@ == filled(
            (RecordView {
                keys: Seq::empty(),
                cells: Seq::empty(),
                data_type: Some(ConnectionBase::Odbc),
            }).with_blanks(record_set.column_info.keys()),
            record_set.order(),
            answers@,
            answers@.len(),
        ),
{
    let mut rec = Record::new();
    rec.data_type = Some(ConnectionBase::Odbc);
    assert(rec@ == (RecordView {
        keys: Seq::empty(),
        cells: Seq::empty(),
        data_type: Some(ConnectionBase::Odbc),
    })) by {
        assert(rec@.keys =~= Seq::<Seq<char>>::empty());
        assert(rec@.cells =~= Seq::<Option<SqlDataView>>::empty());
    }
    rec.construct(&record_set.column_info);
    let ghost start = rec@;
    let ghost order = record_set.order();
    let n = answers.len();
    let mut i: usize = 0;
    while i < n
        invariant
            i <= n,
            n == answers@.len(),
            n <= record_set.column_order@.len(),
            order == record_set.order(),
            rec@ == filled(start, order, answers@, i as nat),
        decreases n - i,
    {
        let name = record_set.column_order[i].clone();
        let cell = match &answers[i] {
            Some(val) => SqlData::Odbc(val.clone()),
            None => SqlData::Odbc("Null".to_owned()),
        };
        rec.add(name, cell);
        i += 1;
    }
    rec
}

/// What to do with an ODBC source for a request.
pub enum OdbcPlan {
    /// Run the query and collect its rows.
    Rows(String),
    /// Run the query, then list the column names of its last row.
    ColumnNames(String),
    /// Ask the catalogue for the tables of schema `dba`, then keep their
    /// names.
    Tables,
    /// The request is not served.
    Refused,
}

/// The plan by which an ODBC source serves `request`: the user's query as it
/// stands, the catalogue's tables, a query for one row of the table asked
/// for, and a refusal for a schema.
pub fn plan_odbc(request: QueryType) -> (plan: OdbcPlan)
    ensures
        match request {
            QueryType::UserDefined(s) => plan matches OdbcPlan::Rows(q) && q@ == s@,
            QueryType::SqlFunction(Request::Tables(_)) => plan is Tables,
            QueryType::SqlFunction(Request::Columns(c)) => plan matches OdbcPlan::ColumnNames(q)
                && q@ == "select top 1 * from "@ + c@,
            QueryType::SqlFunction(Request::Schema(_)) => plan is Refused,
        },
{
    match request {
        QueryType::SqlFunction(request_type) => match request_type {
            Request::Tables(_) => OdbcPlan::Tables,
            Request::Columns(c) => {
                let mut q = "select top 1 * from ".to_owned();
                q.append(c.as_str());
                OdbcPlan::ColumnNames(q)
            },
            Request::Schema(_) => OdbcPlan::Refused,
        },
        QueryType::UserDefined(s) => OdbcPlan::Rows(s),
    }
}

} // verus!
