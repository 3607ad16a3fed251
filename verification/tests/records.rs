use workbook::dictionary::Dictionary;
use workbook::learning_fltk::column_widths;
use workbook::odbc_interface::OdbcPlan;
use workbook::odbc_interface::odbc_record;
use workbook::odbc_interface::plan_odbc;
use workbook::odbc_interface::sqlcolumns;
use workbook::odbc_interface::sqltables;
use workbook::sql_aux_funcs::Connection;
use workbook::sql_aux_funcs::ConnectionBase;
use workbook::sql_aux_funcs::QueryType;
use workbook::sql_aux_funcs::Record;
use workbook::sql_aux_funcs::RecordSet;
use workbook::sql_aux_funcs::Request;
use workbook::sql_aux_funcs::SqlData;
use workbook::sql_aux_funcs::SqlType;
use workbook::sql_aux_funcs::SqliteType;
use workbook::sql_aux_funcs::SqliteValue;
use workbook::sql_aux_funcs::Translate;
use workbook::sqlite3_interface::SqlitePlan;
use workbook::sqlite3_interface::column_listing;
use workbook::sqlite3_interface::plan_sqlite;
use workbook::sqlite3_interface::results_text;

fn text(s: &str) -> SqlData {
    SqlData::Sqlite(SqliteValue::String(String::from(s)))
}

fn number(n: i64) -> SqlData {
    SqlData::Sqlite(SqliteValue::Integer(n))
}

fn user(name: &str, age: i64) -> Record {
    let mut rec = Record::new();
    rec.data_type = Some(ConnectionBase::Sqlite);
    rec.add(String::from("name"), text(name));
    rec.add(String::from("age"), number(age));
    rec
}

fn users() -> RecordSet {
    let mut rs = RecordSet::default();
    rs.add_column(String::from("name"), SqlType::Sqlite(SqliteType::String));
    rs.add_column(String::from("age"), SqlType::Sqlite(SqliteType::Integer));
    rs.add(user("Alice", 42));
    rs.add(user("Bob", 69));
    rs.add(user("Mark", 50));
    rs
}

fn numbered(count: i64) -> RecordSet {
    let mut rs = RecordSet::default();
    rs.add_column(String::from("n"), SqlType::Sqlite(SqliteType::Integer));
    let mut i = 0;
    while i < count {
        let mut rec = Record::new();
        rec.add(String::from("n"), number(i));
        rs.add(rec);
        i += 1;
    }
    rs
}

fn shown(rec: &Record, column: &str) -> String {
    match rec.columns.get(&String::from(column)) {
        Some(Some(data)) => data.translate(),
        Some(None) => String::from("<empty>"),
        None => String::from("<missing>"),
    }
}

#[test]
fn translate_flattens_each_kind_of_value() {
    assert_eq!(number(42).translate(), "42");
    assert_eq!(number(-7).translate(), "-7");
    assert_eq!(number(0).translate(), "0");
    assert_eq!(number(i64::MIN).translate(), "-9223372036854775808");
    assert_eq!(text("Denmark").translate(), "Denmark");
    assert_eq!(SqlData::Sqlite(SqliteValue::Float(String::from("2.5"))).translate(), "2.5");
    assert_eq!(SqlData::Sqlite(SqliteValue::Null).translate(), "Null");
    assert_eq!(SqlData::Sqlite(SqliteValue::Binary(vec![1, 20, 255, 0])).translate(), "1202550");
    assert_eq!(SqlData::Sqlite(SqliteValue::Binary(vec![])).translate(), "");
    assert_eq!(SqlData::Odbc(String::from("abc")).translate(), "abc");
    assert_eq!(String::from("plain").translate(), "plain");
}

#[test]
fn a_clone_shows_the_same() {
    let first = user("Alice", 42);
    let copy = first.clone();
    assert_eq!(copy.columns.len(), 2);
    assert_eq!(shown(&copy, "name"), "Alice");
    assert_eq!(shown(&copy, "age"), "42");
    assert!(copy.data_type == Some(ConnectionBase::Sqlite));
    let blob = SqlData::Sqlite(SqliteValue::Binary(vec![7, 8]));
    assert_eq!(blob.clone().translate(), "78");
}

#[test]
fn add_replaces_a_cell_in_place() {
    let mut rec = user("Alice", 42);
    rec.add(String::from("name"), text("Alicia"));
    assert_eq!(rec.columns.len(), 2);
    assert_eq!(rec.columns.key_at(0), "name");
    assert_eq!(shown(&rec, "name"), "Alicia");
    assert_eq!(shown(&rec, "age"), "42");
}

#[test]
fn construct_blanks_every_known_column() {
    let rs = users();
    let mut rec = Record::new();
    rec.add(String::from("age"), number(5));
    rec.add(String::from("other"), number(6));
    rec.construct(&rs.column_info);
    assert_eq!(rec.columns.len(), 3);
    assert_eq!(shown(&rec, "age"), "<empty>");
    assert_eq!(shown(&rec, "name"), "<empty>");
    assert_eq!(shown(&rec, "other"), "6");
    assert_eq!(shown(&rec, "nothing"), "<missing>");
}

#[test]
fn counts_of_records_and_columns() {
    let rs = users();
    assert_eq!(rs.record_count(), 3);
    assert_eq!(rs.column_count(), 2);
    assert_eq!(RecordSet::default().record_count(), 0);
}

#[test]
fn the_first_page_holds_the_first_fifty_records() {
    let rs = numbered(120);
    let page = rs.fetch_page_of_records(1);
    assert_eq!(page.len(), 50);
    assert_eq!(shown(&page[0], "n"), "0");
    assert_eq!(shown(&page[49], "n"), "49");
}

#[test]
fn a_middle_page_holds_the_fifty_records_before_its_end() {
    let rs = numbered(120);
    let page = rs.fetch_page_of_records(2);
    assert_eq!(page.len(), 50);
    assert_eq!(shown(&page[0], "n"), "50");
    assert_eq!(shown(&page[49], "n"), "99");
}

#[test]
fn a_page_at_or_past_the_end_holds_the_last_fifty_records() {
    let rs = numbered(120);
    let page = rs.fetch_page_of_records(3);
    assert_eq!(page.len(), 50);
    assert_eq!(shown(&page[0], "n"), "70");
    assert_eq!(shown(&page[49], "n"), "119");
    let far = rs.fetch_page_of_records(1000);
    assert_eq!(far.len(), 50);
    assert_eq!(shown(&far[0], "n"), "70");
    let farthest = rs.fetch_page_of_records(usize::MAX);
    assert_eq!(farthest.len(), 50);
    assert_eq!(shown(&farthest[49], "n"), "119");
}

#[test]
fn page_zero_is_empty() {
    assert_eq!(numbered(120).fetch_page_of_records(0).len(), 0);
    assert_eq!(numbered(0).fetch_page_of_records(0).len(), 0);
}

#[test]
fn a_short_record_set_is_one_page() {
    let rs = numbered(7);
    let page = rs.fetch_page_of_records(1);
    assert_eq!(page.len(), 7);
    assert_eq!(shown(&page[6], "n"), "6");
    assert_eq!(rs.fetch_page_of_records(2).len(), 7);
    assert_eq!(numbered(50).fetch_page_of_records(1).len(), 50);
    assert_eq!(numbered(51).fetch_page_of_records(1).len(), 50);
    assert_eq!(numbered(51).fetch_page_of_records(2).len(), 50);
    assert_eq!(shown(&numbered(51).fetch_page_of_records(2)[0], "n"), "1");
    assert_eq!(numbered(0).fetch_page_of_records(1).len(), 0);
}

#[test]
fn keep_cuts_everything_down_to_one_column() {
    let mut rs = users();
    rs.keep(String::from("age"));
    assert_eq!(rs.column_order, vec![String::from("age")]);
    assert_eq!(rs.column_info.len(), 1);
    assert_eq!(rs.column_info.key_at(0), "age");
    assert!(*rs.column_info.value_at(0) == SqlType::Sqlite(SqliteType::Integer));
    assert_eq!(rs.record_count(), 3);
    assert_eq!(rs.column_count(), 1);
    assert_eq!(shown(&rs.records[1], "age"), "69");
    assert_eq!(shown(&rs.records[1], "name"), "<missing>");
}

#[test]
fn keep_of_an_unknown_column_leaves_no_cell() {
    let mut rs = users();
    rs.keep(String::from("height"));
    assert_eq!(rs.column_order, vec![String::from("height")]);
    assert_eq!(rs.column_info.len(), 0);
    assert_eq!(rs.record_count(), 3);
    assert_eq!(rs.column_count(), 0);
}

#[test]
fn the_listing_has_a_header_and_a_line_for_each_record() {
    assert_eq!(results_text(&users()), "name, age\nAlice, 42\nBob, 69\nMark, 50\n");
}

#[test]
fn the_listing_of_nothing_is_empty() {
    assert_eq!(results_text(&RecordSet::default()), "");
    let mut rs = RecordSet::default();
    rs.add(user("Alice", 42));
    assert_eq!(results_text(&rs), "");
}

#[test]
fn the_listing_leaves_missing_and_empty_cells_blank() {
    let mut rs = users();
    let mut rec = Record::new();
    rec.add(String::from("age"), number(5));
    rs.add(rec);
    let mut blank = Record::new();
    blank.construct(&rs.column_info);
    rs.add(blank);
    assert_eq!(results_text(&rs), "name, age\nAlice, 42\nBob, 69\nMark, 50\n, 5\n, \n");
}

#[test]
fn a_column_named_as_the_last_one_ends_its_line() {
    let mut rs = RecordSet::default();
    rs.add_column(String::from("a"), SqlType::Odbc(4));
    rs.add_column(String::from("b"), SqlType::Odbc(4));
    rs.add_column(String::from("a"), SqlType::Odbc(12));
    let mut rec = Record::new();
    rec.add(String::from("a"), SqlData::Odbc(String::from("1")));
    rec.add(String::from("b"), SqlData::Odbc(String::from("2")));
    rs.add(rec);
    assert_eq!(results_text(&rs), "a\nb, a\n1\n2, 1\n");
    assert_eq!(rs.column_info.len(), 2);
    assert!(*rs.column_info.get(&String::from("a")).unwrap() == SqlType::Odbc(12));
}

#[test]
fn widths_follow_the_longest_text_of_each_column() {
    assert_eq!(column_widths(&users()), vec![5, 3]);
    let mut rs = users();
    rs.add(user("Bartholomew", 1234567));
    assert_eq!(column_widths(&rs), vec![11, 7]);
}

#[test]
fn widths_count_bytes_and_pass_over_nulls_and_odbc_cells() {
    let mut rs = RecordSet::default();
    rs.add_column(String::from("a"), SqlType::Sqlite(SqliteType::String));
    rs.add_column(String::from("b"), SqlType::Sqlite(SqliteType::Null));
    rs.add_column(String::from("c"), SqlType::Odbc(12));
    rs.add_column(String::from("d"), SqlType::Sqlite(SqliteType::Binary));
    let mut rec = Record::new();
    rec.add(String::from("a"), text("héé"));
    rec.add(String::from("b"), SqlData::Sqlite(SqliteValue::Null));
    rec.add(String::from("c"), SqlData::Odbc(String::from("a long text")));
    rec.add(String::from("d"), SqlData::Sqlite(SqliteValue::Binary(vec![255, 255])));
    rs.add(rec);
    assert_eq!(column_widths(&rs), vec![5, 1, 1, 6]);
}

#[test]
fn widths_measure_the_first_fifty_records_only() {
    let mut rs = numbered(50);
    assert_eq!(column_widths(&rs), vec![2]);
    let mut rec = Record::new();
    rec.add(String::from("n"), number(1000000));
    rs.add(rec);
    assert_eq!(column_widths(&rs), vec![2]);
    let mut early = numbered(49);
    let mut rec = Record::new();
    rec.add(String::from("n"), number(1000000));
    early.add(rec);
    assert_eq!(column_widths(&early), vec![7]);
    assert_eq!(column_widths(&RecordSet::default()), Vec::<i32>::new());
}

#[test]
fn sqlcolumns_lists_the_columns_of_the_last_record() {
    let out = sqlcolumns(users());
    assert_eq!(out.column_order, vec![String::from("COLUMN_NAME")]);
    assert_eq!(out.column_info.len(), 0);
    assert_eq!(out.record_count(), 2);
    assert_eq!(shown(&out.records[0], "COLUMN_NAME"), "name");
    assert_eq!(shown(&out.records[1], "COLUMN_NAME"), "age");
    assert!(out.records[0].data_type.is_none());
    assert_eq!(results_text(&out), "COLUMN_NAME\nname\nage\n");
}

#[test]
fn sqlcolumns_of_no_record_has_no_row() {
    let out = sqlcolumns(RecordSet::default());
    assert_eq!(out.column_order, vec![String::from("COLUMN_NAME")]);
    assert_eq!(out.record_count(), 0);
}

#[test]
fn sqltables_keeps_the_table_names() {
    let mut rs = RecordSet::default();
    rs.add_column(String::from("TABLE_SCHEM"), SqlType::Odbc(12));
    rs.add_column(String::from("TABLE_NAME"), SqlType::Odbc(12));
    let mut rec = Record::new();
    rec.add(String::from("TABLE_SCHEM"), SqlData::Odbc(String::from("dba")));
    rec.add(String::from("TABLE_NAME"), SqlData::Odbc(String::from("users")));
    rs.add(rec);
    let out = sqltables(rs);
    assert_eq!(results_text(&out), "TABLE_NAME\nusers\n");
    assert_eq!(out.column_info.len(), 1);
}

#[test]
fn column_listing_has_a_row_for_each_name() {
    let out = column_listing(&vec![String::from("name"), String::from("age")]);
    assert_eq!(results_text(&out), "Column\nname\nage\n");
    assert!(*out.column_info.get(&String::from("Column")).unwrap()
        == SqlType::Sqlite(SqliteType::String));
    assert!(out.records[0].data_type == Some(ConnectionBase::Sqlite));
    assert_eq!(column_listing(&Vec::new()).record_count(), 0);
}

#[test]
fn an_odbc_record_fills_the_columns_in_order() {
    let mut rs = RecordSet::default();
    rs.add_column(String::from("id"), SqlType::Odbc(4));
    rs.add_column(String::from("city"), SqlType::Odbc(12));
    let rec = odbc_record(&rs, &vec![Some(String::from("7")), None]);
    assert_eq!(shown(&rec, "id"), "7");
    assert_eq!(shown(&rec, "city"), "Null");
    assert!(rec.data_type == Some(ConnectionBase::Odbc));
    let partial = odbc_record(&rs, &vec![Some(String::from("8"))]);
    assert_eq!(shown(&partial, "id"), "8");
    assert_eq!(shown(&partial, "city"), "<empty>");
}

#[test]
fn assemble_rs_marks_the_query_as_passed() {
    let mut conn = Connection::new();
    conn.assemble_rs(users());
    assert_eq!(conn.result_code, Some(1));
    assert_eq!(conn.record_set.unwrap().record_count(), 3);
    assert!(conn.connection.is_none());
}

#[test]
fn plans_for_the_embedded_database() {
    match plan_sqlite(QueryType::UserDefined(String::from(" select 1 "))) {
        SqlitePlan::Rows(q) => assert_eq!(q, " select 1 "),
        _ => panic!("expected rows"),
    }
    match plan_sqlite(QueryType::SqlFunction(Request::Tables(2))) {
        SqlitePlan::Rows(q) => assert_eq!(
            q,
            "select name from sqlite_schema where type = 'table' and name not like 'sqlite_%';"
        ),
        _ => panic!("expected rows"),
    }
    match plan_sqlite(QueryType::SqlFunction(Request::Columns(String::from("users")))) {
        SqlitePlan::ColumnNames(q) => assert_eq!(q, "select * from users"),
        _ => panic!("expected column names"),
    }
    assert!(matches!(
        plan_sqlite(QueryType::SqlFunction(Request::Schema(0))),
        SqlitePlan::Nothing
    ));
}

#[test]
fn plans_for_an_odbc_source() {
    match plan_odbc(QueryType::UserDefined(String::from("select 1"))) {
        OdbcPlan::Rows(q) => assert_eq!(q, "select 1"),
        _ => panic!("expected rows"),
    }
    match plan_odbc(QueryType::SqlFunction(Request::Columns(String::from("users")))) {
        OdbcPlan::ColumnNames(q) => assert_eq!(q, "select top 1 * from users"),
        _ => panic!("expected column names"),
    }
    assert!(matches!(plan_odbc(QueryType::SqlFunction(Request::Tables(2))), OdbcPlan::Tables));
    assert!(matches!(plan_odbc(QueryType::SqlFunction(Request::Schema(1))), OdbcPlan::Refused));
}

#[test]
fn a_dictionary_finds_a_key_at_its_first_place() {
    let mut d: Dictionary<i32> = Dictionary::new();
    assert_eq!(d.len(), 0);
    d.insert(String::from("a"), 1);
    d.insert(String::from("b"), 2);
    d.insert(String::from("a"), 3);
    assert_eq!(d.len(), 2);
    assert_eq!(d.find(&String::from("a")), Some(0));
    assert_eq!(d.find(&String::from("b")), Some(1));
    assert_eq!(d.find(&String::from("c")), None);
    assert_eq!(d.get(&String::from("a")), Some(&3));
    assert_eq!(d.get(&String::from("c")), None);
    assert_eq!(d.key_at(1), "b");
    assert_eq!(*d.value_at(1), 2);
    d.retain_key(&String::from("b"));
    assert_eq!(d.len(), 1);
    assert_eq!(d.get(&String::from("b")), Some(&2));
    d.retain_key(&String::from("zz"));
    assert_eq!(d.len(), 0);
    let e = Dictionary::from_entries(vec![(String::from("k"), 1), (String::from("k"), 2)]);
    assert_eq!(e.len(), 2);
    assert_eq!(e.get(&String::from("k")), Some(&1));
}
