use mask::err::DBError;
use mask::executor::{execute, execute_fetched, execute_one, RowCollector};
use mask::pipeline::{prepare_query, Scope, ScopeInput};
use mask::resolve::PartialDate;

/// A stand-in for one backing-store row of a daily-cases table.
#[derive(Clone, Debug, PartialEq)]
struct MockRow {
    jour: String,
    incid_hosp: Option<i64>,
}

/// The typed value a row decodes to.
#[derive(Clone, Debug, PartialEq)]
struct CaseRecord {
    date: String,
    new_entry_hospital: i64,
}

fn decode_case(row: &MockRow) -> Option<CaseRecord> {
    Some(CaseRecord { date: row.jour.clone(), new_entry_hospital: row.incid_hosp? })
}

#[test]
fn execute_decodes_all_rows_in_order() {
    let rows = vec![
        MockRow { jour: "2021-12-12".to_string(), incid_hosp: Some(14) },
        MockRow { jour: "2021-12-12".to_string(), incid_hosp: Some(3) },
    ];
    let values = execute(&rows, decode_case).unwrap();
    assert_eq!(values.len(), 2);
    assert_eq!(values[0].new_entry_hospital, 14);
    assert_eq!(values[1].new_entry_hospital, 3);
}

#[test]
fn execute_fails_whole_operation_on_any_decode_failure() {
    // The second of three rows does not decode; earlier successful rows
    // must not leak out as a partial result.
    let rows = vec![
        MockRow { jour: "2021-12-10".to_string(), incid_hosp: Some(7) },
        MockRow { jour: "2021-12-11".to_string(), incid_hosp: None },
        MockRow { jour: "2021-12-12".to_string(), incid_hosp: Some(9) },
    ];
    let res = execute(&rows, decode_case);
    assert!(matches!(res, Err(DBError::Exec)));
}

#[test]
fn execute_on_no_rows_returns_an_empty_list() {
    let rows: Vec<MockRow> = Vec::new();
    let values = execute(&rows, decode_case).unwrap();
    assert!(values.is_empty());
}

#[test]
fn cursor_failure_is_distinct_from_decode_failure() {
    let fetched: Result<Vec<MockRow>, String> = Err("connection reset".to_string());
    let res = execute_fetched(fetched, decode_case);
    match res {
        Err(DBError::Connection(detail)) => assert_eq!(detail, "connection reset"),
        other => panic!("expected a connection error, got {:?}", other.is_ok()),
    }
}

#[test]
fn execute_one_reports_a_missing_row_as_no_data() {
    let fetched: Result<Option<MockRow>, String> = Ok(None);
    let res = execute_one(fetched, decode_case);
    assert!(matches!(res, Ok(None)));
}

#[test]
fn execute_one_decodes_a_present_row() {
    let row = MockRow { jour: "2021-12-16".to_string(), incid_hosp: Some(5) };
    let res = execute_one(Ok(Some(row)), decode_case);
    let value = res.unwrap().unwrap();
    assert_eq!(value.date, "2021-12-16");
    assert_eq!(value.new_entry_hospital, 5);
}

#[test]
fn execute_one_fails_on_a_row_that_does_not_decode() {
    let row = MockRow { jour: "2021-12-16".to_string(), incid_hosp: None };
    let res = execute_one(Ok(Some(row)), decode_case);
    assert!(matches!(res, Err(DBError::Exec)));
}

#[test]
fn row_collector_collects_streamed_rows_in_order() {
    let mut collector = RowCollector::new();
    let first = MockRow { jour: "2021-12-12".to_string(), incid_hosp: Some(4) };
    let second = MockRow { jour: "2021-12-12".to_string(), incid_hosp: Some(6) };
    assert!(collector.push_row(&first, decode_case));
    assert!(collector.push_row(&second, decode_case));
    let values = collector.finish().unwrap();
    assert_eq!(values.len(), 2);
    assert_eq!(values[0].new_entry_hospital, 4);
    assert_eq!(values[1].new_entry_hospital, 6);
}

#[test]
fn row_collector_stops_at_the_first_bad_row() {
    let mut collector = RowCollector::new();
    let good = MockRow { jour: "2021-12-10".to_string(), incid_hosp: Some(1) };
    let bad = MockRow { jour: "2021-12-11".to_string(), incid_hosp: None };
    assert!(collector.push_row(&good, decode_case));
    // The caller is told to abandon the cursor here.
    assert!(!collector.push_row(&bad, decode_case));
    assert!(matches!(collector.finish(), Err(DBError::Exec)));
}

#[test]
fn row_collector_keeps_a_cursor_failure_with_its_detail() {
    let mut collector: RowCollector<CaseRecord> = RowCollector::new();
    let good = MockRow { jour: "2021-12-10".to_string(), incid_hosp: Some(1) };
    assert!(collector.push_row(&good, decode_case));
    collector.cursor_failed("broken pipe".to_string());
    match collector.finish() {
        Err(DBError::Connection(detail)) => assert_eq!(detail, "broken pipe"),
        other => panic!("expected a connection error, got {:?}", other.is_ok()),
    }
}

#[test]
fn department_request_end_to_end_with_mocked_rows() {
    // Department "77", full day 2021-12-12: the plan carries the day
    // pattern, and a mocked fetch of two rows for that pattern yields a
    // two-element typed list in the original row order.
    let date = PartialDate { year: 2021, month: 12, day: Some(12) };
    let plan = prepare_query(&date, ScopeInput::Department(Some("77".to_string()))).unwrap();
    assert_eq!(plan.pattern, "2021-12-12%");
    match &plan.scope {
        Scope::Department(code) => assert_eq!(code, "77"),
        _ => panic!("expected a department scope"),
    }

    let rows = vec![
        MockRow { jour: "2021-12-12".to_string(), incid_hosp: Some(21) },
        MockRow { jour: "2021-12-12".to_string(), incid_hosp: Some(8) },
    ];
    let values = execute_fetched(Ok(rows), decode_case).unwrap();
    assert_eq!(
        values,
        vec![
            CaseRecord { date: "2021-12-12".to_string(), new_entry_hospital: 21 },
            CaseRecord { date: "2021-12-12".to_string(), new_entry_hospital: 8 },
        ]
    );
}
