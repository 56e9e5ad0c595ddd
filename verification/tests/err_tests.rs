use mask::err::{DBError, MaskErr, PcrErr};
use mask::pipeline::{prepare_query, prepare_week_query, require_date, ScopeInput};
use mask::resolve::PartialDate;
use mask::status::StatusKind;

#[test]
fn messages_render_each_failure_kind() {
    assert_eq!(MaskErr::InvalidDate.message(), "The date is invalid");
    assert_eq!(MaskErr::MissingDate.message(), "The date is missing");
    assert_eq!(
        MaskErr::MissingParam("department".to_string()).message(),
        "A param of name department is missing"
    );
    assert_eq!(
        MaskErr::QueryError("timeout".to_string()).message(),
        "An error happened while fetching data, timeout"
    );
    assert_eq!(
        MaskErr::IO("no such file".to_string()).message(),
        "Unable to open file for reasons: no such file"
    );
}

#[test]
fn db_messages_render_each_failure_kind() {
    assert_eq!(DBError::Exec.message(), "Error while parsing result");
    assert_eq!(
        DBError::Connection("refused".to_string()).message(),
        "Unable to connect to the database, reason: refused"
    );
    assert_eq!(
        DBError::MissingEnv("db_host".to_string()).message(),
        "Unable to build database uri. Error: db_host"
    );
    assert_eq!(
        DBError::IO("disk full".to_string()).message(),
        "Unable to perform IO operation, disk full"
    );
}

#[test]
fn pcr_messages_render_each_failure_kind() {
    assert_eq!(PcrErr::InvalidDate.message(), "The date is invalid");
    assert_eq!(
        PcrErr::MissingParam("region".to_string()).message(),
        "The request is not valid. Param region is missing"
    );
    assert_eq!(
        PcrErr::QueryError("boom".to_string()).message(),
        "An error happened while fetching data, boom"
    );
}

#[test]
fn backing_store_failures_surface_as_query_errors() {
    let err = DBError::Exec.to_mask_err();
    match err {
        MaskErr::QueryError(detail) => assert_eq!(detail, "Error while parsing result"),
        other => panic!("expected a query error, got {}", other.message()),
    }
}

#[test]
fn validation_failures_translate_to_client_errors() {
    let out = MaskErr::InvalidDate.to_status();
    assert_eq!(out.kind, StatusKind::InvalidArgument);
    assert_eq!(out.message, "The date is invalid");

    let out = MaskErr::MissingDate.to_status();
    assert_eq!(out.kind, StatusKind::InvalidArgument);
    assert_eq!(out.message, "The date is missing");

    let out = MaskErr::MissingParam("department".to_string()).to_status();
    assert_eq!(out.kind, StatusKind::FailedPrecondition);
    assert_eq!(out.message, "department");

    let out = PcrErr::MissingParam("region".to_string()).to_status();
    assert_eq!(out.kind, StatusKind::InvalidArgument);
    assert_eq!(out.message, "The request is not valid. Param region is missing");
}

#[test]
fn server_failures_translate_to_one_generic_internal_message() {
    let raw = "FATAL: password authentication failed for user \"mask\"";
    let out = MaskErr::QueryError(raw.to_string()).to_status();
    assert_eq!(out.kind, StatusKind::Internal);
    assert_eq!(out.message, "An internal error occurred");
    assert!(!out.message.contains("password"));

    let other = MaskErr::IO("/etc/shadow: permission denied".to_string()).to_status();
    assert_eq!(other.kind, StatusKind::Internal);
    assert_eq!(other.message, out.message);

    let pcr = PcrErr::QueryError(raw.to_string()).to_status();
    assert_eq!(pcr.kind, StatusKind::Internal);
    assert_eq!(pcr.message, out.message);

    // A backing-store failure surfaced through the service error keeps
    // its detail for the log but not for the client.
    let surfaced = DBError::Connection(raw.to_string()).to_mask_err();
    assert!(surfaced.message().contains("password"));
    let out = surfaced.to_status();
    assert_eq!(out.kind, StatusKind::Internal);
    assert!(!out.message.contains("password"));
}

#[test]
fn missing_scope_parameters_are_reported_by_name() {
    let date = PartialDate { year: 2021, month: 12, day: Some(12) };
    match prepare_query(&date, ScopeInput::Department(None)) {
        Err(MaskErr::MissingParam(p)) => assert_eq!(p, "department"),
        other => panic!("expected a missing param, got {:?}", other.is_ok()),
    }
    match prepare_query(&date, ScopeInput::Region(None)) {
        Err(MaskErr::MissingParam(p)) => assert_eq!(p, "region"),
        other => panic!("expected a missing param, got {:?}", other.is_ok()),
    }
}

#[test]
fn the_date_is_checked_before_the_scope() {
    // Both the date and the scope are bad: the date error wins, as in
    // every handler.
    let date = PartialDate { year: 2021, month: 12, day: Some(50) };
    assert!(matches!(
        prepare_query(&date, ScopeInput::Department(None)),
        Err(MaskErr::InvalidDate)
    ));
}

#[test]
fn an_absent_date_is_missing_not_invalid() {
    assert!(matches!(require_date(None), Err(MaskErr::MissingDate)));
    let date = PartialDate { year: 2021, month: 12, day: Some(18) };
    assert_eq!(require_date(Some(date)).unwrap(), date);
    let out = MaskErr::MissingDate.to_status();
    assert_eq!(out.kind, StatusKind::InvalidArgument);
}

#[test]
fn week_requests_need_a_day_and_a_valid_date() {
    let month_only = PartialDate { year: 2021, month: 12, day: None };
    assert!(matches!(
        prepare_week_query(&month_only, "80".to_string()),
        Err(PcrErr::InvalidDate)
    ));
    let invalid = PartialDate { year: 2021, month: 30, day: Some(10) };
    assert!(matches!(
        prepare_week_query(&invalid, "94".to_string()),
        Err(PcrErr::InvalidDate)
    ));
    let ok = PartialDate { year: 2021, month: 12, day: Some(10) };
    let plan = prepare_week_query(&ok, "94".to_string()).unwrap();
    assert_eq!(plan.department, "94");
    assert_eq!(plan.dates.len(), 7);
    assert_eq!(plan.dates[0], "2021-12-03");
    assert_eq!(plan.dates[6], "2021-12-09");
}
