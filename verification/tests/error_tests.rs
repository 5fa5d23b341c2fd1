use photosi_exceptions_rust::{
    from_pms_response, BaseError, DbRowLockedException, DbUpdateConcurrencyException, ErrorKind,
    Exception, Level, MaxRetriesExceededException, ObjectNotFoundException,
    OperationNotAllowedException, PmsResponse, SecurityException, SomethingWentWrongException,
    TimeoutException, ValidationException,
};

fn check_new<E: BaseError>(error: E, code: &str, level: Level) {
    assert_eq!(error.code(), code);
    assert_eq!(error.level(), level);
    assert_eq!(error.to_string(), "the message");
    assert_eq!(error.detail(), Some("the detail"));
    let record = error.to_pms_response();
    assert_eq!(record.exception_code, code);
    assert_eq!(record.exception_message, "the message");
    assert_eq!(record.exception_detail, "the detail");
}

fn check_without_detail<E: BaseError>(mut error: E, code: &str, level: Level) {
    assert_eq!(error.code(), code);
    assert_eq!(error.level(), level);
    assert_eq!(error.to_string(), "");
    assert_eq!(error.detail(), None);
    let record = error.to_pms_response();
    assert_eq!(record.exception_code, code);
    assert_eq!(record.exception_message, "");
    assert_eq!(record.exception_detail, "null");

    error.set_detail("first".to_string());
    assert_eq!(error.detail(), Some("first"));
    error.set_detail("second".to_string());
    assert_eq!(error.detail(), Some("second"));
    assert_eq!(error.code(), code);
    assert_eq!(error.level(), level);
    assert_eq!(error.to_string(), "");
    assert_eq!(error.to_pms_response().exception_detail, "second");
}

fn detail() -> Option<String> {
    Some("the detail".to_string())
}

#[test]
fn each_type_has_its_code_and_default_level() {
    let m = "the message";
    check_new(ObjectNotFoundException::new(m, detail()), "OBJECT_NOT_FOUND", Level::Warning);
    check_new(SecurityException::new(m, detail()), "INVALID_AUTHORIZATION", Level::Error);
    check_new(ValidationException::new(m, detail()), "INVALID_MESSAGE", Level::Error);
    check_new(DbRowLockedException::new(m, detail()), "DATABASE_ROW_LOCKED", Level::Error);
    check_new(DbUpdateConcurrencyException::new(m, detail()), "DATABASE_CONCURRENCY", Level::Error);
    check_new(TimeoutException::new(m, detail()), "TIMEOUT", Level::Error);
    check_new(MaxRetriesExceededException::new(m, detail()), "MAX_RETRIES_EXCEEDED", Level::Error);
    check_new(OperationNotAllowedException::new(m, detail()), "OPERATION_NOT_ALLOWED", Level::Error);
    check_new(SomethingWentWrongException::new(m, detail()), "SOMETHING_WENT_WRONG", Level::Error);
}

#[test]
fn each_type_takes_a_level_of_its_own() {
    let m = "the message";
    for level in [Level::Debug, Level::Info, Level::Warning, Level::Error, Level::Fatal] {
        check_new(ObjectNotFoundException::with_level(m, detail(), level), "OBJECT_NOT_FOUND", level);
        check_new(SecurityException::with_level(m, detail(), level), "INVALID_AUTHORIZATION", level);
        check_new(ValidationException::with_level(m, detail(), level), "INVALID_MESSAGE", level);
        check_new(DbRowLockedException::with_level(m, detail(), level), "DATABASE_ROW_LOCKED", level);
        check_new(
            DbUpdateConcurrencyException::with_level(m, detail(), level),
            "DATABASE_CONCURRENCY",
            level,
        );
        check_new(TimeoutException::with_level(m, detail(), level), "TIMEOUT", level);
        check_new(
            MaxRetriesExceededException::with_level(m, detail(), level),
            "MAX_RETRIES_EXCEEDED",
            level,
        );
        check_new(
            OperationNotAllowedException::with_level(m, detail(), level),
            "OPERATION_NOT_ALLOWED",
            level,
        );
        check_new(
            SomethingWentWrongException::with_level(m, detail(), level),
            "SOMETHING_WENT_WRONG",
            level,
        );
    }
}

#[test]
fn absent_detail_travels_as_null_for_each_type() {
    check_without_detail(ObjectNotFoundException::new("", None), "OBJECT_NOT_FOUND", Level::Warning);
    check_without_detail(SecurityException::new("", None), "INVALID_AUTHORIZATION", Level::Error);
    check_without_detail(ValidationException::new("", None), "INVALID_MESSAGE", Level::Error);
    check_without_detail(DbRowLockedException::new("", None), "DATABASE_ROW_LOCKED", Level::Error);
    check_without_detail(
        DbUpdateConcurrencyException::new("", None),
        "DATABASE_CONCURRENCY",
        Level::Error,
    );
    check_without_detail(TimeoutException::new("", None), "TIMEOUT", Level::Error);
    check_without_detail(
        MaxRetriesExceededException::new("", None),
        "MAX_RETRIES_EXCEEDED",
        Level::Error,
    );
    check_without_detail(
        OperationNotAllowedException::new("", None),
        "OPERATION_NOT_ALLOWED",
        Level::Error,
    );
    check_without_detail(
        SomethingWentWrongException::new("", None),
        "SOMETHING_WENT_WRONG",
        Level::Error,
    );
}

#[test]
fn security_exception_without_detail_gives_its_record() {
    let record = SecurityException::new("Error", None).to_pms_response();
    assert_eq!(record.exception_code, "INVALID_AUTHORIZATION");
    assert_eq!(record.exception_message, "Error");
    assert_eq!(record.exception_detail, "null");
}

#[test]
fn set_detail_overwrites_an_earlier_detail() {
    let mut exception = TimeoutException::new("slow", Some("d1".to_string()));
    assert_eq!(exception.detail(), Some("d1"));
    exception.set_detail("d2".to_string());
    assert_eq!(exception.detail(), Some("d2"));
    assert_eq!(exception.to_string(), "slow");
    assert_eq!(exception.level(), Level::Error);
}

#[test]
fn empty_detail_is_not_absent() {
    let exception = ValidationException::new("m", Some(String::new()));
    assert_eq!(exception.detail(), Some(""));
    assert_eq!(exception.to_pms_response().exception_detail, "");
}

#[test]
fn message_is_rendered_verbatim() {
    let message = "  line one\nline two: ünïcödé ✓ {braces} %s  ";
    let exception = DbRowLockedException::with_level(message, None, Level::Debug);
    assert_eq!(exception.to_string(), message);
    assert_eq!(exception.to_pms_response().exception_message, message);
}

#[test]
fn round_trip_keeps_code_message_and_detail() {
    let sent = MaxRetriesExceededException::with_level(
        "gave up",
        Some("after 5 tries".to_string()),
        Level::Fatal,
    );
    let record = sent.to_pms_response();
    let back = from_pms_response(
        &record.exception_code,
        &record.exception_message,
        Some(record.exception_detail.clone()),
    );
    assert_eq!(back.code(), sent.code());
    assert_eq!(back.to_string(), sent.to_string());
    assert_eq!(back.detail(), Some("after 5 tries"));
    assert_eq!(back.level(), Level::Error);
}

#[test]
fn round_trip_of_an_absent_detail_gives_the_text_null() {
    let sent = ObjectNotFoundException::new("gone", None);
    let record = sent.to_pms_response();
    let back = from_pms_response(
        &record.exception_code,
        &record.exception_message,
        Some(record.exception_detail.clone()),
    );
    assert_eq!(back.code(), "OBJECT_NOT_FOUND");
    assert_eq!(back.detail(), Some("null"));
    assert_eq!(back.level(), Level::Warning);
}

#[test]
fn pms_response_new_takes_the_fields_as_they_are() {
    let with = PmsResponse::new("C".to_string(), "M".to_string(), Some("D".to_string()));
    assert_eq!(with.exception_code, "C");
    assert_eq!(with.exception_message, "M");
    assert_eq!(with.exception_detail, "D");

    let without = PmsResponse::new(String::new(), String::new(), None);
    assert_eq!(without.exception_code, "");
    assert_eq!(without.exception_message, "");
    assert_eq!(without.exception_detail, "null");
    assert_eq!(PmsResponse::NO_DETAIL, "null");
}

#[test]
fn pms_response_fields_are_named_and_ordered() {
    let record = PmsResponse::new("C".to_string(), "M".to_string(), None);
    assert_eq!(
        record.fields(),
        [("ExceptionCode", "C"), ("ExceptionDetail", "null"), ("ExceptionMessage", "M")]
    );
    assert_eq!(PmsResponse::CODE_FIELD, "ExceptionCode");
    assert_eq!(PmsResponse::DETAIL_FIELD, "ExceptionDetail");
    assert_eq!(PmsResponse::MESSAGE_FIELD, "ExceptionMessage");
}

#[test]
fn pms_response_clone_keeps_the_fields() {
    let record = TimeoutException::new("slow", None).to_pms_response();
    let copy = record.clone();
    assert_eq!(copy.exception_code, "TIMEOUT");
    assert_eq!(copy.exception_message, "slow");
    assert_eq!(copy.exception_detail, "null");
}

#[test]
fn record_written_with_serde_json_has_the_wire_names() {
    let record = SecurityException::new("Error", None).to_pms_response();
    let mut object = serde_json::Map::new();
    for (name, value) in record.fields() {
        object.insert(name.to_string(), serde_json::Value::String(value.to_string()));
    }
    let json = serde_json::to_string(&serde_json::Value::Object(object)).unwrap();
    assert_eq!(
        json,
        "{\"ExceptionCode\":\"INVALID_AUTHORIZATION\",\"ExceptionDetail\":\"null\",\"ExceptionMessage\":\"Error\"}"
    );
}

#[test]
fn round_trip_holds_for_every_kind() {
    let kinds = [
        ErrorKind::ObjectNotFound,
        ErrorKind::Security,
        ErrorKind::Validation,
        ErrorKind::DbRowLocked,
        ErrorKind::DbUpdateConcurrency,
        ErrorKind::Timeout,
        ErrorKind::MaxRetriesExceeded,
        ErrorKind::OperationNotAllowed,
        ErrorKind::SomethingWentWrong,
    ];
    for kind in kinds {
        let sent = Exception::new(kind, "what happened", Some("where: here".to_string()));
        let record = sent.to_pms_response();
        let back = from_pms_response(
            &record.exception_code,
            &record.exception_message,
            Some(record.exception_detail.clone()),
        );
        assert_eq!(back.code(), sent.code());
        assert_eq!(back.to_string(), "what happened");
        assert_eq!(back.detail(), Some("where: here"));
    }
}
