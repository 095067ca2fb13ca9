use reservation::conflict::ReservationConflictInfo;
use reservation::error::classify_store_fault;
use reservation::error::Error;
use reservation::error::StoreFault;
use reservation::manager::check_reservation_id;
use reservation::manager::complete_reserve;
use reservation::manager::finish_delete;
use reservation::manager::finish_fetch_one;
use reservation::manager::prepare_query;
use reservation::manager::prepare_reserve;
use reservation::manager::str_to_option;
use reservation::manager::ReservationQuery;
use reservation::status::ReservationStatus;
use reservation::text::chars_of;
use reservation::time::convert_to_timestamp;
use reservation::time::convert_to_utc_time;
use reservation::time::parse_datetime;
use reservation::time::Timestamp;
use reservation::time::UtcTime;
use reservation::types::Reservation;
use reservation::window::TimeBound;
use reservation::window::TimeRange;
use reservation::window::TimeSpan;

const ERR_MSG: &str = "键(resource_id, timespan)=(ocean-view-room-713, [\"2022-12-26 22:00:00+00\",\"2022-12-30 19:00:00+00\"))与已存在的键(resource_id, timespan)=(ocean-view-room-713, [\"2022-12-25 22:00:00+00\",\"2022-12-28 19:00:00+00\"))冲突";

fn utc(seconds: i64) -> UtcTime {
    UtcTime { seconds, nanos: 0 }
}

fn pending_reservation() -> Reservation {
    Reservation::new_pending(
        "tyrid".to_string(),
        "ocean-view-room-713".to_string(),
        utc(1671983100),
        utc(1672228800),
        "I'll arrive at 3pm. Please help to upgrade to execuitive room if possible.".to_string(),
    )
}

// --- date-time grammar ---

#[test]
fn parse_datetime_exact_utc() {
    let t = parse_datetime(&chars_of("2022-12-25 22:00:00+00")).expect("should parse");
    assert_eq!(t.seconds, 1672005600);
    assert_eq!(t.nanos, 0);
}

#[test]
fn parse_datetime_applies_offset() {
    let t = parse_datetime(&chars_of("2022-12-25 15:00:00-07")).expect("should parse");
    assert_eq!(t.seconds, 1672005600);
    let u = parse_datetime(&chars_of("2022-12-26 03:30:00+0530")).expect("should parse");
    assert_eq!(u.seconds, 1672005600);
    let w = parse_datetime(&chars_of("2022-12-26 03:30:00+05:30")).expect("should parse");
    assert_eq!(w.seconds, 1672005600);
}

#[test]
fn parse_datetime_leap_day() {
    assert!(parse_datetime(&chars_of("2024-02-29 00:00:00+00")).is_some());
    assert!(parse_datetime(&chars_of("2023-02-29 00:00:00+00")).is_none());
}

#[test]
fn parse_datetime_rejects_deviations() {
    assert!(parse_datetime(&chars_of("")).is_none());
    assert!(parse_datetime(&chars_of("2022-13-01 00:00:00+00")).is_none());
    assert!(parse_datetime(&chars_of("2022-12-32 00:00:00+00")).is_none());
    assert!(parse_datetime(&chars_of("2022-12-25 24:00:00+00")).is_none());
    assert!(parse_datetime(&chars_of("2022-12-25T22:00:00+00")).is_none());
    assert!(parse_datetime(&chars_of("2022-12-25 22:00:00")).is_none());
    assert!(parse_datetime(&chars_of("1969-12-31 23:59:59+00")).is_none());
}

#[test]
fn parse_datetime_range_limits() {
    assert!(parse_datetime(&chars_of("9999-12-31 23:59:59+00")).is_some());
    assert!(parse_datetime(&chars_of("9999-12-31 23:59:59-01")).is_none());
    assert!(parse_datetime(&chars_of("1970-01-01 00:00:00+00")).is_some());
    assert!(parse_datetime(&chars_of("1970-01-01 00:00:00+01")).is_none());
}

#[test]
fn rfc3339_renders_back() {
    let t = parse_datetime(&chars_of("2022-12-28 19:00:00+00")).expect("should parse");
    assert_eq!(t.to_rfc3339(), "2022-12-28T19:00:00+00:00");
    assert_eq!(utc(0).to_rfc3339(), "1970-01-01T00:00:00+00:00");
    assert_eq!(utc(1709164800).to_rfc3339(), "2024-02-29T00:00:00+00:00");
}

// --- wire timestamps ---

#[test]
fn timestamp_conversion_round_trip() {
    let ts = Timestamp { seconds: 1671983100, nanos: 500 };
    let t = convert_to_utc_time(ts);
    assert_eq!(t.seconds, 1671983100);
    assert_eq!(t.nanos, 500);
    let back = convert_to_timestamp(t);
    assert_eq!(back, ts);
}

// --- windows and the native range ---

#[test]
fn window_range_round_trip() {
    let w = TimeSpan { start: utc(1671983100), end: utc(1672228800) };
    let r = w.to_range();
    assert!(matches!(r.start, TimeBound::Included(t) if t.seconds == 1671983100));
    assert!(matches!(r.end, TimeBound::Excluded(t) if t.seconds == 1672228800));
    let back = TimeSpan::from_range(r).expect("bounded range maps back");
    assert_eq!(back, w);
}

#[test]
fn unbounded_range_is_not_a_window() {
    let r = TimeRange { start: TimeBound::Unbounded, end: TimeBound::Excluded(utc(5)) };
    assert!(TimeSpan::from_range(r).is_none());
}

// --- status encodings ---

#[test]
fn status_codes_and_names() {
    assert_eq!(ReservationStatus::Pending.code(), 0);
    assert_eq!(ReservationStatus::Blocked.code(), 1);
    assert_eq!(ReservationStatus::Confirmed.code(), 2);
    assert_eq!(ReservationStatus::Unknown.code(), 3);
    assert_eq!(ReservationStatus::Confirmed.name(), "confirmed");
    assert_eq!(ReservationStatus::from_name("pending"), ReservationStatus::Pending);
    assert_eq!(ReservationStatus::from_name("nonsense"), ReservationStatus::Unknown);
    assert_eq!(ReservationStatus::try_from_code(2), Some(ReservationStatus::Confirmed));
    assert_eq!(ReservationStatus::try_from_code(9), None);
    assert_eq!(ReservationStatus::from_code_or_pending(9), ReservationStatus::Pending);
}

// --- the reservation record and its validation ---

#[test]
fn new_pending_record_shape() {
    let r = pending_reservation();
    assert!(r.id.is_empty());
    assert_eq!(r.status, ReservationStatus::Pending.code());
    assert_eq!(r.start.unwrap().seconds, 1671983100);
    assert_eq!(r.end.unwrap().seconds, 1672228800);
    assert!(r.validate().is_ok());
}

#[test]
fn validate_rejects_empty_user() {
    let mut r = pending_reservation();
    r.user_id = String::new();
    assert!(matches!(r.validate(), Err(Error::InvalidUserId(u)) if u.is_empty()));
}

#[test]
fn validate_rejects_empty_resource() {
    let mut r = pending_reservation();
    r.resource_id = String::new();
    assert!(matches!(r.validate(), Err(Error::InvalidResourceId(_))));
}

#[test]
fn validate_rejects_bad_windows() {
    let mut r = pending_reservation();
    r.start = None;
    assert!(matches!(r.validate(), Err(Error::InvalidTime)));
    let mut r = pending_reservation();
    r.end = Some(r.start.unwrap());
    assert!(matches!(r.validate(), Err(Error::InvalidTime)));
    let mut r = pending_reservation();
    r.end = Some(Timestamp { seconds: 1, nanos: 0 });
    assert!(matches!(r.validate(), Err(Error::InvalidTime)));
}

#[test]
fn from_row_rebuilds_record() {
    let range = TimeRange {
        start: TimeBound::Included(utc(1671983100)),
        end: TimeBound::Excluded(utc(1672228800)),
    };
    let r = Reservation::from_row(
        "550e8400-e29b-41d4-a716-446655440000".to_string(),
        "tyrid".to_string(),
        "ocean-view-room-713".to_string(),
        "confirmed",
        range,
        "hello.".to_string(),
    )
    .expect("bounded range decodes");
    assert_eq!(r.status, ReservationStatus::Confirmed.code());
    assert_eq!(r.start.unwrap().seconds, 1671983100);
}

#[test]
fn from_row_reports_corrupt_range() {
    let range = TimeRange { start: TimeBound::Unbounded, end: TimeBound::Excluded(utc(5)) };
    let r = Reservation::from_row(
        "id".to_string(),
        "u".to_string(),
        "r".to_string(),
        "pending",
        range,
        String::new(),
    );
    assert!(matches!(r, Err(Error::DbError(_))));
}

// --- classification ---

fn overlap_fault(detail: Option<String>) -> StoreFault {
    StoreFault::Database {
        code: "23P01".to_string(),
        schema: Some("rsvp".to_string()),
        table: Some("reservations".to_string()),
        detail,
    }
}

#[test]
fn overlap_fault_parses_both_windows() {
    let e = classify_store_fault(overlap_fault(Some(ERR_MSG.to_string())));
    if let Error::ConflictReservation(ReservationConflictInfo::Parsed(info)) = e {
        assert_eq!(info.old.rid, "ocean-view-room-713");
        assert_eq!(info.old.start.to_rfc3339(), "2022-12-25T22:00:00+00:00");
        assert_eq!(info.old.end.to_rfc3339(), "2022-12-28T19:00:00+00:00");
        assert_eq!(info.new.rid, "ocean-view-room-713");
        assert_eq!(info.new.start.to_rfc3339(), "2022-12-26T22:00:00+00:00");
        assert_eq!(info.new.end.to_rfc3339(), "2022-12-30T19:00:00+00:00");
    } else {
        panic!("expect conflict reservation error");
    }
}

#[test]
fn overlap_fault_with_odd_detail_degrades() {
    let e = classify_store_fault(overlap_fault(Some("no key values here".to_string())));
    assert!(matches!(
        e,
        Error::ConflictReservation(ReservationConflictInfo::Unparsed(u)) if u == "no key values here"
    ));
    let e = classify_store_fault(overlap_fault(None));
    assert!(matches!(
        e,
        Error::ConflictReservation(ReservationConflictInfo::Unparsed(u)) if u.is_empty()
    ));
}

#[test]
fn other_faults_stay_opaque() {
    let f = StoreFault::Database {
        code: "23505".to_string(),
        schema: Some("rsvp".to_string()),
        table: Some("reservations".to_string()),
        detail: Some("x".to_string()),
    };
    assert!(matches!(classify_store_fault(f), Error::DbError(_)));
    let f = StoreFault::Database {
        code: "23P01".to_string(),
        schema: None,
        table: Some("reservations".to_string()),
        detail: Some("x".to_string()),
    };
    assert!(matches!(classify_store_fault(f), Error::DbError(_)));
    assert!(matches!(classify_store_fault(StoreFault::Other), Error::DbError(_)));
}

#[test]
fn no_row_becomes_not_found() {
    assert!(matches!(classify_store_fault(StoreFault::RowNotFound), Error::NotFound));
}

#[test]
fn error_equality_is_per_kind() {
    assert_eq!(Error::NotFound, Error::NotFound);
    assert_eq!(
        Error::DbError(StoreFault::Other),
        Error::DbError(StoreFault::RowNotFound)
    );
    assert_eq!(
        Error::InvalidUserId("a".to_string()),
        Error::InvalidUserId("a".to_string())
    );
    assert_ne!(
        Error::InvalidUserId("a".to_string()),
        Error::InvalidUserId("b".to_string())
    );
    assert_ne!(Error::NotFound, Error::Unknown);
}

// --- the parser fallback ---

#[test]
fn unparsed_keeps_original_text() {
    assert!(matches!(
        ReservationConflictInfo::from_str(""),
        ReservationConflictInfo::Unparsed(u) if u.is_empty()
    ));
    let one = "键(resource_id, timespan)=(room, [\"2022-12-26 22:00:00+00\",\"2022-12-30 19:00:00+00\"))";
    assert!(matches!(
        ReservationConflictInfo::from_str(one),
        ReservationConflictInfo::Unparsed(u) if u == one
    ));
    let bad_ts = "(a, timespan)=(x, [\"2022-99-26 22:00:00+00\",\"y\")) (a, timespan)=(x, [\"2022-99-26 22:00:00+00\",\"y\"))";
    assert!(matches!(
        ReservationConflictInfo::from_str(bad_ts),
        ReservationConflictInfo::Unparsed(u) if u == bad_ts
    ));
    let occurrence = "(resource_id, timespan)=(room, [\"2022-12-25 22:00:00+00\",\"2022-12-28 19:00:00+00\"))";
    let three = format!("{occurrence} {occurrence} {occurrence}");
    assert!(matches!(
        ReservationConflictInfo::from_str(&three),
        ReservationConflictInfo::Unparsed(u) if u == three
    ));
}

// --- the operations' decision half ---

#[test]
fn str_to_option_wildcards_empty() {
    assert_eq!(str_to_option(""), None);
    assert_eq!(str_to_option("tyrid"), Some("tyrid"));
}

#[test]
fn reservation_id_shapes() {
    assert!(check_reservation_id("550e8400-e29b-41d4-a716-446655440000").is_ok());
    assert!(check_reservation_id("550e8400e29b41d4a716446655440000").is_ok());
    assert!(check_reservation_id("{550e8400-e29b-41d4-a716-446655440000}").is_ok());
    assert!(check_reservation_id("urn:uuid:550e8400-e29b-41d4-a716-446655440000").is_ok());
    assert!(matches!(
        check_reservation_id("not-an-id"),
        Err(Error::InvalidReservationId(x)) if x == "not-an-id"
    ));
    assert!(check_reservation_id("550e8400-e29b-41d4-a716-44665544000g").is_err());
}

#[test]
fn prepare_reserve_accepts_valid_record() {
    let r = pending_reservation();
    let p = prepare_reserve(&r).expect("valid record prepares");
    assert_eq!(p.user_id, "tyrid");
    assert_eq!(p.resource_id, "ocean-view-room-713");
    assert_eq!(p.status_name, "pending");
    assert_eq!(p.timespan.start.seconds, 1671983100);
    assert_eq!(p.timespan.end.seconds, 1672228800);
}

#[test]
fn prepare_reserve_rejects_before_store() {
    let mut r = pending_reservation();
    r.user_id = String::new();
    assert!(matches!(prepare_reserve(&r), Err(Error::InvalidUserId(_))));
    let mut r = pending_reservation();
    r.end = None;
    assert!(matches!(prepare_reserve(&r), Err(Error::InvalidTime)));
}

#[test]
fn complete_reserve_sets_assigned_id() {
    let r = pending_reservation();
    let done = complete_reserve(r, "550e8400-e29b-41d4-a716-446655440000".to_string());
    assert_eq!(done.id, "550e8400-e29b-41d4-a716-446655440000");
    assert!(!done.id.is_empty());
    assert_eq!(done.status, ReservationStatus::Pending.code());
    assert_eq!(done.user_id, "tyrid");
}

#[test]
fn fetch_outcomes_classify() {
    let row = pending_reservation();
    let ok = finish_fetch_one(Ok(row.clone())).expect("row passes through");
    assert_eq!(ok.user_id, row.user_id);
    assert!(matches!(
        finish_fetch_one(Err(StoreFault::RowNotFound)),
        Err(Error::NotFound)
    ));
    assert!(matches!(
        finish_fetch_one(Err(StoreFault::Other)),
        Err(Error::DbError(_))
    ));
}

#[test]
fn delete_is_idempotent_success() {
    assert!(finish_delete(Ok(())).is_ok());
    assert!(matches!(finish_delete(Err(StoreFault::Other)), Err(Error::DbError(_))));
}

#[test]
fn query_with_unset_filters_is_wildcard() {
    let q = ReservationQuery {
        user_id: String::new(),
        resource_id: String::new(),
        status: 0,
        start: None,
        end: None,
        page: 1,
        page_size: 10,
        desc: false,
    };
    let p = prepare_query(&q);
    assert!(p.user_id.is_none());
    assert!(p.resource_id.is_none());
    assert!(matches!(p.range.start, TimeBound::Unbounded));
    assert!(matches!(p.range.end, TimeBound::Unbounded));
    assert_eq!(p.status_name, "pending");
    assert_eq!(p.page, 1);
    assert_eq!(p.page_size, 10);
    assert!(!p.desc);
}

#[test]
fn query_with_filters_keeps_them() {
    let q = ReservationQuery {
        user_id: "tyrid".to_string(),
        resource_id: "ocean-view-room-714".to_string(),
        status: 2,
        start: Some(Timestamp { seconds: 1671551100, nanos: 0 }),
        end: Some(Timestamp { seconds: 1672228800, nanos: 0 }),
        page: 1,
        page_size: 10,
        desc: true,
    };
    let p = prepare_query(&q);
    assert_eq!(p.user_id.as_deref(), Some("tyrid"));
    assert_eq!(p.resource_id.as_deref(), Some("ocean-view-room-714"));
    assert!(matches!(p.range.start, TimeBound::Included(t) if t.seconds == 1671551100));
    assert!(matches!(p.range.end, TimeBound::Excluded(t) if t.seconds == 1672228800));
    assert_eq!(p.status_name, "confirmed");
    assert!(p.desc);
}
