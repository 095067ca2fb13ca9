use reservation::conflict::ParsedInfo;
use reservation::conflict::ReservationConflictInfo;
use reservation::conflict::ReservationWindow;

const ERR_MSG: &str = "键(resource_id, timespan)=(ocean-view-room-713, [\"2022-12-26 22:00:00+00\",\"2022-12-30 19:00:00+00\"))与已存在的键(resource_id, timespan)=(ocean-view-room-713, [\"2022-12-25 22:00:00+00\",\"2022-12-28 19:00:00+00\"))冲突";

#[test]
fn parser_should_work() {
    let parsered = ParsedInfo::from_str(ERR_MSG);
    if let Ok(info) = parsered {
        assert_eq!(
            info.old.get("timespan").unwrap(),
            "\"2022-12-25 22:00:00+00\",\"2022-12-28 19:00:00+00\""
        );
    } else {
        panic!("parser not work");
    }
}

#[test]
fn parser_info_to_reservation_window_should_work() {
    let parsered = ParsedInfo::from_str(ERR_MSG);
    if let Ok(info) = parsered {
        if let Ok(info) = ReservationWindow::try_from(info.old) {
            assert_eq!(info.start.to_rfc3339(), "2022-12-25T22:00:00+00:00");
        } else {
            panic!("parser_info_to_reservation_window not work");
        }
    } else {
        panic!("parser not work");
    }
}

#[test]
fn parser_to_conflict_should_work() {
    let info = ReservationConflictInfo::from_str(ERR_MSG);
    if let ReservationConflictInfo::Parsed(info) = info {
        assert_eq!(info.old.start.to_rfc3339(), "2022-12-25T22:00:00+00:00")
    }
}
