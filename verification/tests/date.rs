use lattice::date::{from_date_time, to_date_time, Date, DateScalar, DAY_MILLIS};

#[test]
fn day_has_86_400_000_milliseconds() {
    assert_eq!(DAY_MILLIS, 86_400_000);
}

#[test]
fn date_starts_at_midnight() {
    assert_eq!(to_date_time(Date { days: 0 }), 0);
    assert_eq!(to_date_time(Date { days: 1 }), 86_400_000);
    assert_eq!(to_date_time(Date { days: -1 }), -86_400_000);
    assert_eq!(to_date_time(Date { days: 19_000 }), 1_641_600_000_000);
    assert_eq!(to_date_time(Date { days: i32::MAX }), 2_147_483_647 * 86_400_000);
    assert_eq!(to_date_time(Date { days: i32::MIN }), -2_147_483_648 * 86_400_000);
}

#[test]
fn point_in_time_falls_on_its_day() {
    assert_eq!(from_date_time(0), Some(Date { days: 0 }));
    assert_eq!(from_date_time(86_399_999), Some(Date { days: 0 }));
    assert_eq!(from_date_time(86_400_000), Some(Date { days: 1 }));
    assert_eq!(from_date_time(-1), Some(Date { days: -1 }));
    assert_eq!(from_date_time(-86_400_000), Some(Date { days: -1 }));
    assert_eq!(from_date_time(-86_400_001), Some(Date { days: -2 }));
    assert_eq!(from_date_time(1_641_600_000_000 + 5), Some(Date { days: 19_000 }));
}

#[test]
fn point_in_time_beyond_the_dates_has_none() {
    assert_eq!(from_date_time(i64::MAX), None);
    assert_eq!(from_date_time(i64::MIN), None);
    assert_eq!(from_date_time(2_147_483_648 * 86_400_000), None);
    assert_eq!(
        from_date_time(2_147_483_648 * 86_400_000 - 1),
        Some(Date { days: i32::MAX })
    );
    assert_eq!(from_date_time(-2_147_483_648 * 86_400_000), Some(Date { days: i32::MIN }));
    assert_eq!(from_date_time(-2_147_483_648 * 86_400_000 - 1), None);
}

#[test]
fn date_round_trip() {
    for days in [0, 1, -1, 365, 19_000, -719_162, i32::MAX, i32::MIN] {
        assert_eq!(from_date_time(to_date_time(Date { days })), Some(Date { days }));
    }
}

#[test]
fn date_scalar_is_written_in_iso_form() {
    assert_eq!(DateScalar(Date { days: 0 }).serialize().unwrap(), "1970-01-01");
    assert_eq!(DateScalar(Date { days: 13_036 }).serialize().unwrap(), "2005-09-10");
    assert_eq!(DateScalar(Date { days: -1 }).serialize().unwrap(), "1969-12-31");
    assert!(DateScalar(Date { days: 100_000_000 }).serialize().is_none());
    assert!(DateScalar(Date { days: i32::MAX }).serialize().is_none());
}

#[test]
fn date_scalar_is_read_from_iso_form() {
    assert_eq!(DateScalar::deserialize("1970-01-01"), Some(DateScalar(Date { days: 0 })));
    assert_eq!(DateScalar::deserialize("2005-09-10"), Some(DateScalar(Date { days: 13_036 })));
    assert_eq!(DateScalar::deserialize("2005-02-30"), None);
    assert_eq!(DateScalar::deserialize("yesterday"), None);
    assert_eq!(DateScalar::deserialize(""), None);
}
