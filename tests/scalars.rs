use septa_api::deserialize::{
    deserialize_bool, decode_csv_integers, deserialize_naive_date_time, deserialize_option_naive_time_with_space,
    deserialize_naive_time, deserialize_naive_time_with_space, DateTime, TimeOfDay,
};
use septa_api::deserialize::deserialize_option_csv_encoded_string;
use septa_api::errors::{DecodeError, Expected};
use septa_api::json::JsonValue;
use septa_api::requests::{ArrivalsRequest, Direction, NextToArriveRequest, RailScheduleRequest, Request};
use septa_api::text::{decimal_string, eq_ignore_ascii_case, parse_i32, trim};
use septa_api::types::RegionalRailStop;

fn time(hour: u32, minute: u32) -> TimeOfDay {
    TimeOfDay { hour, minute, second: 0, nanosecond: 0 }
}

#[test]
fn csv_list_reads_integers_in_order() {
    assert_eq!(decode_csv_integers("872,871,858,857").unwrap(), vec![872, 871, 858, 857]);
    assert_eq!(decode_csv_integers("721").unwrap(), vec![721]);
    assert_eq!(decode_csv_integers("-3,+4").unwrap(), vec![-3, 4]);
}

#[test]
fn csv_list_of_nothing_is_empty() {
    assert_eq!(decode_csv_integers("").unwrap(), Vec::<i32>::new());
    assert_eq!(decode_csv_integers(",,").unwrap(), Vec::<i32>::new());
}

#[test]
fn csv_list_skips_empty_segments() {
    assert_eq!(decode_csv_integers("1,,2").unwrap(), vec![1, 2]);
    assert_eq!(decode_csv_integers("1,2,").unwrap(), vec![1, 2]);
}

#[test]
fn csv_list_names_the_first_bad_segment() {
    match decode_csv_integers("1,x2,y") {
        Err(DecodeError::InvalidValue { value, expected }) => {
            assert_eq!(value, "x2");
            assert_eq!(expected, Expected::IntegerList);
        },
        other => panic!("unexpected {:?}", other),
    }
    assert!(decode_csv_integers("2147483648").is_err());
    assert_eq!(decode_csv_integers("-2147483648").unwrap(), vec![i32::MIN]);
}

#[test]
fn integers_parse_like_std() {
    assert_eq!(parse_i32("0"), Some(0));
    assert_eq!(parse_i32("2147483647"), Some(i32::MAX));
    assert_eq!(parse_i32("-"), None);
    assert_eq!(parse_i32(""), None);
    assert_eq!(parse_i32(" 1"), None);
    assert_eq!(parse_i32("99999999999999999999"), None);
}

#[test]
fn booleans_ignore_case() {
    assert_eq!(deserialize_bool("true").unwrap(), true);
    assert_eq!(deserialize_bool("FALSE").unwrap(), false);
    assert_eq!(deserialize_bool("True").unwrap(), true);
    match deserialize_bool("yes") {
        Err(DecodeError::InvalidValue { value, expected }) => {
            assert_eq!(value, "yes");
            assert_eq!(expected, Expected::Bool);
        },
        other => panic!("unexpected {:?}", other),
    }
}

#[test]
fn times_of_day_in_both_formats() {
    assert_eq!(deserialize_naive_time_with_space("9:08 pm").unwrap(), time(21, 8));
    assert_eq!(deserialize_naive_time("11:49PM").unwrap(), time(23, 49));
    assert_eq!(deserialize_naive_time("12:33AM").unwrap(), time(0, 33));
    assert!(deserialize_naive_time("9:08 pm").is_err());
    match deserialize_naive_time_with_space("25:00 pm") {
        Err(DecodeError::InvalidValue { value, expected }) => {
            assert_eq!(value, "25:00 pm");
            assert_eq!(expected, Expected::TimeOfDayWithSpace);
        },
        other => panic!("unexpected {:?}", other),
    }
}

#[test]
fn actual_time_may_be_not_available() {
    assert_eq!(deserialize_option_naive_time_with_space("na").unwrap(), None);
    assert_eq!(deserialize_option_naive_time_with_space("9:09 pm").unwrap(), Some(time(21, 9)));
    assert!(deserialize_option_naive_time_with_space("NA").is_err());
}

#[test]
fn date_times_with_fraction() {
    assert_eq!(
        deserialize_naive_date_time("2023-04-11 18:30:00.000").unwrap(),
        DateTime { year: 2023, month: 4, day: 11, time: time(18, 30) }
    );
    assert_eq!(
        deserialize_naive_date_time("2023-04-11 18:30:05").unwrap(),
        DateTime { year: 2023, month: 4, day: 11, time: TimeOfDay { hour: 18, minute: 30, second: 5, nanosecond: 0 } }
    );
    assert!(deserialize_naive_date_time("2023-04-11T18:30:00").is_err());
}

#[test]
fn text_helpers() {
    assert!(eq_ignore_ascii_case("Media/Wawa", "MEDIA/wawa"));
    assert!(!eq_ignore_ascii_case("Media", "Medi"));
    assert_eq!(trim("\u{a0} x y \n"), "x y");
    assert_eq!(trim("   "), "");
    assert_eq!(decimal_string(0), "0");
    assert_eq!(decimal_string(255), "255");
}

#[test]
fn request_parameters() {
    let arrivals = ArrivalsRequest {
        station: RegionalRailStop::TempleUniversity,
        results: Some(2),
        direction: Some(Direction::North),
    };
    assert_eq!(
        arrivals.into_params(),
        vec![("station", "Temple University".to_string()), ("direction", "N".to_string()), ("results", "2".to_string())]
    );
    let next = NextToArriveRequest {
        starting_station: RegionalRailStop::TempleUniversity,
        ending_station: RegionalRailStop::StDavids,
        results: None,
    };
    assert_eq!(
        next.into_params(),
        vec![("req1", "Temple University".to_string()), ("req2", "St. Davids".to_string())]
    );
    let schedule = RailScheduleRequest { train_number: "3236".to_string() };
    assert_eq!(schedule.into_params(), vec![("req1", "3236".to_string())]);
    assert_eq!(Direction::South.to_string(), "S");
}

#[test]
fn optional_csv_values() {
    assert_eq!(deserialize_option_csv_encoded_string(&JsonValue::Null).unwrap(), None);
    assert_eq!(
        deserialize_option_csv_encoded_string(&JsonValue::Str("4,5".to_string())).unwrap(),
        Some(vec![4, 5])
    );
    match deserialize_option_csv_encoded_string(&JsonValue::Bool(true)) {
        Err(DecodeError::InvalidType { expected }) => assert_eq!(expected, Expected::Text),
        other => panic!("unexpected {:?}", other),
    }
    match deserialize_option_csv_encoded_string(&JsonValue::Str("4,a5,6".to_string())) {
        Err(DecodeError::InvalidValue { value, expected }) => {
            assert_eq!(value, "a5");
            assert_eq!(expected, Expected::IntegerList);
        },
        other => panic!("unexpected {:?}", other),
    }
}
