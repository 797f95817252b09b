use vstd::prelude::*;

use crate::deserialize::{
    DateTime, TimeOfDay, TIME_FORMAT, TIME_FORMAT_WITH_SPACE, DATE_TIME_FORMAT, NOT_AVAILABLE,
    bool_value, csv_integers, is_invalid_value, deserialize_bool, decode_csv_integers, deserialize_naive_date_time, deserialize_naive_time,
    deserialize_naive_time_with_space, deserialize_option_naive_time_with_space, naive_date_time_parsed,
    naive_time_parsed,
};
use crate::errors::{DecodeError, Expected};
use crate::json::{JsonValue, field_of, member, member_index};
use crate::text::{i32_value, parse_i32};
use crate::types::{RegionalRailStop, RegionalRailsLine, ServiceType};

verus! {

/// The text of a JSON string.
pub open spec fn text_of(v: JsonValue) -> Option<Seq<char>> {
    match v {
        JsonValue::Str(s) => Some(s@),
        _ => None,
    }
}

/// The text of the string field `key` of an object.
pub open spec fn text_field(v: JsonValue, key: Seq<char>) -> Option<Seq<char>> {
    match field_of(v, key) {
        Some(f) => text_of(f),
        None => None,
    }
}

/// `e` reports that `v` has no field `key`: it is not an object, or lacks the field.
pub open spec fn missing_error(v: JsonValue, key: Seq<char>, e: DecodeError) -> bool {
    if v is Object {
        e matches DecodeError::MissingField { field } && field@ == key
    } else {
        e == DecodeError::InvalidType { expected: Expected::Object }
    }
}

/// `e` reports that `v` has no string field `key`.
pub open spec fn text_field_error(v: JsonValue, key: Seq<char>, e: DecodeError) -> bool {
    match field_of(v, key) {
        None => missing_error(v, key, e),
        Some(_) => e == DecodeError::InvalidType { expected: Expected::Text },
    }
}

/// `e` reports that the string field `key` of `v` is missing, or holds text not of the
/// shape `expected`.
pub open spec fn text_value_error(v: JsonValue, key: Seq<char>, expected: Expected, e: DecodeError) -> bool {
    match text_field(v, key) {
        None => text_field_error(v, key, e),
        Some(t) => is_invalid_value(e, t, expected),
    }
}

/// `e` reports that an optional field `key` of `v` holds a value of another kind than `expected`.
pub open spec fn optional_field_error(v: JsonValue, expected: Expected, e: DecodeError) -> bool {
    if v is Object {
        e == DecodeError::InvalidType { expected }
    } else {
        e == DecodeError::InvalidType { expected: Expected::Object }
    }
}

/// The field `key` of an object.
pub fn get_field<'a>(v: &'a JsonValue, key: &str) -> (r: Option<&'a JsonValue>)
    ensures
        match r {
            Some(f) => field_of(*v, key@) == Some(*f),
            None => field_of(*v, key@) is None,
        },
{
    match v {
        JsonValue::Object(entries) => match member_index(entries, key) {
            Some(i) => Some(&entries[i].1),
            None => None,
        },
        _ => None,
    }
}

fn missing(key: &str) -> (r: DecodeError)
    ensures
        r matches DecodeError::MissingField { field } && field@ == key@,
{
    DecodeError::MissingField { field: String::from_str(key) }
}

/// The field `key`, which must be there.
pub fn require_field<'a>(v: &'a JsonValue, key: &str) -> (r: Result<&'a JsonValue, DecodeError>)
    ensures
        match r {
            Ok(f) => field_of(*v, key@) == Some(*f),
            Err(e) => field_of(*v, key@) is None && missing_error(*v, key@, e),
        },
{
    match v {
        JsonValue::Object(_) => match get_field(v, key) {
            Some(f) => Ok(f),
            None => Err(missing(key)),
        },
        _ => Err(DecodeError::InvalidType { expected: Expected::Object }),
    }
}

/// The text of a JSON string.
pub fn require_text(v: &JsonValue) -> (r: Result<String, DecodeError>)
    ensures
        match text_of(*v) {
            Some(t) => r matches Ok(s) && s@ == t,
            None => r == Err::<String, DecodeError>(DecodeError::InvalidType { expected: Expected::Text }),
        },
{
    match v {
        JsonValue::Str(s) => Ok(s.clone()),
        _ => Err(DecodeError::InvalidType { expected: Expected::Text }),
    }
}

/// The text of the string field `key`.
pub fn decode_text_field(v: &JsonValue, key: &str) -> (r: Result<String, DecodeError>)
    ensures
        match text_field(*v, key@) {
            Some(t) => r matches Ok(s) && s@ == t,
            None => r matches Err(e) && text_field_error(*v, key@, e),
        },
{
    match require_field(v, key) {
        Ok(f) => require_text(f),
        Err(e) => Err(e),
    }
}

/// The field `key` is missing, `null`, or a string; the text of a string.
pub open spec fn optional_text_field(v: JsonValue, key: Seq<char>) -> Option<Option<Seq<char>>> {
    match v {
        JsonValue::Object(entries) => match member(entries@, key) {
            None => Some(None),
            Some(JsonValue::Null) => Some(None),
            Some(JsonValue::Str(s)) => Some(Some(s@)),
            Some(_) => None,
        },
        _ => None,
    }
}

/// The view of an optional string.
pub open spec fn opt_text_view(o: Option<String>) -> Option<Seq<char>> {
    match o {
        Some(s) => Some(s@),
        None => None,
    }
}

/// The optional string field `key`: absent or `null` gives `None`.
pub fn decode_optional_text_field(v: &JsonValue, key: &str) -> (r: Result<Option<String>, DecodeError>)
    ensures
        match optional_text_field(*v, key@) {
            Some(o) => r matches Ok(x) && opt_text_view(x) == o,
            None => r matches Err(e) && optional_field_error(*v, Expected::Text, e),
        },
{
    match v {
        JsonValue::Object(_) => match get_field(v, key) {
            None => Ok(None),
            Some(JsonValue::Null) => Ok(None),
            Some(JsonValue::Str(s)) => Ok(Some(s.clone())),
            Some(_) => Err(DecodeError::InvalidType { expected: Expected::Text }),
        },
        _ => Err(DecodeError::InvalidType { expected: Expected::Object }),
    }
}

/// `s` is the stop that the string field `key` names.
pub open spec fn stop_field_is(v: JsonValue, key: Seq<char>, s: RegionalRailStop) -> bool {
    text_field(v, key) matches Some(t) && s.resolves_from(t)
}

/// The stop that the string field `key` names; an unknown name gives `Unknown`.
pub fn decode_stop_field(v: &JsonValue, key: &str) -> (r: Result<RegionalRailStop, DecodeError>)
    ensures
        r is Ok <==> text_field(*v, key@) is Some,
        r matches Ok(s) ==> stop_field_is(*v, key@, s),
        r matches Err(e) ==> text_field_error(*v, key@, e),
{
    match decode_text_field(v, key) {
        Ok(t) => Ok(RegionalRailStop::from_name(t.as_str())),
        Err(e) => Err(e),
    }
}

/// `v` is an object whose field `key` is missing, `null`, or a string naming a stop.
pub open spec fn optional_stop_field_ok(v: JsonValue, key: Seq<char>) -> bool {
    &&& v is Object
    &&& match field_of(v, key) {
        None => true,
        Some(f) => f is Null || f is Str,
    }
}

/// `s` is what the field `key` gives: `None` when it is missing or `null`, else the stop that
/// the string names.
pub open spec fn optional_stop_field_is(v: JsonValue, key: Seq<char>, s: Option<RegionalRailStop>) -> bool {
    match field_of(v, key) {
        None => s is None,
        Some(JsonValue::Null) => s is None,
        Some(JsonValue::Str(t)) => s matches Some(x) && x.resolves_from(t@),
        _ => false,
    }
}

/// The optional stop field `key`: absent or `null` gives `None`, a string the stop it names.
pub fn decode_optional_stop_field(v: &JsonValue, key: &str) -> (r: Result<Option<RegionalRailStop>, DecodeError>)
    ensures
        r is Ok <==> optional_stop_field_ok(*v, key@),
        r matches Ok(s) ==> optional_stop_field_is(*v, key@, s),
        r matches Err(e) ==> optional_field_error(*v, Expected::Text, e),
{
    match v {
        JsonValue::Object(_) => match get_field(v, key) {
            None => Ok(None),
            Some(JsonValue::Null) => Ok(None),
            Some(JsonValue::Str(t)) => Ok(Some(RegionalRailStop::from_name(t.as_str()))),
            Some(_) => Err(DecodeError::InvalidType { expected: Expected::Text }),
        },
        _ => Err(DecodeError::InvalidType { expected: Expected::Object }),
    }
}

/// The line that the string field `key` names.
pub open spec fn line_field(v: JsonValue, key: Seq<char>) -> Option<RegionalRailsLine> {
    match text_field(v, key) {
        Some(t) => RegionalRailsLine::spec_from_name(t),
        None => None,
    }
}

/// The line that the string field `key` names; a name of no line fails.
pub fn decode_line_field(v: &JsonValue, key: &str) -> (r: Result<RegionalRailsLine, DecodeError>)
    ensures
        match line_field(*v, key@) {
            Some(l) => r == Ok::<RegionalRailsLine, DecodeError>(l),
            None => r matches Err(e) && text_value_error(*v, key@, Expected::Line, e),
        },
{
    match decode_text_field(v, key) {
        Ok(t) => match RegionalRailsLine::from_name(t.as_str()) {
            Some(l) => Ok(l),
            None => Err(DecodeError::InvalidValue { value: t, expected: Expected::Line }),
        },
        Err(e) => Err(e),
    }
}

/// `s` is the service tier that the string field `key` names.
pub open spec fn service_field_is(v: JsonValue, key: Seq<char>, s: ServiceType) -> bool {
    text_field(v, key) matches Some(t) && s.read_from(t)
}

/// The service tier that the string field `key` names; an unknown name gives `Unknown`.
pub fn decode_service_field(v: &JsonValue, key: &str) -> (r: Result<ServiceType, DecodeError>)
    ensures
        r is Ok <==> text_field(*v, key@) is Some,
        r matches Ok(s) ==> service_field_is(*v, key@, s),
        r matches Err(e) ==> text_field_error(*v, key@, e),
{
    match decode_text_field(v, key) {
        Ok(t) => Ok(ServiceType::from_name(t.as_str())),
        Err(e) => Err(e),
    }
}

/// The date and time that the string field `key` holds.
pub open spec fn date_time_field(v: JsonValue, key: Seq<char>) -> Option<DateTime> {
    match text_field(v, key) {
        Some(t) => naive_date_time_parsed(t, DATE_TIME_FORMAT@),
        None => None,
    }
}

/// The date and time that the string field `key` holds.
pub fn decode_date_time_field(v: &JsonValue, key: &str) -> (r: Result<DateTime, DecodeError>)
    ensures
        match date_time_field(*v, key@) {
            Some(d) => r == Ok::<DateTime, DecodeError>(d),
            None => r matches Err(e) && text_value_error(*v, key@, Expected::DateTime, e),
        },
{
    match decode_text_field(v, key) {
        Ok(t) => deserialize_naive_date_time(t.as_str()),
        Err(e) => Err(e),
    }
}

/// The time of day that the string field `key` holds, written with or without a space
/// before AM or PM.
pub open spec fn time_field(v: JsonValue, key: Seq<char>, with_space: bool) -> Option<TimeOfDay> {
    match text_field(v, key) {
        Some(t) => naive_time_parsed(
            t,
            if with_space {
                TIME_FORMAT_WITH_SPACE@
            } else {
                TIME_FORMAT@
            },
        ),
        None => None,
    }
}

/// The time of day that the string field `key` holds.
pub fn decode_time_field(v: &JsonValue, key: &str, with_space: bool) -> (r: Result<TimeOfDay, DecodeError>)
    ensures
        match time_field(*v, key@, with_space) {
            Some(t) => r == Ok::<TimeOfDay, DecodeError>(t),
            None => r matches Err(e) && text_value_error(
                *v,
                key@,
                if with_space {
                    Expected::TimeOfDayWithSpace
                } else {
                    Expected::TimeOfDay
                },
                e,
            ),
        },
{
    match decode_text_field(v, key) {
        Ok(t) => if with_space {
            deserialize_naive_time_with_space(t.as_str())
        } else {
            deserialize_naive_time(t.as_str())
        },
        Err(e) => Err(e),
    }
}

/// The string field `key` holds `na`, giving `None`, or a time written as `9:08 pm`.
pub open spec fn optional_time_field(v: JsonValue, key: Seq<char>) -> Option<Option<TimeOfDay>> {
    match text_field(v, key) {
        Some(t) => if t == NOT_AVAILABLE@ {
            Some(None)
        } else {
            match naive_time_parsed(t, TIME_FORMAT_WITH_SPACE@) {
                Some(x) => Some(Some(x)),
                None => None,
            }
        },
        None => None,
    }
}

/// The string field `key`: `na`, or a time written as `9:08 pm`.
pub fn decode_optional_time_field(v: &JsonValue, key: &str) -> (r: Result<Option<TimeOfDay>, DecodeError>)
    ensures
        match optional_time_field(*v, key@) {
            Some(o) => r == Ok::<Option<TimeOfDay>, DecodeError>(o),
            None => r matches Err(e) && text_value_error(*v, key@, Expected::TimeOfDayWithSpace, e),
        },
{
    match decode_text_field(v, key) {
        Ok(t) => deserialize_option_naive_time_with_space(t.as_str()),
        Err(e) => Err(e),
    }
}

/// The boolean that the string field `key` spells.
pub open spec fn bool_field(v: JsonValue, key: Seq<char>) -> Option<bool> {
    match text_field(v, key) {
        Some(t) => bool_value(t),
        None => None,
    }
}

/// The boolean that the string field `key` spells, in any ASCII case.
pub fn decode_bool_field(v: &JsonValue, key: &str) -> (r: Result<bool, DecodeError>)
    ensures
        match bool_field(*v, key@) {
            Some(b) => r == Ok::<bool, DecodeError>(b),
            None => r matches Err(e) && text_value_error(*v, key@, Expected::Bool, e),
        },
{
    match decode_text_field(v, key) {
        Ok(t) => deserialize_bool(t.as_str()),
        Err(e) => Err(e),
    }
}

/// The integers of the comma-separated string field `key`.
pub open spec fn csv_field(v: JsonValue, key: Seq<char>) -> Option<Seq<i32>> {
    match text_field(v, key) {
        Some(t) => match csv_integers(t) {
            Ok(vals) => Some(vals),
            Err(_) => None,
        },
        None => None,
    }
}

/// `e` reports that the field `key` of `v` is missing, or names its first segment that is
/// not an integer.
pub open spec fn csv_field_error(v: JsonValue, key: Seq<char>, e: DecodeError) -> bool {
    match text_field(v, key) {
        None => text_field_error(v, key, e),
        Some(t) => csv_integers(t) matches Err(bad) && is_invalid_value(e, bad, Expected::IntegerList),
    }
}

/// The integers of the comma-separated string field `key`.
pub fn decode_csv_field(v: &JsonValue, key: &str) -> (r: Result<Vec<i32>, DecodeError>)
    ensures
        match csv_field(*v, key@) {
            Some(vals) => r matches Ok(x) && x@ == vals,
            None => r matches Err(e) && csv_field_error(*v, key@, e),
        },
{
    match decode_text_field(v, key) {
        Ok(t) => decode_csv_integers(t.as_str()),
        Err(e) => Err(e),
    }
}

/// The `i32` that the number field `key` holds.
pub open spec fn i32_field(v: JsonValue, key: Seq<char>) -> Option<i32> {
    match field_of(v, key) {
        Some(JsonValue::Number(t)) => i32_value(t@),
        _ => None,
    }
}

/// `e` reports that the field `key` of `v` is missing, not a number, or not an `i32`.
pub open spec fn i32_field_error(v: JsonValue, key: Seq<char>, e: DecodeError) -> bool {
    match field_of(v, key) {
        None => missing_error(v, key, e),
        Some(JsonValue::Number(t)) => is_invalid_value(e, t@, Expected::Integer),
        Some(_) => e == DecodeError::InvalidType { expected: Expected::Number },
    }
}

/// The `i32` that the number field `key` holds.
pub fn decode_i32_field(v: &JsonValue, key: &str) -> (r: Result<i32, DecodeError>)
    ensures
        match i32_field(*v, key@) {
            Some(n) => r == Ok::<i32, DecodeError>(n),
            None => r matches Err(e) && i32_field_error(*v, key@, e),
        },
{
    match require_field(v, key) {
        Ok(JsonValue::Number(t)) => match parse_i32(t.as_str()) {
            Some(n) => Ok(n),
            None => Err(DecodeError::InvalidValue { value: t.clone(), expected: Expected::Integer }),
        },
        Ok(_) => Err(DecodeError::InvalidType { expected: Expected::Number }),
        Err(e) => Err(e),
    }
}

/// The field `key` is missing, `null`, or a number; the text of a number.
pub open spec fn optional_number_field(v: JsonValue, key: Seq<char>) -> Option<Option<Seq<char>>> {
    match v {
        JsonValue::Object(entries) => match member(entries@, key) {
            None => Some(None),
            Some(JsonValue::Null) => Some(None),
            Some(JsonValue::Number(s)) => Some(Some(s@)),
            Some(_) => None,
        },
        _ => None,
    }
}

/// The optional number field `key`, as its text: absent or `null` gives `None`.
pub fn decode_optional_number_field(v: &JsonValue, key: &str) -> (r: Result<Option<String>, DecodeError>)
    ensures
        match optional_number_field(*v, key@) {
            Some(o) => r matches Ok(x) && opt_text_view(x) == o,
            None => r matches Err(e) && optional_field_error(*v, Expected::Number, e),
        },
{
    match v {
        JsonValue::Object(_) => match get_field(v, key) {
            None => Ok(None),
            Some(JsonValue::Null) => Ok(None),
            Some(JsonValue::Number(s)) => Ok(Some(s.clone())),
            Some(_) => Err(DecodeError::InvalidType { expected: Expected::Number }),
        },
        _ => Err(DecodeError::InvalidType { expected: Expected::Object }),
    }
}

/// A value that is `null`, giving `None`, or a string of comma-separated integers.
pub open spec fn optional_csv_value(v: JsonValue) -> Option<Option<Seq<i32>>> {
    match v {
        JsonValue::Null => Some(None),
        JsonValue::Str(t) => match csv_integers(t@) {
            Ok(vals) => Some(Some(vals)),
            Err(_) => None,
        },
        _ => None,
    }
}

/// The view of an optional list of integers.
pub open spec fn opt_ints_view(o: Option<Vec<i32>>) -> Option<Seq<i32>> {
    match o {
        Some(v) => Some(v@),
        None => None,
    }
}

/// Reads `null` as `None`, or a string of comma-separated integers.
pub fn deserialize_option_csv_encoded_string(v: &JsonValue) -> (r: Result<Option<Vec<i32>>, DecodeError>)
    ensures
        match optional_csv_value(*v) {
            Some(o) => r matches Ok(x) && opt_ints_view(x) == o,
            None => r matches Err(e) && match *v {
                JsonValue::Str(t) => csv_integers(t@) matches Err(bad) && is_invalid_value(
                    e,
                    bad,
                    Expected::IntegerList,
                ),
                _ => e == DecodeError::InvalidType { expected: Expected::Text },
            },
        },
{
    match v {
        JsonValue::Null => Ok(None),
        JsonValue::Str(t) => match decode_csv_integers(t.as_str()) {
            Ok(vals) => Ok(Some(vals)),
            Err(e) => Err(e),
        },
        _ => Err(DecodeError::InvalidType { expected: Expected::Text }),
    }
}

} // verus!
