use vstd::prelude::*;

use crate::deserialize::{DateTime, TimeOfDay};
use crate::errors::{DecodeError, Expected};
use crate::fields::{
    csv_field_error, i32_field_error, optional_field_error, text_field_error, text_value_error,
    bool_field, csv_field, date_time_field, decode_bool_field, decode_csv_field,
    decode_date_time_field, decode_i32_field, decode_line_field, decode_optional_number_field,
    decode_optional_stop_field, decode_optional_text_field, decode_optional_time_field,
    decode_service_field, decode_stop_field, decode_text_field, decode_time_field, i32_field,
    line_field, opt_text_view, optional_number_field, optional_stop_field_is,
    optional_stop_field_ok, optional_text_field, optional_time_field, service_field_is,
    stop_field_is, text_field, time_field,
};
use crate::json::{JsonValue, member, member_index};
use crate::requests::Direction;
use crate::types::{RegionalRailStop, RegionalRailsLine, ServiceType};

verus! {

/// A decoded payload: the expected result, or the error message that the feed sent instead.
#[derive(Debug)]
pub enum ApiResponse<T> {
    Response(T),
    Error(String),
}

/// One departure from a station.
#[derive(Debug, Clone)]
pub struct Arrivals {
    pub direction: String,
    pub path: String,
    pub train_id: String,
    pub origin: RegionalRailStop,
    pub destination: RegionalRailStop,
    pub line: RegionalRailsLine,
    pub status: String,
    pub service_type: ServiceType,
    pub next_station: Option<RegionalRailStop>,
    pub sched_time: DateTime,
    pub depart_time: DateTime,
    pub track: String,
    pub track_change: Option<String>,
    pub platform: String,
    pub platform_change: Option<String>,
}

impl Arrivals {
    /// `v` is an object from which an arrival record can be read.
    pub open spec fn decodable(v: JsonValue) -> bool {
        &&& text_field(v, "direction"@) is Some
        &&& text_field(v, "path"@) is Some
        &&& text_field(v, "train_id"@) is Some
        &&& text_field(v, "origin"@) is Some
        &&& text_field(v, "destination"@) is Some
        &&& line_field(v, "line"@) is Some
        &&& text_field(v, "status"@) is Some
        &&& text_field(v, "service_type"@) is Some
        &&& optional_stop_field_ok(v, "next_station"@)
        &&& date_time_field(v, "sched_time"@) is Some
        &&& date_time_field(v, "depart_time"@) is Some
        &&& text_field(v, "track"@) is Some
        &&& optional_text_field(v, "track_change"@) is Some
        &&& text_field(v, "platform"@) is Some
        &&& optional_text_field(v, "platform_change"@) is Some
    }

    /// `self` holds what the object `v` says, field by field.
    pub open spec fn decoded_from(self, v: JsonValue) -> bool {
        &&& text_field(v, "direction"@) == Some(self.direction@)
        &&& text_field(v, "path"@) == Some(self.path@)
        &&& text_field(v, "train_id"@) == Some(self.train_id@)
        &&& stop_field_is(v, "origin"@, self.origin)
        &&& stop_field_is(v, "destination"@, self.destination)
        &&& line_field(v, "line"@) == Some(self.line)
        &&& text_field(v, "status"@) == Some(self.status@)
        &&& service_field_is(v, "service_type"@, self.service_type)
        &&& optional_stop_field_is(v, "next_station"@, self.next_station)
        &&& date_time_field(v, "sched_time"@) == Some(self.sched_time)
        &&& date_time_field(v, "depart_time"@) == Some(self.depart_time)
        &&& text_field(v, "track"@) == Some(self.track@)
        &&& optional_text_field(v, "track_change"@) == Some(opt_text_view(self.track_change))
        &&& text_field(v, "platform"@) == Some(self.platform@)
        &&& optional_text_field(v, "platform_change"@) == Some(opt_text_view(self.platform_change))
    }

    /// `e` reports the first field of `v`, in the order of the record's fields, that cannot
    /// be read.
    pub open spec fn decode_error(v: JsonValue, e: DecodeError) -> bool {
        if text_field(v, "direction"@) is None {
            text_field_error(v, "direction"@, e)
        } else if text_field(v, "path"@) is None {
            text_field_error(v, "path"@, e)
        } else if text_field(v, "train_id"@) is None {
            text_field_error(v, "train_id"@, e)
        } else if text_field(v, "origin"@) is None {
            text_field_error(v, "origin"@, e)
        } else if text_field(v, "destination"@) is None {
            text_field_error(v, "destination"@, e)
        } else if line_field(v, "line"@) is None {
            text_value_error(v, "line"@, Expected::Line, e)
        } else if text_field(v, "status"@) is None {
            text_field_error(v, "status"@, e)
        } else if text_field(v, "service_type"@) is None {
            text_field_error(v, "service_type"@, e)
        } else if !optional_stop_field_ok(v, "next_station"@) {
            optional_field_error(v, Expected::Text, e)
        } else if date_time_field(v, "sched_time"@) is None {
            text_value_error(v, "sched_time"@, Expected::DateTime, e)
        } else if date_time_field(v, "depart_time"@) is None {
            text_value_error(v, "depart_time"@, Expected::DateTime, e)
        } else if text_field(v, "track"@) is None {
            text_field_error(v, "track"@, e)
        } else if optional_text_field(v, "track_change"@) is None {
            optional_field_error(v, Expected::Text, e)
        } else if text_field(v, "platform"@) is None {
            text_field_error(v, "platform"@, e)
        } else {
            optional_field_error(v, Expected::Text, e)
        }
    }

    /// Reads an arrival record.
    pub fn from_json(v: &JsonValue) -> (r: Result<Self, DecodeError>)
        ensures
            r matches Err(e) ==> Self::decode_error(*v, e),
            r is Ok <==> Self::decodable(*v),
            r matches Ok(a) ==> a.decoded_from(*v),
    {
        Ok(
            Arrivals {
                direction: decode_text_field(v, "direction")?,
                path: decode_text_field(v, "path")?,
                train_id: decode_text_field(v, "train_id")?,
                origin: decode_stop_field(v, "origin")?,
                destination: decode_stop_field(v, "destination")?,
                line: decode_line_field(v, "line")?,
                status: decode_text_field(v, "status")?,
                service_type: decode_service_field(v, "service_type")?,
                next_station: decode_optional_stop_field(v, "next_station")?,
                sched_time: decode_date_time_field(v, "sched_time")?,
                depart_time: decode_date_time_field(v, "depart_time")?,
                track: decode_text_field(v, "track")?,
                track_change: decode_optional_text_field(v, "track_change")?,
                platform: decode_text_field(v, "platform")?,
                platform_change: decode_optional_text_field(v, "platform_change")?,
            },
        )
    }
}

/// The live position of a train.
#[derive(Debug, Clone)]
pub struct Train {
    /// Latitude, as the decimal text that the feed sent.
    pub lat: String,
    /// Longitude, as the decimal text that the feed sent.
    pub lon: String,
    pub train_number: String,
    pub service: ServiceType,
    pub dest: RegionalRailStop,
    pub current_stop: RegionalRailStop,
    pub next_stop: RegionalRailStop,
    pub line: RegionalRailsLine,
    pub consist: Vec<i32>,
    /// Heading, as the decimal text that the feed sent.
    pub heading: Option<String>,
    pub late: i32,
    pub source: RegionalRailStop,
    pub track: String,
    pub track_change: String,
}

impl Train {
    /// `v` is an object from which a train record can be read.
    pub open spec fn decodable(v: JsonValue) -> bool {
        &&& text_field(v, "lat"@) is Some
        &&& text_field(v, "lon"@) is Some
        &&& text_field(v, "trainno"@) is Some
        &&& text_field(v, "service"@) is Some
        &&& text_field(v, "dest"@) is Some
        &&& text_field(v, "currentstop"@) is Some
        &&& text_field(v, "nextstop"@) is Some
        &&& line_field(v, "line"@) is Some
        &&& csv_field(v, "consist"@) is Some
        &&& optional_number_field(v, "heading"@) is Some
        &&& i32_field(v, "late"@) is Some
        &&& text_field(v, "SOURCE"@) is Some
        &&& text_field(v, "TRACK"@) is Some
        &&& text_field(v, "TRACK_CHANGE"@) is Some
    }

    /// `self` holds what the object `v` says, field by field.
    pub open spec fn decoded_from(self, v: JsonValue) -> bool {
        &&& text_field(v, "lat"@) == Some(self.lat@)
        &&& text_field(v, "lon"@) == Some(self.lon@)
        &&& text_field(v, "trainno"@) == Some(self.train_number@)
        &&& service_field_is(v, "service"@, self.service)
        &&& stop_field_is(v, "dest"@, self.dest)
        &&& stop_field_is(v, "currentstop"@, self.current_stop)
        &&& stop_field_is(v, "nextstop"@, self.next_stop)
        &&& line_field(v, "line"@) == Some(self.line)
        &&& csv_field(v, "consist"@) == Some(self.consist@)
        &&& optional_number_field(v, "heading"@) == Some(opt_text_view(self.heading))
        &&& i32_field(v, "late"@) == Some(self.late)
        &&& stop_field_is(v, "SOURCE"@, self.source)
        &&& text_field(v, "TRACK"@) == Some(self.track@)
        &&& text_field(v, "TRACK_CHANGE"@) == Some(self.track_change@)
    }

    /// `e` reports the first field of `v`, in the order of the record's fields, that cannot
    /// be read.
    pub open spec fn decode_error(v: JsonValue, e: DecodeError) -> bool {
        if text_field(v, "lat"@) is None {
            text_field_error(v, "lat"@, e)
        } else if text_field(v, "lon"@) is None {
            text_field_error(v, "lon"@, e)
        } else if text_field(v, "trainno"@) is None {
            text_field_error(v, "trainno"@, e)
        } else if text_field(v, "service"@) is None {
            text_field_error(v, "service"@, e)
        } else if text_field(v, "dest"@) is None {
            text_field_error(v, "dest"@, e)
        } else if text_field(v, "currentstop"@) is None {
            text_field_error(v, "currentstop"@, e)
        } else if text_field(v, "nextstop"@) is None {
            text_field_error(v, "nextstop"@, e)
        } else if line_field(v, "line"@) is None {
            text_value_error(v, "line"@, Expected::Line, e)
        } else if csv_field(v, "consist"@) is None {
            csv_field_error(v, "consist"@, e)
        } else if optional_number_field(v, "heading"@) is None {
            optional_field_error(v, Expected::Number, e)
        } else if i32_field(v, "late"@) is None {
            i32_field_error(v, "late"@, e)
        } else if text_field(v, "SOURCE"@) is None {
            text_field_error(v, "SOURCE"@, e)
        } else if text_field(v, "TRACK"@) is None {
            text_field_error(v, "TRACK"@, e)
        } else {
            text_field_error(v, "TRACK_CHANGE"@, e)
        }
    }

    /// Reads a train record.
    pub fn from_json(v: &JsonValue) -> (r: Result<Self, DecodeError>)
        ensures
            r matches Err(e) ==> Self::decode_error(*v, e),
            r is Ok <==> Self::decodable(*v),
            r matches Ok(t) ==> t.decoded_from(*v),
    {
        Ok(
            Train {
                lat: decode_text_field(v, "lat")?,
                lon: decode_text_field(v, "lon")?,
                train_number: decode_text_field(v, "trainno")?,
                service: decode_service_field(v, "service")?,
                dest: decode_stop_field(v, "dest")?,
                current_stop: decode_stop_field(v, "currentstop")?,
                next_stop: decode_stop_field(v, "nextstop")?,
                line: decode_line_field(v, "line")?,
                consist: decode_csv_field(v, "consist")?,
                heading: decode_optional_number_field(v, "heading")?,
                late: decode_i32_field(v, "late")?,
                source: decode_stop_field(v, "SOURCE")?,
                track: decode_text_field(v, "TRACK")?,
                track_change: decode_text_field(v, "TRACK_CHANGE")?,
            },
        )
    }
}

/// A connection between two stations.
#[derive(Debug, Clone)]
pub struct NextToArrive {
    pub orig_train: String,
    pub orig_line: RegionalRailsLine,
    pub orig_departure_time: TimeOfDay,
    pub orig_arrival_time: TimeOfDay,
    pub orig_delay: String,
    pub is_direct: bool,
}

impl NextToArrive {
    /// `v` is an object from which a connection record can be read.
    pub open spec fn decodable(v: JsonValue) -> bool {
        &&& text_field(v, "orig_train"@) is Some
        &&& line_field(v, "orig_line"@) is Some
        &&& time_field(v, "orig_departure_time"@, false) is Some
        &&& time_field(v, "orig_arrival_time"@, false) is Some
        &&& text_field(v, "orig_delay"@) is Some
        &&& bool_field(v, "isdirect"@) is Some
    }

    /// `self` holds what the object `v` says, field by field.
    pub open spec fn decoded_from(self, v: JsonValue) -> bool {
        &&& text_field(v, "orig_train"@) == Some(self.orig_train@)
        &&& line_field(v, "orig_line"@) == Some(self.orig_line)
        &&& time_field(v, "orig_departure_time"@, false) == Some(self.orig_departure_time)
        &&& time_field(v, "orig_arrival_time"@, false) == Some(self.orig_arrival_time)
        &&& text_field(v, "orig_delay"@) == Some(self.orig_delay@)
        &&& bool_field(v, "isdirect"@) == Some(self.is_direct)
    }

    /// `e` reports the first field of `v`, in the order of the record's fields, that cannot
    /// be read.
    pub open spec fn decode_error(v: JsonValue, e: DecodeError) -> bool {
        if text_field(v, "orig_train"@) is None {
            text_field_error(v, "orig_train"@, e)
        } else if line_field(v, "orig_line"@) is None {
            text_value_error(v, "orig_line"@, Expected::Line, e)
        } else if time_field(v, "orig_departure_time"@, false) is None {
            text_value_error(v, "orig_departure_time"@, Expected::TimeOfDay, e)
        } else if time_field(v, "orig_arrival_time"@, false) is None {
            text_value_error(v, "orig_arrival_time"@, Expected::TimeOfDay, e)
        } else if text_field(v, "orig_delay"@) is None {
            text_field_error(v, "orig_delay"@, e)
        } else {
            text_value_error(v, "isdirect"@, Expected::Bool, e)
        }
    }

    /// Reads a connection record.
    pub fn from_json(v: &JsonValue) -> (r: Result<Self, DecodeError>)
        ensures
            r matches Err(e) ==> Self::decode_error(*v, e),
            r is Ok <==> Self::decodable(*v),
            r matches Ok(n) ==> n.decoded_from(*v),
    {
        Ok(
            NextToArrive {
                orig_train: decode_text_field(v, "orig_train")?,
                orig_line: decode_line_field(v, "orig_line")?,
                orig_departure_time: decode_time_field(v, "orig_departure_time", false)?,
                orig_arrival_time: decode_time_field(v, "orig_arrival_time", false)?,
                orig_delay: decode_text_field(v, "orig_delay")?,
                is_direct: decode_bool_field(v, "isdirect")?,
            },
        )
    }
}

/// One stop of a train's schedule.
#[derive(Debug, Clone)]
pub struct RailSchedule {
    pub station: RegionalRailStop,
    pub scheduled_time: TimeOfDay,
    pub estimated_time: TimeOfDay,
    /// `None` while the train has not reached the stop.
    pub actual_time: Option<TimeOfDay>,
}

impl RailSchedule {
    /// `v` is an object from which a schedule record can be read.
    pub open spec fn decodable(v: JsonValue) -> bool {
        &&& text_field(v, "station"@) is Some
        &&& time_field(v, "sched_tm"@, true) is Some
        &&& time_field(v, "est_tm"@, true) is Some
        &&& optional_time_field(v, "act_tm"@) is Some
    }

    /// `self` holds what the object `v` says, field by field.
    pub open spec fn decoded_from(self, v: JsonValue) -> bool {
        &&& stop_field_is(v, "station"@, self.station)
        &&& time_field(v, "sched_tm"@, true) == Some(self.scheduled_time)
        &&& time_field(v, "est_tm"@, true) == Some(self.estimated_time)
        &&& optional_time_field(v, "act_tm"@) == Some(self.actual_time)
    }

    /// `e` reports the first field of `v`, in the order of the record's fields, that cannot
    /// be read.
    pub open spec fn decode_error(v: JsonValue, e: DecodeError) -> bool {
        if text_field(v, "station"@) is None {
            text_field_error(v, "station"@, e)
        } else if time_field(v, "sched_tm"@, true) is None {
            text_value_error(v, "sched_tm"@, Expected::TimeOfDayWithSpace, e)
        } else if time_field(v, "est_tm"@, true) is None {
            text_value_error(v, "est_tm"@, Expected::TimeOfDayWithSpace, e)
        } else {
            text_value_error(v, "act_tm"@, Expected::TimeOfDayWithSpace, e)
        }
    }

    /// Reads a schedule record.
    pub fn from_json(v: &JsonValue) -> (r: Result<Self, DecodeError>)
        ensures
            r matches Err(e) ==> Self::decode_error(*v, e),
            r is Ok <==> Self::decodable(*v),
            r matches Ok(s) ==> s.decoded_from(*v),
    {
        Ok(
            RailSchedule {
                station: decode_stop_field(v, "station")?,
                scheduled_time: decode_time_field(v, "sched_tm", true)?,
                estimated_time: decode_time_field(v, "est_tm", true)?,
                actual_time: decode_optional_time_field(v, "act_tm")?,
            },
        )
    }
}

/// The records of a JSON array: each element is decodable by `decodable`.
pub open spec fn array_items(v: JsonValue) -> Seq<JsonValue> {
    match v {
        JsonValue::Array(items) => items@,
        _ => Seq::empty(),
    }
}

/// `v` is an array of arrival records.
pub open spec fn arrivals_list_ok(v: JsonValue) -> bool {
    &&& v is Array
    &&& forall|j: int| 0 <= j < array_items(v).len() ==> Arrivals::decodable(#[trigger] array_items(v)[j])
}

/// `rs` are the records that the objects `js` hold, in order.
pub open spec fn arrivals_decoded(js: Seq<JsonValue>, rs: Seq<Arrivals>) -> bool {
    &&& js.len() == rs.len()
    &&& forall|j: int| 0 <= j < js.len() ==> (#[trigger] rs[j]).decoded_from(js[j])
}

/// `e` reports why `v` is not an array of arrival records: it is not an array, or the error of its first
/// element that is not a record.
pub open spec fn arrivals_list_error(v: JsonValue, e: DecodeError) -> bool {
    if v is Array {
        exists|j: int|
            0 <= j < array_items(v).len() && !Arrivals::decodable(#[trigger] array_items(v)[j])
                && Arrivals::decode_error(array_items(v)[j], e)
    } else {
        e == DecodeError::InvalidType { expected: Expected::Array }
    }
}

/// Reads an array of arrival records, in order.
pub fn decode_arrivals_list(v: &JsonValue) -> (r: Result<Vec<Arrivals>, DecodeError>)
    ensures
        r matches Err(e) ==> arrivals_list_error(*v, e),
        r is Ok <==> arrivals_list_ok(*v),
        r matches Ok(xs) ==> arrivals_decoded(array_items(*v), xs@),
{
    match v {
        JsonValue::Array(items) => {
            let mut out: Vec<Arrivals> = Vec::new();
            let mut j: usize = 0;
            while j < items.len()
                invariant
                    j <= items@.len(),
                    array_items(*v) == items@,
                    out@.len() == j,
                    forall|k: int| 0 <= k < j ==> Arrivals::decodable(#[trigger] items@[k]),
                    forall|k: int| 0 <= k < j ==> (#[trigger] out@[k]).decoded_from(items@[k]),
                decreases items@.len() - j,
            {
                let a = match Arrivals::from_json(&items[j]) {
                    Ok(x) => x,
                    Err(e) => {
                        assert(!Arrivals::decodable(array_items(*v)[j as int]));
                        return Err(e);
                    },
                };
                out.push(a);
                j += 1;
            }
            Ok(out)
        },
        _ => Err(DecodeError::InvalidType { expected: Expected::Array }),
    }
}

/// Why the arrivals envelope could not be normalised.
#[derive(Debug)]
pub enum EnvelopeFault {
    /// The payload is not an object.
    NotObject,
    /// The payload has another number of top-level keys than one.
    KeyCount(usize),
    /// The title's value is not an array.
    NotArray,
    /// An element is a non-empty array.
    UnknownShape,
    /// An element, carried here, is neither an array nor an object of arrival arrays.
    BadElement(JsonValue),
    /// Two elements supply the same direction.
    Duplicate(Direction),
}

/// The direction arrays found so far, each once supplied.
pub type Found = (Option<Seq<JsonValue>>, Option<Seq<JsonValue>>);

/// Every member of an element holds an array of arrival records.
pub open spec fn members_ok(entries: Seq<(String, JsonValue)>) -> bool {
    forall|i: int| 0 <= i < entries.len() ==> arrivals_list_ok(#[trigger] entries[i].1)
}

/// The key under which an element supplies northbound arrivals.
pub const NORTHBOUND: &'static str = "Northbound";

/// The key under which an element supplies southbound arrivals.
pub const SOUTHBOUND: &'static str = "Southbound";

/// One element of the envelope: an empty array is skipped, an object supplies the directions
/// it names, and anything else is a fault.
pub open spec fn envelope_step(acc: Result<Found, EnvelopeFault>, e: JsonValue) -> Result<
    Found,
    EnvelopeFault,
> {
    match acc {
        Err(f) => Err(f),
        Ok(found) => match e {
            JsonValue::Array(items) => if items@.len() == 0 {
                Ok(found)
            } else {
                Err(EnvelopeFault::UnknownShape)
            },
            JsonValue::Object(entries) => if !members_ok(entries@) {
                Err(EnvelopeFault::BadElement(e))
            } else {
                let n = member(entries@, NORTHBOUND@);
                let s = member(entries@, SOUTHBOUND@);
                if n is Some && found.0 is Some {
                    Err(EnvelopeFault::Duplicate(Direction::North))
                } else if s is Some && found.1 is Some {
                    Err(EnvelopeFault::Duplicate(Direction::South))
                } else {
                    Ok(
                        (
                            if n is Some {
                                Some(array_items(n.unwrap()))
                            } else {
                                found.0
                            },
                            if s is Some {
                                Some(array_items(s.unwrap()))
                            } else {
                                found.1
                            },
                        ),
                    )
                }
            },
            _ => Err(EnvelopeFault::BadElement(e)),
        },
    }
}

/// `e` reports why the members of an element are not all arrays of arrival records: the
/// error of the first member that is not.
pub open spec fn members_error(entries: Seq<(String, JsonValue)>, e: DecodeError) -> bool {
    exists|m: int|
        0 <= m < entries.len() && !arrivals_list_ok(#[trigger] entries[m].1) && (forall|k: int|
            0 <= k < m ==> arrivals_list_ok(#[trigger] entries[k].1)) && arrivals_list_error(
            entries[m].1,
            e,
        )
}

/// `e` reports why `el` is neither an array nor an object of arrival arrays.
pub open spec fn bad_element_error(el: JsonValue, e: DecodeError) -> bool {
    match el {
        JsonValue::Object(entries) => members_error(entries@, e),
        _ => e == DecodeError::InvalidType { expected: Expected::Object },
    }
}

/// The envelope's elements taken in order.
pub open spec fn envelope_walk(elems: Seq<JsonValue>) -> Result<Found, EnvelopeFault>
    decreases elems.len(),
{
    if elems.len() == 0 {
        Ok((None, None))
    } else {
        envelope_step(envelope_walk(elems.drop_last()), elems.last())
    }
}

/// What the envelope normaliser finds in `v`: the title, then the northbound and southbound
/// arrival objects, a missing direction being empty.
pub open spec fn envelope_plan(v: JsonValue) -> Result<
    (Seq<char>, Seq<JsonValue>, Seq<JsonValue>),
    EnvelopeFault,
> {
    match v {
        JsonValue::Object(entries) => if entries@.len() != 1 {
            Err(EnvelopeFault::KeyCount(entries.len()))
        } else {
            match entries@[0].1 {
                JsonValue::Array(elems) => match envelope_walk(elems@) {
                    Ok(found) => Ok(
                        (
                            entries@[0].0@,
                            match found.0 {
                                Some(n) => n,
                                None => Seq::empty(),
                            },
                            match found.1 {
                                Some(s) => s,
                                None => Seq::empty(),
                            },
                        ),
                    ),
                    Err(f) => Err(f),
                },
                _ => Err(EnvelopeFault::NotArray),
            }
        },
        _ => Err(EnvelopeFault::NotObject),
    }
}

/// `e` is the error that reports the fault `f`.
pub open spec fn reports(f: EnvelopeFault, e: DecodeError) -> bool {
    match f {
        EnvelopeFault::NotObject => e == DecodeError::InvalidType { expected: Expected::Object },
        EnvelopeFault::KeyCount(n) => e == DecodeError::KeyCount { found: n },
        EnvelopeFault::NotArray => e == DecodeError::InvalidType { expected: Expected::Array },
        EnvelopeFault::UnknownShape => e == DecodeError::UnknownElementShape,
        EnvelopeFault::BadElement(el) => bad_element_error(el, e),
        EnvelopeFault::Duplicate(d) => e == DecodeError::DuplicateDirection { direction: d },
    }
}

/// The departures from a station, split by direction.
#[derive(Debug, Clone)]
pub struct ArrivalsResponse {
    pub title: String,
    pub northbound: Vec<Arrivals>,
    pub southbound: Vec<Arrivals>,
}

/// `found` is the view of the arrivals read so far for one direction.
pub open spec fn found_decoded(found: Option<Seq<JsonValue>>, got: Option<Vec<Arrivals>>) -> bool {
    match found {
        Some(js) => got matches Some(rs) && arrivals_decoded(js, rs@),
        None => got is None,
    }
}

proof fn lemma_member_prefix(entries: Seq<(String, JsonValue)>, i: int, key: Seq<char>)
    requires
        0 <= i < entries.len(),
    ensures
        member(entries.subrange(0, i + 1), key) == (match member(entries.subrange(0, i), key) {
            Some(x) => Some(x),
            None => if entries[i].0@ == key {
                Some(entries[i].1)
            } else {
                None
            },
        }),
    decreases i,
{
    reveal_with_fuel(member, 2);
    let longer = entries.subrange(0, i + 1);
    let shorter = entries.subrange(0, i);
    assert(longer[0] == entries[0]);
    if i > 0 {
        assert(shorter[0] == entries[0]);
        assert(entries.drop_first()[i - 1] == entries[i]);
        lemma_member_prefix(entries.drop_first(), i - 1, key);
        assert(longer.drop_first() =~= entries.drop_first().subrange(0, i));
        assert(shorter.drop_first() =~= entries.drop_first().subrange(0, i - 1));
    } else {
        assert(longer.drop_first().len() == 0);
        assert(shorter.len() == 0);
    }
}

proof fn lemma_walk_err_absorbs(elems: Seq<JsonValue>, i: int)
    requires
        0 <= i <= elems.len(),
        envelope_walk(elems.subrange(0, i)) is Err,
    ensures
        envelope_walk(elems) == envelope_walk(elems.subrange(0, i)),
    decreases elems.len() - i,
{
    if i == elems.len() {
        assert(elems.subrange(0, i) =~= elems);
    } else {
        assert(elems.subrange(0, i + 1).drop_last() =~= elems.subrange(0, i));
        lemma_walk_err_absorbs(elems, i + 1);
    }
}

/// The arrivals of one element of the envelope: each member is read, and the first
/// northbound and southbound members are kept.
fn decode_element_members(entries: &Vec<(String, JsonValue)>) -> (r: Result<
    (Option<Vec<Arrivals>>, Option<Vec<Arrivals>>),
    DecodeError,
>)
    ensures
        r is Ok <==> members_ok(entries@),
        r matches Err(e) ==> members_error(entries@, e),
        r matches Ok(got) ==> {
            &&& found_decoded(
                match member(entries@, NORTHBOUND@) {
                    Some(x) => Some(array_items(x)),
                    None => None,
                },
                got.0,
            )
            &&& found_decoded(
                match member(entries@, SOUTHBOUND@) {
                    Some(x) => Some(array_items(x)),
                    None => None,
                },
                got.1,
            )
        },
{
    let mut north: Option<Vec<Arrivals>> = None;
    let mut south: Option<Vec<Arrivals>> = None;
    let north_key = String::from_str(NORTHBOUND);
    let south_key = String::from_str(SOUTHBOUND);
    let mut i: usize = 0;
    assert(entries@.subrange(0, 0) =~= Seq::<(String, JsonValue)>::empty());
    while i < entries.len()
        invariant
            i <= entries@.len(),
            north_key@ == NORTHBOUND@,
            south_key@ == SOUTHBOUND@,
            forall|k: int| 0 <= k < i ==> arrivals_list_ok(#[trigger] entries@[k].1),
            found_decoded(
                match member(entries@.subrange(0, i as int), NORTHBOUND@) {
                    Some(x) => Some(array_items(x)),
                    None => None,
                },
                north,
            ),
            found_decoded(
                match member(entries@.subrange(0, i as int), SOUTHBOUND@) {
                    Some(x) => Some(array_items(x)),
                    None => None,
                },
                south,
            ),
        decreases entries@.len() - i,
    {
        let list = match decode_arrivals_list(&entries[i].1) {
            Ok(list) => list,
            Err(e) => {
                assert(!arrivals_list_ok(entries@[i as int].1));
                return Err(e);
            },
        };
        proof {
            reveal_strlit("Northbound");
            reveal_strlit("Southbound");
            assert(NORTHBOUND@[0] != SOUTHBOUND@[0]);
            lemma_member_prefix(entries@, i as int, NORTHBOUND@);
            lemma_member_prefix(entries@, i as int, SOUTHBOUND@);
        }
        if north.is_none() && entries[i].0 == north_key {
            north = Some(list);
        } else if south.is_none() && entries[i].0 == south_key {
            south = Some(list);
        }
        i += 1;
    }
    assert(entries@.subrange(0, entries@.len() as int) =~= entries@);
    Ok((north, south))
}

impl ArrivalsResponse {
    /// Normalises the arrivals envelope: a single title key whose array holds empty arrays,
    /// which are skipped, and objects supplying `Northbound` and `Southbound` arrays, each at
    /// most once; a direction never supplied is empty.
    pub fn from_json(v: &JsonValue) -> (r: Result<Self, DecodeError>)
        ensures
            match envelope_plan(*v) {
                Ok((title, north, south)) => r matches Ok(a) && {
                    &&& a.title@ == title
                    &&& arrivals_decoded(north, a.northbound@)
                    &&& arrivals_decoded(south, a.southbound@)
                },
                Err(f) => r matches Err(e) && reports(f, e),
            },
    {
        let entries = match v {
            JsonValue::Object(entries) => entries,
            _ => {
                return Err(DecodeError::InvalidType { expected: Expected::Object });
            },
        };
        if entries.len() != 1 {
            return Err(DecodeError::KeyCount { found: entries.len() });
        }
        let elems = match &entries[0].1 {
            JsonValue::Array(elems) => elems,
            _ => {
                return Err(DecodeError::InvalidType { expected: Expected::Array });
            },
        };
        let mut north: Option<Vec<Arrivals>> = None;
        let mut south: Option<Vec<Arrivals>> = None;
        let mut i: usize = 0;
        assert(elems@.subrange(0, 0) =~= Seq::<JsonValue>::empty());
        while i < elems.len()
            invariant
                i <= elems@.len(),
                *v == JsonValue::Object(*entries),
                entries@.len() == 1,
                entries@[0].1 == JsonValue::Array(*elems),
                envelope_walk(elems@.subrange(0, i as int)) matches Ok(found) && found_decoded(
                    found.0,
                    north,
                ) && found_decoded(found.1, south),
            decreases elems@.len() - i,
        {
            let ghost before = elems@.subrange(0, i as int);
            let ghost after = elems@.subrange(0, i + 1);
            assert(after.drop_last() =~= before);
            assert(after.last() == elems@[i as int]);
            match &elems[i] {
                JsonValue::Array(items) => {
                    if items.len() != 0 {
                        proof {
                            assert(envelope_walk(after) == Err::<Found, EnvelopeFault>(
                                EnvelopeFault::UnknownShape,
                            ));
                            lemma_walk_err_absorbs(elems@, i + 1);
                        }
                        return Err(DecodeError::UnknownElementShape);
                    }
                },
                JsonValue::Object(members) => {
                    let got = match decode_element_members(members) {
                        Ok(got) => got,
                        Err(e) => {
                            proof {
                                assert(envelope_walk(after) == Err::<Found, EnvelopeFault>(
                                    EnvelopeFault::BadElement(elems@[i as int]),
                                ));
                                lemma_walk_err_absorbs(elems@, i + 1);
                            }
                            return Err(e);
                        },
                    };
                    let (n, s) = got;
                    if n.is_some() {
                        if north.is_some() {
                            proof {
                                lemma_walk_err_absorbs(elems@, i + 1);
                            }
                            return Err(DecodeError::DuplicateDirection { direction: Direction::North });
                        }
                    }
                    if s.is_some() {
                        if south.is_some() {
                            proof {
                                lemma_walk_err_absorbs(elems@, i + 1);
                            }
                            return Err(DecodeError::DuplicateDirection { direction: Direction::South });
                        }
                    }
                    if n.is_some() {
                        north = n;
                    }
                    if s.is_some() {
                        south = s;
                    }
                },
                _ => {
                    proof {
                        lemma_walk_err_absorbs(elems@, i + 1);
                    }
                    return Err(DecodeError::InvalidType { expected: Expected::Object });
                },
            }
            i += 1;
        }
        assert(elems@.subrange(0, elems@.len() as int) =~= elems@);
        let title = entries[0].0.clone();
        let northbound = match north {
            Some(n) => n,
            None => Vec::new(),
        };
        let southbound = match south {
            Some(s) => s,
            None => Vec::new(),
        };
        Ok(ArrivalsResponse { title, northbound, southbound })
    }
}

/// Why a payload is not an error envelope.
#[derive(Clone, Copy, Debug, PartialEq, Eq, Structural)]
pub enum ErrorEnvelopeFault {
    /// The payload is not an array.
    NotArray,
    /// An element is not an object of strings.
    BadElement,
    /// An element follows the one that carried the error.
    Multiple,
    /// No element carried an error.
    Missing,
}

/// The key under which an error envelope carries its message.
pub const ERROR_KEY: &'static str = "error";

/// An element of an error envelope: an object whose members are all strings.
pub open spec fn error_element_ok(e: JsonValue) -> bool {
    e matches JsonValue::Object(entries) && forall|i: int|
        0 <= i < entries@.len() ==> (#[trigger] entries@[i]).1 is Str
}

/// The error message carried by an element, if it has an `error` member.
pub open spec fn element_error(e: JsonValue) -> Option<Seq<char>> {
    match e {
        JsonValue::Object(entries) => match member(entries@, ERROR_KEY@) {
            Some(JsonValue::Str(m)) => Some(m@),
            _ => None,
        },
        _ => None,
    }
}

/// The elements of an error envelope taken in order: once an element has carried the error,
/// any further element is a fault.
pub open spec fn error_walk(elems: Seq<JsonValue>) -> Result<Option<Seq<char>>, ErrorEnvelopeFault>
    decreases elems.len(),
{
    if elems.len() == 0 {
        Ok(None)
    } else {
        match error_walk(elems.drop_last()) {
            Err(f) => Err(f),
            Ok(found) => if !error_element_ok(elems.last()) {
                Err(ErrorEnvelopeFault::BadElement)
            } else if found is Some {
                Err(ErrorEnvelopeFault::Multiple)
            } else {
                Ok(element_error(elems.last()))
            },
        }
    }
}

/// The message of an error envelope: an array of objects of strings, exactly one of which,
/// the last, carries an `error` member.
pub open spec fn error_message(v: JsonValue) -> Result<Seq<char>, ErrorEnvelopeFault> {
    match v {
        JsonValue::Array(elems) => match error_walk(elems@) {
            Ok(Some(m)) => Ok(m),
            Ok(None) => Err(ErrorEnvelopeFault::Missing),
            Err(f) => Err(f),
        },
        _ => Err(ErrorEnvelopeFault::NotArray),
    }
}

/// `e` is the error that reports the fault `f`.
pub open spec fn reports_error_fault(f: ErrorEnvelopeFault, e: DecodeError) -> bool {
    match f {
        ErrorEnvelopeFault::NotArray => e == DecodeError::InvalidType { expected: Expected::Array },
        ErrorEnvelopeFault::BadElement => e == DecodeError::InvalidType { expected: Expected::Object },
        ErrorEnvelopeFault::Multiple => e == DecodeError::MultipleErrors,
        ErrorEnvelopeFault::Missing => e == DecodeError::NoErrorMessage,
    }
}

fn check_error_element(e: &JsonValue) -> (r: Result<Option<String>, DecodeError>)
    ensures
        match r {
            Ok(m) => error_element_ok(*e) && opt_text_view(m) == element_error(*e),
            Err(x) => !error_element_ok(*e) && x == DecodeError::InvalidType {
                expected: Expected::Object,
            },
        },
{
    match e {
        JsonValue::Object(entries) => {
            let mut i: usize = 0;
            while i < entries.len()
                invariant
                    i <= entries@.len(),
                    *e == JsonValue::Object(*entries),
                    forall|k: int| 0 <= k < i ==> (#[trigger] entries@[k]).1 is Str,
                decreases entries@.len() - i,
            {
                match &entries[i].1 {
                    JsonValue::Str(_) => {},
                    _ => {
                        return Err(DecodeError::InvalidType { expected: Expected::Object });
                    },
                }
                i += 1;
            }
            match member_index(entries, ERROR_KEY) {
                Some(k) => match &entries[k].1 {
                    JsonValue::Str(m) => Ok(Some(m.clone())),
                    _ => Ok(None),
                },
                None => Ok(None),
            }
        },
        _ => Err(DecodeError::InvalidType { expected: Expected::Object }),
    }
}

/// Reads the message of an error envelope.
pub fn deserialize_api_error(v: &JsonValue) -> (r: Result<String, DecodeError>)
    ensures
        match error_message(*v) {
            Ok(m) => r matches Ok(s) && s@ == m,
            Err(f) => r matches Err(e) && reports_error_fault(f, e),
        },
{
    let elems = match v {
        JsonValue::Array(elems) => elems,
        _ => {
            return Err(DecodeError::InvalidType { expected: Expected::Array });
        },
    };
    let mut found: Option<String> = None;
    let mut i: usize = 0;
    assert(elems@.subrange(0, 0) =~= Seq::<JsonValue>::empty());
    while i < elems.len()
        invariant
            i <= elems@.len(),
            *v == JsonValue::Array(*elems),
            error_walk(elems@.subrange(0, i as int)) == Ok::<
                Option<Seq<char>>,
                ErrorEnvelopeFault,
            >(opt_text_view(found)),
        decreases elems@.len() - i,
    {
        let ghost before = elems@.subrange(0, i as int);
        let ghost after = elems@.subrange(0, i + 1);
        assert(after.drop_last() =~= before);
        assert(after.last() == elems@[i as int]);
        let message = match check_error_element(&elems[i]) {
            Ok(m) => m,
            Err(e) => {
                proof {
                    lemma_error_walk_absorbs(elems@, i + 1);
                }
                return Err(e);
            },
        };
        if found.is_some() {
            proof {
                lemma_error_walk_absorbs(elems@, i + 1);
            }
            return Err(DecodeError::MultipleErrors);
        }
        found = message;
        i += 1;
    }
    assert(elems@.subrange(0, elems@.len() as int) =~= elems@);
    match found {
        Some(m) => Ok(m),
        None => Err(DecodeError::NoErrorMessage),
    }
}

proof fn lemma_error_walk_absorbs(elems: Seq<JsonValue>, i: int)
    requires
        0 <= i <= elems.len(),
        error_walk(elems.subrange(0, i)) is Err,
    ensures
        error_walk(elems) == error_walk(elems.subrange(0, i)),
    decreases elems.len() - i,
{
    if i == elems.len() {
        assert(elems.subrange(0, i) =~= elems);
    } else {
        assert(elems.subrange(0, i + 1).drop_last() =~= elems.subrange(0, i));
        lemma_error_walk_absorbs(elems, i + 1);
    }
}

/// The outcome of a payload: the result read as the expected shape, or else the message of
/// the error envelope; where neither reads, the failure of the expected shape.
pub open spec fn discriminated<T>(success: Result<T, DecodeError>, v: JsonValue, r: Result<
    ApiResponse<T>,
    DecodeError,
>) -> bool {
    match success {
        Ok(t) => r == Ok::<ApiResponse<T>, DecodeError>(ApiResponse::Response(t)),
        Err(e) => match error_message(v) {
            Ok(m) => r matches Ok(ApiResponse::Error(s)) && s@ == m,
            Err(_) => r == Err::<ApiResponse<T>, DecodeError>(e),
        },
    }
}

/// Tells a result from an error envelope: `success` is the payload `v` read as the expected
/// shape; only where that failed is `v` read as an error envelope.
pub fn discriminate<T>(success: Result<T, DecodeError>, v: &JsonValue) -> (r: Result<
    ApiResponse<T>,
    DecodeError,
>)
    ensures
        discriminated(success, *v, r),
{
    match success {
        Ok(t) => Ok(ApiResponse::Response(t)),
        Err(e) => match deserialize_api_error(v) {
            Ok(m) => Ok(ApiResponse::Error(m)),
            Err(_) => Err(e),
        },
    }
}

/// `v` is an array of train records.
pub open spec fn trains_ok(v: JsonValue) -> bool {
    &&& v is Array
    &&& forall|j: int| 0 <= j < array_items(v).len() ==> Train::decodable(#[trigger] array_items(v)[j])
}

/// `ts` are the trains that the array `v` holds, in order.
pub open spec fn trains_decoded(v: JsonValue, ts: Seq<Train>) -> bool {
    &&& array_items(v).len() == ts.len()
    &&& forall|j: int| 0 <= j < ts.len() ==> (#[trigger] ts[j]).decoded_from(array_items(v)[j])
}

/// `e` reports why `v` is not an array of train records: it is not an array, or the error of its first
/// element that is not a record.
pub open spec fn trains_error(v: JsonValue, e: DecodeError) -> bool {
    if v is Array {
        exists|j: int|
            0 <= j < array_items(v).len() && !Train::decodable(#[trigger] array_items(v)[j])
                && Train::decode_error(array_items(v)[j], e)
    } else {
        e == DecodeError::InvalidType { expected: Expected::Array }
    }
}

/// Reads an array of train records.
pub fn decode_trains(v: &JsonValue) -> (r: Result<Vec<Train>, DecodeError>)
    ensures
        r matches Err(e) ==> trains_error(*v, e),
        r is Ok <==> trains_ok(*v),
        r matches Ok(ts) ==> trains_decoded(*v, ts@),
{
    match v {
        JsonValue::Array(items) => {
            let mut out: Vec<Train> = Vec::new();
            let mut j: usize = 0;
            while j < items.len()
                invariant
                    j <= items@.len(),
                    array_items(*v) == items@,
                    out@.len() == j,
                    forall|k: int| 0 <= k < j ==> Train::decodable(#[trigger] items@[k]),
                    forall|k: int| 0 <= k < j ==> (#[trigger] out@[k]).decoded_from(items@[k]),
                decreases items@.len() - j,
            {
                let t = match Train::from_json(&items[j]) {
                    Ok(x) => x,
                    Err(e) => {
                        assert(!Train::decodable(array_items(*v)[j as int]));
                        return Err(e);
                    },
                };
                out.push(t);
                j += 1;
            }
            Ok(out)
        },
        _ => Err(DecodeError::InvalidType { expected: Expected::Array }),
    }
}

/// `v` is an array of connection records.
pub open spec fn connections_ok(v: JsonValue) -> bool {
    &&& v is Array
    &&& forall|j: int|
        0 <= j < array_items(v).len() ==> NextToArrive::decodable(#[trigger] array_items(v)[j])
}

/// `ns` are the connections that the array `v` holds, in order.
pub open spec fn connections_decoded(v: JsonValue, ns: Seq<NextToArrive>) -> bool {
    &&& array_items(v).len() == ns.len()
    &&& forall|j: int| 0 <= j < ns.len() ==> (#[trigger] ns[j]).decoded_from(array_items(v)[j])
}

/// `e` reports why `v` is not an array of connection records: it is not an array, or the error of its first
/// element that is not a record.
pub open spec fn connections_error(v: JsonValue, e: DecodeError) -> bool {
    if v is Array {
        exists|j: int|
            0 <= j < array_items(v).len() && !NextToArrive::decodable(#[trigger] array_items(v)[j])
                && NextToArrive::decode_error(array_items(v)[j], e)
    } else {
        e == DecodeError::InvalidType { expected: Expected::Array }
    }
}

/// Reads an array of connection records.
pub fn decode_connections(v: &JsonValue) -> (r: Result<Vec<NextToArrive>, DecodeError>)
    ensures
        r matches Err(e) ==> connections_error(*v, e),
        r is Ok <==> connections_ok(*v),
        r matches Ok(ns) ==> connections_decoded(*v, ns@),
{
    match v {
        JsonValue::Array(items) => {
            let mut out: Vec<NextToArrive> = Vec::new();
            let mut j: usize = 0;
            while j < items.len()
                invariant
                    j <= items@.len(),
                    array_items(*v) == items@,
                    out@.len() == j,
                    forall|k: int| 0 <= k < j ==> NextToArrive::decodable(#[trigger] items@[k]),
                    forall|k: int| 0 <= k < j ==> (#[trigger] out@[k]).decoded_from(items@[k]),
                decreases items@.len() - j,
            {
                let n = match NextToArrive::from_json(&items[j]) {
                    Ok(x) => x,
                    Err(e) => {
                        assert(!NextToArrive::decodable(array_items(*v)[j as int]));
                        return Err(e);
                    },
                };
                out.push(n);
                j += 1;
            }
            Ok(out)
        },
        _ => Err(DecodeError::InvalidType { expected: Expected::Array }),
    }
}

/// `v` is an array of schedule records.
pub open spec fn schedule_ok(v: JsonValue) -> bool {
    &&& v is Array
    &&& forall|j: int|
        0 <= j < array_items(v).len() ==> RailSchedule::decodable(#[trigger] array_items(v)[j])
}

/// `ss` are the schedule stops that the array `v` holds, in order.
pub open spec fn schedule_decoded(v: JsonValue, ss: Seq<RailSchedule>) -> bool {
    &&& array_items(v).len() == ss.len()
    &&& forall|j: int| 0 <= j < ss.len() ==> (#[trigger] ss[j]).decoded_from(array_items(v)[j])
}

/// `e` reports why `v` is not an array of schedule records: it is not an array, or the error of its first
/// element that is not a record.
pub open spec fn schedule_error(v: JsonValue, e: DecodeError) -> bool {
    if v is Array {
        exists|j: int|
            0 <= j < array_items(v).len() && !RailSchedule::decodable(#[trigger] array_items(v)[j])
                && RailSchedule::decode_error(array_items(v)[j], e)
    } else {
        e == DecodeError::InvalidType { expected: Expected::Array }
    }
}

/// Reads an array of schedule records.
pub fn decode_schedule(v: &JsonValue) -> (r: Result<Vec<RailSchedule>, DecodeError>)
    ensures
        r matches Err(e) ==> schedule_error(*v, e),
        r is Ok <==> schedule_ok(*v),
        r matches Ok(ss) ==> schedule_decoded(*v, ss@),
{
    match v {
        JsonValue::Array(items) => {
            let mut out: Vec<RailSchedule> = Vec::new();
            let mut j: usize = 0;
            while j < items.len()
                invariant
                    j <= items@.len(),
                    array_items(*v) == items@,
                    out@.len() == j,
                    forall|k: int| 0 <= k < j ==> RailSchedule::decodable(#[trigger] items@[k]),
                    forall|k: int| 0 <= k < j ==> (#[trigger] out@[k]).decoded_from(items@[k]),
                decreases items@.len() - j,
            {
                let s = match RailSchedule::from_json(&items[j]) {
                    Ok(x) => x,
                    Err(e) => {
                        assert(!RailSchedule::decodable(array_items(*v)[j as int]));
                        return Err(e);
                    },
                };
                out.push(s);
                j += 1;
            }
            Ok(out)
        },
        _ => Err(DecodeError::InvalidType { expected: Expected::Array }),
    }
}

/// The train positions, or the feed's error message.
pub fn decode_train_response(v: &JsonValue) -> (r: Result<ApiResponse<Vec<Train>>, DecodeError>)
    ensures
        trains_ok(*v) ==> (r matches Ok(ApiResponse::Response(ts)) && trains_decoded(*v, ts@)),
        !trains_ok(*v) ==> match error_message(*v) {
            Ok(m) => r matches Ok(ApiResponse::Error(s)) && s@ == m,
            Err(_) => r matches Err(e) && trains_error(*v, e),
        },
{
    discriminate(decode_trains(v), v)
}

/// The departures from a station, or the feed's error message.
pub fn decode_arrivals_response(v: &JsonValue) -> (r: Result<ApiResponse<ArrivalsResponse>, DecodeError>)
    ensures
        envelope_plan(*v) matches Ok((title, north, south)) ==> (r matches Ok(
            ApiResponse::Response(a),
        ) && {
            &&& a.title@ == title
            &&& arrivals_decoded(north, a.northbound@)
            &&& arrivals_decoded(south, a.southbound@)
        }),
        envelope_plan(*v) matches Err(f) ==> match error_message(*v) {
            Ok(m) => r matches Ok(ApiResponse::Error(s)) && s@ == m,
            Err(_) => r matches Err(e) && reports(f, e),
        },
{
    discriminate(ArrivalsResponse::from_json(v), v)
}

/// The connections between two stations, or the feed's error message.
pub fn decode_next_to_arrive_response(v: &JsonValue) -> (r: Result<
    ApiResponse<Vec<NextToArrive>>,
    DecodeError,
>)
    ensures
        connections_ok(*v) ==> (r matches Ok(ApiResponse::Response(ns)) && connections_decoded(
            *v,
            ns@,
        )),
        !connections_ok(*v) ==> match error_message(*v) {
            Ok(m) => r matches Ok(ApiResponse::Error(s)) && s@ == m,
            Err(_) => r matches Err(e) && connections_error(*v, e),
        },
{
    discriminate(decode_connections(v), v)
}

/// A train's schedule, or the feed's error message.
pub fn decode_rail_schedule_response(v: &JsonValue) -> (r: Result<
    ApiResponse<Vec<RailSchedule>>,
    DecodeError,
>)
    ensures
        schedule_ok(*v) ==> (r matches Ok(ApiResponse::Response(ss)) && schedule_decoded(*v, ss@)),
        !schedule_ok(*v) ==> match error_message(*v) {
            Ok(m) => r matches Ok(ApiResponse::Error(s)) && s@ == m,
            Err(_) => r matches Err(e) && schedule_error(*v, e),
        },
{
    discriminate(decode_schedule(v), v)
}

/// `v` is an envelope: an object with a single title whose value is an array.
pub open spec fn is_envelope(v: JsonValue) -> bool {
    v matches JsonValue::Object(entries) && entries@.len() == 1 && entries@[0].1 is Array
}

/// The title of an envelope.
pub open spec fn envelope_title(v: JsonValue) -> Seq<char> {
    match v {
        JsonValue::Object(entries) => entries@[0].0@,
        _ => Seq::empty(),
    }
}

/// The elements of an envelope.
pub open spec fn envelope_elements(v: JsonValue) -> Seq<JsonValue> {
    match v {
        JsonValue::Object(entries) => array_items(entries@[0].1),
        _ => Seq::empty(),
    }
}

/// The member `key` of an element that is an object of arrival arrays.
pub open spec fn element_member(e: JsonValue, key: Seq<char>) -> Option<JsonValue> {
    match e {
        JsonValue::Object(entries) => if members_ok(entries@) {
            member(entries@, key)
        } else {
            None
        },
        _ => None,
    }
}

/// An element that is an object of arrival arrays.
pub open spec fn is_arrivals_object(e: JsonValue) -> bool {
    e matches JsonValue::Object(entries) && members_ok(entries@)
}

proof fn lemma_walk_empty_arrays(elems: Seq<JsonValue>)
    requires
        forall|i: int| 0 <= i < elems.len() ==> (#[trigger] elems[i] matches JsonValue::Array(items) && items@.len() == 0),
    ensures
        envelope_walk(elems) == Ok::<Found, EnvelopeFault>((None, None)),
    decreases elems.len(),
{
    if elems.len() > 0 {
        lemma_walk_empty_arrays(elems.drop_last());
        assert(elems.last() == elems[elems.len() - 1]);
    }
}

/// An envelope whose elements are all empty arrays has no arrivals in either direction.
pub proof fn lemma_all_empty_elements(v: JsonValue)
    requires
        is_envelope(v),
        forall|i: int|
            0 <= i < envelope_elements(v).len() ==> (#[trigger] envelope_elements(v)[i] matches JsonValue::Array(
                items,
            ) && items@.len() == 0),
    ensures
        envelope_plan(v) == Ok::<(Seq<char>, Seq<JsonValue>, Seq<JsonValue>), EnvelopeFault>(
            (envelope_title(v), Seq::empty(), Seq::empty()),
        ),
{
    lemma_walk_empty_arrays(envelope_elements(v));
}

/// An envelope whose one element supplies only `Northbound` has those arrivals northbound and
/// none southbound.
pub proof fn lemma_one_direction(v: JsonValue)
    requires
        is_envelope(v),
        envelope_elements(v).len() == 1,
        is_arrivals_object(envelope_elements(v)[0]),
        element_member(envelope_elements(v)[0], NORTHBOUND@) is Some,
        element_member(envelope_elements(v)[0], SOUTHBOUND@) is None,
    ensures
        envelope_plan(v) == Ok::<(Seq<char>, Seq<JsonValue>, Seq<JsonValue>), EnvelopeFault>(
            (
                envelope_title(v),
                array_items(element_member(envelope_elements(v)[0], NORTHBOUND@).unwrap()),
                Seq::empty(),
            ),
        ),
{
    reveal_with_fuel(envelope_walk, 2);
    let elems = envelope_elements(v);
    assert(elems.drop_last().len() == 0);
    assert(elems.last() == elems[0]);
}

/// The key under which an element supplies arrivals in direction `d`.
pub open spec fn direction_key(d: Direction) -> Seq<char> {
    match d {
        Direction::North => NORTHBOUND@,
        Direction::South => SOUTHBOUND@,
    }
}

/// The arrivals found so far in direction `d`.
pub open spec fn found_in(found: Found, d: Direction) -> Option<Seq<JsonValue>> {
    match d {
        Direction::North => found.0,
        Direction::South => found.1,
    }
}

/// An element that is an empty array or an object of arrival arrays.
pub open spec fn is_well_shaped(e: JsonValue) -> bool {
    (e matches JsonValue::Array(items) && items@.len() == 0) || is_arrivals_object(e)
}

/// A walk over well-shaped elements only fails on a duplicate direction.
proof fn lemma_walk_well_shaped(elems: Seq<JsonValue>)
    requires
        forall|k: int| 0 <= k < elems.len() ==> is_well_shaped(#[trigger] elems[k]),
    ensures
        envelope_walk(elems) is Ok || envelope_walk(elems) matches Err(EnvelopeFault::Duplicate(_)),
    decreases elems.len(),
{
    if elems.len() > 0 {
        let prev = elems.drop_last();
        assert forall|k: int| 0 <= k < prev.len() implies is_well_shaped(#[trigger] prev[k]) by {
            assert(prev[k] == elems[k]);
        }
        lemma_walk_well_shaped(prev);
        assert(is_well_shaped(elems[elems.len() - 1]));
    }
}

/// Once an element has supplied direction `d`, a walk over well-shaped elements has either
/// failed on a duplicate or still holds arrivals for `d`.
proof fn lemma_walk_supplied(elems: Seq<JsonValue>, i: int, d: Direction)
    requires
        0 <= i < elems.len(),
        forall|k: int| 0 <= k < elems.len() ==> is_well_shaped(#[trigger] elems[k]),
        element_member(elems[i], direction_key(d)) is Some,
    ensures
        envelope_walk(elems) matches Err(EnvelopeFault::Duplicate(_)) || (envelope_walk(
            elems,
        ) matches Ok(found) && found_in(found, d) is Some),
    decreases elems.len(),
{
    let prev = elems.drop_last();
    let last = elems[elems.len() - 1];
    assert(is_well_shaped(last));
    assert forall|k: int| 0 <= k < prev.len() implies is_well_shaped(#[trigger] prev[k]) by {
        assert(prev[k] == elems[k]);
    }
    if i < elems.len() - 1 {
        assert(prev[i] == elems[i]);
        lemma_walk_supplied(prev, i, d);
    } else {
        lemma_walk_well_shaped(prev);
    }
}

/// An envelope in which two elements supply the same direction, with only empty arrays and
/// objects of arrival arrays up to the second of them, is refused as a duplicate: the two
/// lists are never merged.
pub proof fn lemma_duplicate_direction(v: JsonValue, i: int, j: int, d: Direction)
    requires
        is_envelope(v),
        0 <= i < j < envelope_elements(v).len(),
        forall|k: int| 0 <= k <= j ==> is_well_shaped(#[trigger] envelope_elements(v)[k]),
        element_member(envelope_elements(v)[i], direction_key(d)) is Some,
        element_member(envelope_elements(v)[j], direction_key(d)) is Some,
    ensures
        envelope_plan(v) matches Err(EnvelopeFault::Duplicate(_)),
{
    let elems = envelope_elements(v);
    let before = elems.subrange(0, j);
    let upto = elems.subrange(0, j + 1);
    assert forall|k: int| 0 <= k < before.len() implies is_well_shaped(#[trigger] before[k]) by {
        assert(before[k] == elems[k]);
    }
    assert(before[i] == elems[i]);
    lemma_walk_supplied(before, i, d);
    assert(upto.drop_last() =~= before);
    assert(upto.last() == elems[j]);
    assert(envelope_walk(upto) matches Err(EnvelopeFault::Duplicate(_)));
    lemma_walk_err_absorbs(elems, j + 1);
}

proof fn lemma_member_is_some_entry(entries: Seq<(String, JsonValue)>, key: Seq<char>)
    requires
        member(entries, key) is Some,
    ensures
        exists|k: int| 0 <= k < entries.len() && entries[k].1 == member(entries, key).unwrap(),
    decreases entries.len(),
{
    if entries[0].0@ != key {
        lemma_member_is_some_entry(entries.drop_first(), key);
        let k = choose|k: int|
            0 <= k < entries.drop_first().len() && entries.drop_first()[k].1 == member(
                entries.drop_first(),
                key,
            ).unwrap();
        assert(entries[k + 1].1 == member(entries, key).unwrap());
    } else {
        assert(entries[0].1 == member(entries, key).unwrap());
    }
}

proof fn lemma_error_walk_found(elems: Seq<JsonValue>)
    requires
        error_walk(elems) matches Ok(Some(_)),
    ensures
        elems.len() > 0,
        error_element_ok(elems.last()),
{
}

/// A payload that reads as an error envelope is never a list of trains, nor an arrivals
/// envelope: such a payload decodes to the feed's error message.
pub proof fn lemma_error_envelope_is_failure(v: JsonValue)
    requires
        error_message(v) is Ok,
    ensures
        !trains_ok(v),
        envelope_plan(v) is Err,
{
    let elems = array_items(v);
    lemma_error_walk_found(elems);
    let last = elems.last();
    if trains_ok(v) {
        assert(Train::decodable(elems[elems.len() - 1]));
        let entries = match last {
            JsonValue::Object(entries) => entries@,
            _ => Seq::empty(),
        };
        lemma_member_is_some_entry(entries, "late"@);
        let k = choose|k: int| 0 <= k < entries.len() && entries[k].1 == member(entries, "late"@).unwrap();
        assert(entries[k].1 is Str);
    }
}

} // verus!
