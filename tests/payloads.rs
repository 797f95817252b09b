use septa_api::client::into_result;
use septa_api::deserialize::{DateTime, TimeOfDay};
use septa_api::errors::{DecodeError, Error};
use septa_api::json::JsonValue;
use septa_api::requests::Direction;
use septa_api::responses::{
    deserialize_api_error, decode_arrivals_response, decode_next_to_arrive_response,
    decode_rail_schedule_response, decode_train_response, ApiResponse, ArrivalsResponse,
};
use septa_api::types::{RegionalRailStop, RegionalRailsLine, ServiceType};

fn to_json(v: &serde_json::Value) -> JsonValue {
    match v {
        serde_json::Value::Null => JsonValue::Null,
        serde_json::Value::Bool(b) => JsonValue::Bool(*b),
        serde_json::Value::Number(n) => JsonValue::Number(n.to_string()),
        serde_json::Value::String(s) => JsonValue::Str(s.clone()),
        serde_json::Value::Array(items) => JsonValue::Array(items.iter().map(to_json).collect()),
        serde_json::Value::Object(members) => {
            JsonValue::Object(members.iter().map(|(k, v)| (k.clone(), to_json(v))).collect())
        },
    }
}

fn parse(text: &str) -> JsonValue {
    to_json(&serde_json::from_str::<serde_json::Value>(text).expect("test payload is JSON"))
}

fn time(hour: u32, minute: u32) -> TimeOfDay {
    TimeOfDay { hour, minute, second: 0, nanosecond: 0 }
}

fn date_time(year: i32, month: u32, day: u32, hour: u32, minute: u32) -> DateTime {
    DateTime { year, month, day, time: time(hour, minute) }
}

fn arrivals(text: &str) -> Result<ArrivalsResponse, Error> {
    match decode_arrivals_response(&parse(text)) {
        Ok(response) => into_result(response),
        Err(e) => Err(Error::DeserializeFailed(e)),
    }
}

const ARRIVALS_NORTHBOUND: &str = r#"
        {
            "Temple U Departures: April 11, 2023, 6:29 pm": [
              {
                "Northbound": [
                  {
                    "direction": "N",
                    "path": "R5/3N",
                    "train_id": "5344",
                    "origin": "Thorndale",
                    "destination": "West Trenton",
                    "line": "West Trenton",
                    "status": "12 min",
                    "service_type": "LOCAL",
                    "next_station": "Suburban Station",
                    "sched_time": "2023-04-11 18:30:00.000",
                    "depart_time": "2023-04-11 18:30:00.000",
                    "track": "2",
                    "track_change": null,
                    "platform": "",
                    "platform_change": null
                  },
                  {
                    "direction": "N",
                    "path": "R8N",
                    "train_id": "9854",
                    "origin": "Chestnut Hill West",
                    "destination": "Temple U",
                    "line": "Fox Chase",
                    "status": "On Time",
                    "service_type": "LOCAL",
                    "next_station": "Temple U",
                    "sched_time": "2023-04-11 18:37:00.000",
                    "depart_time": "2023-04-11 18:37:00.000",
                    "track": "1",
                    "track_change": null,
                    "platform": "",
                    "platform_change": null
                  },
                  {
                    "direction": "N",
                    "path": "R4/8N",
                    "train_id": "4854",
                    "origin": "Airport Terminal E-F",
                    "destination": "Fox Chase",
                    "line": "Fox Chase",
                    "status": "On Time",
                    "service_type": "LOCAL",
                    "next_station": "30th Street Gray",
                    "sched_time": "2023-04-11 18:45:00.000",
                    "depart_time": "2023-04-11 18:45:00.000",
                    "track": "1",
                    "track_change": null,
                    "platform": "",
                    "platform_change": null
                  },
                  {
                    "direction": "N",
                    "path": "R7N",
                    "train_id": "9754",
                    "origin": "Trenton",
                    "destination": "Temple U",
                    "line": "Trenton",
                    "status": "On Time",
                    "service_type": "LOCAL",
                    "next_station": "North Philadelphia",
                    "sched_time": "2023-04-11 18:59:00.000",
                    "depart_time": "2023-04-11 18:59:00.000",
                    "track": "2",
                    "track_change": null,
                    "platform": "",
                    "platform_change": null
                  },
                  {
                    "direction": "N",
                    "path": "R3/2N",
                    "train_id": "3230",
                    "origin": "Wawa",
                    "destination": "Norristown",
                    "line": "Media/Wawa",
                    "status": "1 min",
                    "service_type": "LOCAL",
                    "next_station": "Secane",
                    "sched_time": "2023-04-11 19:06:00.000",
                    "depart_time": "2023-04-11 19:06:00.000",
                    "track": "1",
                    "track_change": null,
                    "platform": "",
                    "platform_change": null
                  }
                ]
              }
            ]
          }
    "#;

const ARRIVALS_MALVERN: &str = r#"
        {
          "Malvern Departures: April 12, 2023, 5:46 pm":[
             {
                "Northbound":[
                   {
                      "direction":"N",
                      "path":"R5\/3N",
                      "train_id":"5348",
                      "origin":"Malvern",
                      "destination":"West Trenton",
                      "line":"Paoli\/Thorndale",
                      "status":"On Time",
                      "service_type":"LOCAL",
                      "next_station":null,
                      "sched_time":"2023-04-12 18:26:00.000",
                      "depart_time":"2023-04-12 18:26:00.000",
                      "track":"1",
                      "track_change":null,
                      "platform":"",
                      "platform_change":null
                   },
                   {
                      "direction":"N",
                      "path":"R5\/3N",
                      "train_id":"5352",
                      "origin":"Thorndale",
                      "destination":"West Trenton",
                      "line":"Paoli\/Thorndale",
                      "status":"On Time",
                      "service_type":"LOCAL",
                      "next_station":null,
                      "sched_time":"2023-04-12 19:26:00.000",
                      "depart_time":"2023-04-12 19:26:00.000",
                      "track":"1",
                      "track_change":null,
                      "platform":"",
                      "platform_change":null
                   },
                   {
                      "direction":"N",
                      "path":"R5\/3N",
                      "train_id":"5356",
                      "origin":"Thorndale",
                      "destination":"West Trenton",
                      "line":"Paoli\/Thorndale",
                      "status":"On Time",
                      "service_type":"LOCAL",
                      "next_station":null,
                      "sched_time":"2023-04-12 20:26:00.000",
                      "depart_time":"2023-04-12 20:26:00.000",
                      "track":"1",
                      "track_change":null,
                      "platform":"",
                      "platform_change":null
                   },
                   {
                      "direction":"N",
                      "path":"R5N",
                      "train_id":"9564",
                      "origin":"Malvern",
                      "destination":"Temple U",
                      "line":"Paoli\/Thorndale",
                      "status":"On Time",
                      "service_type":"LOCAL",
                      "next_station":null,
                      "sched_time":"2023-04-12 21:31:00.000",
                      "depart_time":"2023-04-12 21:31:00.000",
                      "track":"1",
                      "track_change":null,
                      "platform":"",
                      "platform_change":null
                   },
                   {
                      "direction":"N",
                      "path":"R5N",
                      "train_id":"9566",
                      "origin":"Thorndale",
                      "destination":"Temple U",
                      "line":"Paoli\/Thorndale",
                      "status":"On Time",
                      "service_type":"LOCAL",
                      "next_station":null,
                      "sched_time":"2023-04-12 22:41:00.000",
                      "depart_time":"2023-04-12 22:41:00.000",
                      "track":"1",
                      "track_change":null,
                      "platform":"",
                      "platform_change":null
                   }
                ]
             }
          ]
       }
    "#;

const ARRIVALS_BOTH: &str = r#"{"Temple U Departures: June 14, 2023, 9:07 pm":[{"Northbound":[{"direction":"N","path":"R4N","train_id":"464","origin":"Airport Terminal E-F","destination":"Warminster","line":"Warminster","status":"On Time","service_type":"LOCAL","next_station":"Jefferson","sched_time":"2023-06-14 21:15:00.000","depart_time":"2023-06-14 21:15:00.000","track":"2","track_change":null,"platform":"","platform_change":null},{"direction":"N","path":"R2\/5N","train_id":"2530","origin":"Newark","destination":"Lansdale","line":"Lansdale\/Doylestown","status":"5 min","service_type":"LOCAL","next_station":"30th Street Gray","sched_time":"2023-06-14 21:18:00.000","depart_time":"2023-06-14 21:18:00.000","track":"1","track_change":null,"platform":"","platform_change":null}]},{"Southbound":[{"direction":"S","path":"R4S","train_id":"469","origin":"Warminster","destination":"Airport","line":"Airport","status":"On Time","service_type":"LOCAL","next_station":"Temple U","sched_time":"2023-06-14 21:13:00.000","depart_time":"2023-06-14 21:13:00.000","track":"3","track_change":null,"platform":"","platform_change":null},{"direction":"S","path":"R5S","train_id":"6535","origin":"Doylestown","destination":"30th St","line":"Lansdale\/Doylestown","status":"1 min","service_type":"LOCAL","next_station":"Jenkintown-Wyncote","sched_time":"2023-06-14 21:24:00.000","depart_time":"2023-06-14 21:24:00.000","track":"4","track_change":null,"platform":"","platform_change":null}]}]}"#;

const RAIL_SCHEDULE: &str = r#"[
    {
        "station": "Wawa",
        "sched_tm": "9:08 pm",
        "est_tm": "9:09 pm",
        "act_tm": "9:09 pm"
    },
    {
        "station": "Elwyn Station",
        "sched_tm": "9:13 pm",
        "est_tm": "9:14 pm",
        "act_tm": "9:14 pm"
    },
    {
        "station": "Media",
        "sched_tm": "9:16 pm",
        "est_tm": "9:17 pm",
        "act_tm": "9:17 pm"
    },
    {
        "station": "Moylan-Rose Valley",
        "sched_tm": "9:18 pm",
        "est_tm": "9:18 pm",
        "act_tm": "9:18 pm"
    },
    {
        "station": "Wallingford",
        "sched_tm": "9:20 pm",
        "est_tm": "9:20 pm",
        "act_tm": "9:20 pm"
    },
    {
        "station": "Swarthmore",
        "sched_tm": "9:23 pm",
        "est_tm": "9:22 pm",
        "act_tm": "9:22 pm"
    },
    {
        "station": "Morton",
        "sched_tm": "9:26 pm",
        "est_tm": "9:25 pm",
        "act_tm": "9:25 pm"
    },
    {
        "station": "Secane",
        "sched_tm": "9:29 pm",
        "est_tm": "9:27 pm",
        "act_tm": "9:27 pm"
    },
    {
        "station": "Primos",
        "sched_tm": "9:31 pm",
        "est_tm": "9:29 pm",
        "act_tm": "9:29 pm"
    },
    {
        "station": "Clifton-Aldan",
        "sched_tm": "9:33 pm",
        "est_tm": "9:31 pm",
        "act_tm": "9:31 pm"
    },
    {
        "station": "Gladstone",
        "sched_tm": "9:35 pm",
        "est_tm": "9:33 pm",
        "act_tm": "9:33 pm"
    },
    {
        "station": "Lansdowne",
        "sched_tm": "9:37 pm",
        "est_tm": "9:35 pm",
        "act_tm": "9:35 pm"
    },
    {
        "station": "Fernwood-Yeadon",
        "sched_tm": "9:39 pm",
        "est_tm": "9:37 pm",
        "act_tm": "9:37 pm"
    },
    {
        "station": "Angora",
        "sched_tm": "9:41 pm",
        "est_tm": "9:40 pm",
        "act_tm": "na"
    },
    {
        "station": "49th Street",
        "sched_tm": "9:44 pm",
        "est_tm": "9:43 pm",
        "act_tm": "na"
    },
    {
        "station": "Penn Medicine Station",
        "sched_tm": "9:49 pm",
        "est_tm": "9:48 pm",
        "act_tm": "na"
    },
    {
        "station": "Gray 30th Street",
        "sched_tm": "9:52 pm",
        "est_tm": "9:50 pm",
        "act_tm": "na"
    },
    {
        "station": "Suburban Station",
        "sched_tm": "9:57 pm",
        "est_tm": "9:55 pm",
        "act_tm": "na"
    },
    {
        "station": "Jefferson Station",
        "sched_tm": "10:02 pm",
        "est_tm": "10:00 pm",
        "act_tm": "na"
    },
    {
        "station": "Temple University",
        "sched_tm": "10:06 pm",
        "est_tm": "10:05 pm",
        "act_tm": "na"
    },
    {
        "station": "North Broad",
        "sched_tm": "10:08 pm",
        "est_tm": "10:07 pm",
        "act_tm": "na"
    },
    {
        "station": "Allegheny",
        "sched_tm": "10:11 pm",
        "est_tm": "10:10 pm",
        "act_tm": "na"
    },
    {
        "station": "East Falls",
        "sched_tm": "10:13 pm",
        "est_tm": "10:12 pm",
        "act_tm": "na"
    },
    {
        "station": "Wissahickon",
        "sched_tm": "10:16 pm",
        "est_tm": "10:15 pm",
        "act_tm": "na"
    },
    {
        "station": "Manayunk",
        "sched_tm": "10:19 pm",
        "est_tm": "10:18 pm",
        "act_tm": "na"
    },
    {
        "station": "Ivy Ridge",
        "sched_tm": "10:21 pm",
        "est_tm": "10:20 pm",
        "act_tm": "na"
    },
    {
        "station": "Miquon",
        "sched_tm": "10:25 pm",
        "est_tm": "10:24 pm",
        "act_tm": "na"
    },
    {
        "station": "Spring Mill",
        "sched_tm": "10:28 pm",
        "est_tm": "10:27 pm",
        "act_tm": "na"
    },
    {
        "station": "Conshohocken",
        "sched_tm": "10:31 pm",
        "est_tm": "10:30 pm",
        "act_tm": "na"
    },
    {
        "station": "Norristown T.C.",
        "sched_tm": "10:40 pm",
        "est_tm": "10:39 pm",
        "act_tm": "na"
    },
    {
        "station": "Main Street",
        "sched_tm": "10:43 pm",
        "est_tm": "10:42 pm",
        "act_tm": "na"
    },
    {
        "station": "Norristown - Elm Street",
        "sched_tm": "10:47 pm",
        "est_tm": "10:46 pm",
        "act_tm": "na"
    }
    ]"#;

#[test]
fn arrivals_test_deserialize1_async() {
    let arrival_response = arrivals(ARRIVALS_NORTHBOUND).unwrap();

    assert_eq!(arrival_response.title, "Temple U Departures: April 11, 2023, 6:29 pm");
    assert_eq!(arrival_response.northbound.len(), 5);
    assert_eq!(arrival_response.southbound.len(), 0);

    let arrival1 = &arrival_response.northbound[0];
    assert_eq!(arrival1.direction, "N");
    assert_eq!(arrival1.path, "R5/3N");
    assert_eq!(arrival1.train_id, "5344");
    assert_eq!(arrival1.origin, RegionalRailStop::Thorndale);
    assert_eq!(arrival1.destination, RegionalRailStop::WestTrenton);
    assert_eq!(arrival1.line, RegionalRailsLine::WestTrenton);
    assert_eq!(arrival1.status, "12 min");
    assert_eq!(arrival1.service_type, ServiceType::Local);
    assert_eq!(arrival1.next_station, Some(RegionalRailStop::SuburbanStation));
    assert_eq!(arrival1.sched_time, date_time(2023, 4, 11, 18, 30));
    assert_eq!(arrival1.depart_time, date_time(2023, 4, 11, 18, 30));
    assert_eq!(arrival1.track, "2");
    assert_eq!(arrival1.track_change, None);
    assert_eq!(arrival1.platform, "");
    assert_eq!(arrival1.platform_change, None);

    let arrival2 = &arrival_response.northbound[1];
    assert_eq!(arrival2.direction, "N");
    assert_eq!(arrival2.path, "R8N");
    assert_eq!(arrival2.train_id, "9854");
    assert_eq!(arrival2.origin, RegionalRailStop::ChestnutHillWest);
    assert_eq!(arrival2.destination, RegionalRailStop::TempleUniversity);
    assert_eq!(arrival2.line, RegionalRailsLine::FoxChase);
    assert_eq!(arrival2.status, "On Time");

    let arrival3 = &arrival_response.northbound[2];
    assert_eq!(arrival3.origin, RegionalRailStop::AirportTerminalEF);
    assert_eq!(arrival3.next_station, Some(RegionalRailStop::Gray30thStreet));

    let arrival5 = &arrival_response.northbound[4];
    assert_eq!(arrival5.destination, RegionalRailStop::NorristownTC);
    assert_eq!(arrival5.line, RegionalRailsLine::MediaWawa);
    assert_eq!(arrival5.sched_time, date_time(2023, 4, 11, 19, 6));
}

#[test]
fn test_deserialize2_async() {
    let arrival_response = arrivals(ARRIVALS_MALVERN).unwrap();

    assert_eq!(arrival_response.title, "Malvern Departures: April 12, 2023, 5:46 pm");
    assert_eq!(arrival_response.northbound.len(), 5);

    let arrival1 = &arrival_response.northbound[0];
    assert_eq!(arrival1.direction, "N");
    assert_eq!(arrival1.path, "R5/3N");
    assert_eq!(arrival1.train_id, "5348");
    assert_eq!(arrival1.origin, RegionalRailStop::Malvern);
    assert_eq!(arrival1.destination, RegionalRailStop::WestTrenton);
    assert_eq!(arrival1.line, RegionalRailsLine::PaoliThorndale);
    assert_eq!(arrival1.status, "On Time");
    assert_eq!(arrival1.service_type, ServiceType::Local);
    assert_eq!(arrival1.next_station, None);
    assert_eq!(arrival1.sched_time, date_time(2023, 4, 12, 18, 26));
    assert_eq!(arrival1.depart_time, date_time(2023, 4, 12, 18, 26));
    assert_eq!(arrival1.track, "1");
    assert_eq!(arrival1.track_change, None);
    assert_eq!(arrival1.platform, "");
    assert_eq!(arrival1.platform_change, None);

    let arrival2 = &arrival_response.northbound[1];
    assert_eq!(arrival2.direction, "N");
    assert_eq!(arrival2.path, "R5/3N");
    assert_eq!(arrival2.train_id, "5352");
    assert_eq!(arrival2.origin, RegionalRailStop::Thorndale);
    assert_eq!(arrival2.destination, RegionalRailStop::WestTrenton);
    assert_eq!(arrival2.line, RegionalRailsLine::PaoliThorndale);
    assert_eq!(arrival2.next_station, None);

    let arrival3 = &arrival_response.northbound[2];
    assert_eq!(arrival3.train_id, "5356");
    assert_eq!(arrival3.origin, RegionalRailStop::Thorndale);
    assert_eq!(arrival3.service_type, ServiceType::Local);
}

#[test]
fn test_deserialize3_async() {
    let arrival_response = arrivals(ARRIVALS_BOTH).unwrap();

    assert_eq!(arrival_response.title, "Temple U Departures: June 14, 2023, 9:07 pm");

    assert_eq!(arrival_response.northbound.len(), 2);
    assert_eq!(arrival_response.northbound[0].direction, "N");
    assert_eq!(arrival_response.northbound[1].direction, "N");

    assert_eq!(arrival_response.southbound.len(), 2);
    assert_eq!(arrival_response.southbound[0].direction, "S");
    assert_eq!(arrival_response.southbound[1].direction, "S");
    assert_eq!(
        arrival_response.southbound[1].next_station,
        Some(RegionalRailStop::Unknown("Jenkintown-Wyncote".to_string()))
    );
}

#[test]
fn empty_deserialize_test() {
    let arrival_response =
        arrivals(r#"{"Temple U Departures: April 15, 2023, 1:23 am":[[],[]]}"#).unwrap();

    assert_eq!(arrival_response.title, "Temple U Departures: April 15, 2023, 1:23 am");
    assert_eq!(arrival_response.northbound.len(), 0);
    assert_eq!(arrival_response.southbound.len(), 0);
}

const ONE_ARRIVAL: &str = r#"{"direction":"N","path":"R4N","train_id":"464","origin":"Airport Terminal E-F","destination":"Warminster","line":"Warminster","status":"On Time","service_type":"LOCAL","next_station":null,"sched_time":"2023-06-14 21:15:00.000","depart_time":"2023-06-14 21:15:00.000","track":"2","track_change":"3","platform":"","platform_change":null}"#;

#[test]
fn arrivals_one_direction_leaves_the_other_empty() {
    let text = format!(r#"{{"T":[{{"Northbound":[{},{}]}}]}}"#, ONE_ARRIVAL, ONE_ARRIVAL);
    let arrival_response = arrivals(&text).unwrap();
    assert_eq!(arrival_response.title, "T");
    assert_eq!(arrival_response.northbound.len(), 2);
    assert_eq!(arrival_response.southbound.len(), 0);
    assert_eq!(arrival_response.northbound[0].next_station, None);
    assert_eq!(arrival_response.northbound[0].track_change, Some("3".to_string()));
}

#[test]
fn arrivals_duplicate_direction_fails() {
    let text = format!(
        r#"{{"T":[{{"Northbound":[{}]}},{{"Northbound":[]}}]}}"#,
        ONE_ARRIVAL
    );
    match arrivals(&text) {
        Err(Error::DeserializeFailed(DecodeError::DuplicateDirection { direction })) => {
            assert_eq!(direction, Direction::North)
        },
        other => panic!("unexpected {:?}", other),
    }
}

#[test]
fn arrivals_need_exactly_one_title() {
    match arrivals(r#"{"A":[],"B":[]}"#) {
        Err(Error::DeserializeFailed(DecodeError::KeyCount { found })) => assert_eq!(found, 2),
        other => panic!("unexpected {:?}", other),
    }
    match arrivals(r#"{}"#) {
        Err(Error::DeserializeFailed(DecodeError::KeyCount { found })) => assert_eq!(found, 0),
        other => panic!("unexpected {:?}", other),
    }
}

#[test]
fn arrivals_populated_array_element_fails() {
    match arrivals(r#"{"T":[[1]]}"#) {
        Err(Error::DeserializeFailed(DecodeError::UnknownElementShape)) => {},
        other => panic!("unexpected {:?}", other),
    }
}

#[test]
fn arrivals_error_envelope_is_the_feed_error() {
    match arrivals(r#"[{"error":"No data"}]"#) {
        Err(Error::ApiErrorResponse(message)) => assert_eq!(message, "No data"),
        other => panic!("unexpected {:?}", other),
    }
}

#[test]
fn rail_schedule_test_deserialize1_async() {
    let response = match decode_rail_schedule_response(&parse(RAIL_SCHEDULE)).unwrap() {
        ApiResponse::Response(r) => r,
        ApiResponse::Error(e) => panic!("unexpected error {}", e),
    };

    assert_eq!(response.len(), 32);

    assert_eq!(response[0].station, RegionalRailStop::Wawa);
    assert_eq!(response[0].scheduled_time, time(21, 8));
    assert_eq!(response[0].estimated_time, time(21, 9));
    assert_eq!(response[0].actual_time, Some(time(21, 9)));

    assert_eq!(response[1].station, RegionalRailStop::Elwyn);
    assert_eq!(response[1].station.stop_id().unwrap(), 90301);
    assert_eq!(response[1].scheduled_time, time(21, 13));
    assert_eq!(response[1].estimated_time, time(21, 14));
    assert_eq!(response[1].actual_time, Some(time(21, 14)));

    assert_eq!(response[4].station, RegionalRailStop::Wallingford);
    assert_eq!(response[4].scheduled_time, time(21, 20));
    assert_eq!(response[4].estimated_time, time(21, 20));
    assert_eq!(response[4].actual_time, Some(time(21, 20)));

    assert_eq!(response[5].station, RegionalRailStop::Swarthmore);
    assert_eq!(response[5].scheduled_time, time(21, 23));
    assert_eq!(response[5].estimated_time, time(21, 22));
    assert_eq!(response[5].actual_time, Some(time(21, 22)));

    assert_eq!(response[31].station, RegionalRailStop::NorristownElmStreet);
    assert_eq!(response[31].scheduled_time, time(22, 47));
    assert_eq!(response[31].estimated_time, time(22, 46));
    assert_eq!(response[31].actual_time, None);
}

#[test]
fn next_to_arrive_test_deserialize1_async() {
    let text = r#"
    [
        {
            "orig_train": "2565",
            "orig_line": "Paoli/Thorndale",
            "orig_departure_time": "11:49PM",
            "orig_arrival_time": "12:33AM",
            "orig_delay": "On time",
            "isdirect": "true"
        }
    ]"#;
    let response = match decode_next_to_arrive_response(&parse(text)).unwrap() {
        ApiResponse::Response(r) => r,
        ApiResponse::Error(e) => panic!("unexpected error {}", e),
    };

    assert_eq!(response.len(), 1);
    assert_eq!(response[0].orig_train, "2565");
    assert_eq!(response[0].orig_line, RegionalRailsLine::PaoliThorndale);
    assert_eq!(response[0].orig_departure_time, time(23, 49));
    assert_eq!(response[0].orig_arrival_time, time(0, 33));
    assert_eq!(response[0].orig_delay, "On time");
    assert!(response[0].is_direct);
}

const TRAINS: &str = r#"[
    {"lat":"39.954174265","lon":"-75.16763361","trainno":"2333","service":"LOCAL","dest":"Wawa","currentstop":"Suburban Station","nextstop":"Gray 30th Street","line":"Media\/Wawa","consist":"872,871,858,857","heading":189.8775840187919,"late":0,"SOURCE":"Norristown","TRACK":"","TRACK_CHANGE":""},
    {"lat":"39.953094545","lon":"-75.162311045","trainno":"3236","service":"EXP TO PRIMOS","dest":"Norristown","currentstop":"Suburban Station","nextstop":"Jefferson Station","line":"Manayunk\/Norristown","consist":"705,716,861,862","heading":null,"late":-3,"SOURCE":"Elwyn Station","TRACK":"1A","TRACK_CHANGE":""}
]"#;

#[test]
fn train_view_decodes_well_formed_trains() {
    let trains = match decode_train_response(&parse(TRAINS)).unwrap() {
        ApiResponse::Response(t) => t,
        ApiResponse::Error(e) => panic!("unexpected error {}", e),
    };
    assert_eq!(trains.len(), 2);
    assert_eq!(trains[0].lat, "39.954174265");
    assert_eq!(trains[0].train_number, "2333");
    assert_eq!(trains[0].service, ServiceType::Local);
    assert_eq!(trains[0].dest, RegionalRailStop::Wawa);
    assert_eq!(trains[0].next_stop, RegionalRailStop::Gray30thStreet);
    assert_eq!(trains[0].line, RegionalRailsLine::MediaWawa);
    assert_eq!(trains[0].consist, vec![872, 871, 858, 857]);
    assert_eq!(trains[0].heading, Some("189.8775840187919".to_string()));
    assert_eq!(trains[0].late, 0);
    assert_eq!(trains[0].source, RegionalRailStop::NorristownTC);
    assert_eq!(trains[1].service, ServiceType::Unknown("EXP TO PRIMOS".to_string()));
    assert_eq!(trains[1].heading, None);
    assert_eq!(trains[1].late, -3);
    assert_eq!(trains[1].source, RegionalRailStop::Elwyn);
    assert_eq!(trains[1].track, "1A");
}

#[test]
fn train_with_bad_consist_fails() {
    let text = TRAINS.replace("872,871", "872,x871");
    assert!(decode_train_response(&parse(&text)).is_err());
}

#[test]
fn test_api_down_test_async() {
    let text = r#"
        [
            {
                "error": "We apologize for the inconvenience, but we are experiencing difficulties at this time.  TrainView has been disabled."
            }
        ]"#;
    let trains = match decode_train_response(&parse(text)) {
        Ok(response) => into_result(response),
        Err(e) => Err(Error::DeserializeFailed(e)),
    };

    assert!(trains.is_err());
    match trains.unwrap_err() {
        Error::ApiErrorResponse(e) => assert_eq!(e, "We apologize for the inconvenience, but we are experiencing difficulties at this time.  TrainView has been disabled."),
        _ => unreachable!(),
    }
}

#[test]
fn error_envelope_shapes() {
    assert_eq!(deserialize_api_error(&parse(r#"[{"error":"X"}]"#)).unwrap(), "X");
    assert_eq!(deserialize_api_error(&parse(r#"[{}, {"error":"X"}]"#)).unwrap(), "X");
    assert!(matches!(
        deserialize_api_error(&parse(r#"[{"error":"X"},{"error":"Y"}]"#)),
        Err(DecodeError::MultipleErrors)
    ));
    assert!(matches!(deserialize_api_error(&parse(r#"[]"#)), Err(DecodeError::NoErrorMessage)));
    assert!(deserialize_api_error(&parse(r#"[{"error":1}]"#)).is_err());
    assert!(deserialize_api_error(&parse(r#"{"error":"X"}"#)).is_err());
}

#[test]
fn neither_shape_reports_the_result_failure() {
    match decode_train_response(&parse(r#"[{"lat":"1"}]"#)) {
        Err(DecodeError::MissingField { field }) => assert_eq!(field, "lon"),
        other => panic!("unexpected {:?}", other),
    }
}

#[test]
fn arrivals_element_errors_are_reported() {
    let bad_line = ONE_ARRIVAL.replace(r#""line":"Warminster""#, r#""line":"R9""#);
    let text = format!(r#"{{"T":[{{"Southbound":[{}]}}]}}"#, bad_line);
    match arrivals(&text) {
        Err(Error::DeserializeFailed(DecodeError::InvalidValue { value, expected })) => {
            assert_eq!(value, "R9");
            assert_eq!(expected, septa_api::errors::Expected::Line);
        },
        other => panic!("unexpected {:?}", other),
    }
    match arrivals(r#"{"T":[7]}"#) {
        Err(Error::DeserializeFailed(DecodeError::InvalidType { expected })) => {
            assert_eq!(expected, septa_api::errors::Expected::Object)
        },
        other => panic!("unexpected {:?}", other),
    }
    match arrivals(r#"{"T":{}}"#) {
        Err(Error::DeserializeFailed(DecodeError::InvalidType { expected })) => {
            assert_eq!(expected, septa_api::errors::Expected::Array)
        },
        other => panic!("unexpected {:?}", other),
    }
}

#[test]
fn schedule_with_bad_time_names_the_text() {
    let text = r#"[{"station":"Wawa","sched_tm":"9:08","est_tm":"9:09 pm","act_tm":"na"}]"#;
    match decode_rail_schedule_response(&parse(text)) {
        Err(DecodeError::InvalidValue { value, expected }) => {
            assert_eq!(value, "9:08");
            assert_eq!(expected, septa_api::errors::Expected::TimeOfDayWithSpace);
        },
        other => panic!("unexpected {:?}", other),
    }
}

#[test]
fn arrivals_absent_next_station_is_none() {
    let without = ONE_ARRIVAL.replace(r#""next_station":null,"#, "");
    let text = format!(r#"{{"T":[{{"Northbound":[{}]}}]}}"#, without);
    let arrival_response = arrivals(&text).unwrap();
    assert_eq!(arrival_response.northbound[0].next_station, None);
    let named = ONE_ARRIVAL.replace(r#""next_station":null"#, r#""next_station":"Suburban Station""#);
    let text = format!(r#"{{"T":[{{"Northbound":[{}]}}]}}"#, named);
    assert_eq!(
        arrivals(&text).unwrap().northbound[0].next_station,
        Some(RegionalRailStop::SuburbanStation)
    );
}

#[test]
fn arrivals_duplicate_direction_after_other_elements_fails() {
    let text = format!(
        r#"{{"T":[[],{{"Southbound":[{}]}},{{"Northbound":[]}},[],{{"Southbound":[]}}]}}"#,
        ONE_ARRIVAL
    );
    match arrivals(&text) {
        Err(Error::DeserializeFailed(DecodeError::DuplicateDirection { direction })) => {
            assert_eq!(direction, Direction::South)
        },
        other => panic!("unexpected {:?}", other),
    }
}
