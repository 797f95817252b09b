use septa_api::catalog::entries;
use septa_api::errors::Error;
use septa_api::types::{NhslStop, RegionalRailStop, RegionalRailsLine, ServiceType, TransportType};

#[test]
fn every_stop_display_name_resolves_back() {
    for stop in entries::<RegionalRailStop>() {
        assert_eq!(RegionalRailStop::from_name(&stop.to_string()), stop);
    }
}

#[test]
fn every_line_display_name_resolves_back() {
    for line in entries::<RegionalRailsLine>() {
        assert_eq!(RegionalRailsLine::from_name(&line.to_string()), Some(line));
    }
}

#[test]
fn stop_aliases_resolve_in_any_case() {
    assert_eq!(RegionalRailStop::from_name("Elwyn Station"), RegionalRailStop::Elwyn);
    assert_eq!(RegionalRailStop::from_name("ELWYN STATION"), RegionalRailStop::Elwyn);
    assert_eq!(RegionalRailStop::from_name("elwyn"), RegionalRailStop::Elwyn);
    assert_eq!(RegionalRailStop::from_name("Temple U"), RegionalRailStop::TempleUniversity);
    assert_eq!(RegionalRailStop::from_name("30th St"), RegionalRailStop::Gray30thStreet);
    assert_eq!(RegionalRailStop::from_name("gray 30th st"), RegionalRailStop::Gray30thStreet);
    assert_eq!(RegionalRailStop::from_name("Airport Terminal E-F"), RegionalRailStop::AirportTerminalEF);
    assert_eq!(RegionalRailStop::from_name("Norristown"), RegionalRailStop::NorristownTC);
    assert_eq!(RegionalRailStop::from_name("Fernwood"), RegionalRailStop::FernwoodYeadon);
    assert_eq!(RegionalRailStop::from_name("Chestnut H West"), RegionalRailStop::ChestnutHillWest);
    assert_eq!(RegionalRailStop::from_name("Penn Medical Station"), RegionalRailStop::PennMedicineStation);
}

#[test]
fn stop_names_are_trimmed_before_lookup() {
    assert_eq!(RegionalRailStop::from_name("  Wawa \t"), RegionalRailStop::Wawa);
    assert_eq!(RegionalRailsLine::from_name(" media/wawa "), Some(RegionalRailsLine::MediaWawa));
}

#[test]
fn unlisted_stop_is_unknown_with_its_text() {
    assert_eq!(
        RegionalRailStop::from_name("Chester TC"),
        RegionalRailStop::Unknown("Chester TC".to_string())
    );
    assert_eq!(RegionalRailStop::from_name(""), RegionalRailStop::Unknown(String::new()));
    assert_eq!(RegionalRailStop::from_name("Chester TC").to_string(), "Chester TC");
}

#[test]
fn unknown_stop_has_no_id() {
    match RegionalRailStop::Unknown("Chester TC".to_string()).stop_id() {
        Err(Error::UnknownRegionalRailStation(name)) => assert_eq!(name, "Chester TC"),
        other => panic!("unexpected {:?}", other),
    }
}

#[test]
fn elwyn_station_has_the_elwyn_id() {
    let stop = RegionalRailStop::from_name("Elwyn Station");
    assert_eq!(stop, RegionalRailStop::Elwyn);
    assert_eq!(stop.stop_id().unwrap(), 90301);
    assert_eq!(stop.to_string(), "Elwyn");
}

#[test]
fn display_names_follow_the_catalog() {
    assert_eq!(RegionalRailStop::Gray30thStreet.to_string(), "Gray 30th Street");
    assert_eq!(RegionalRailStop::NorristownTC.to_string(), "Norristown T.C.");
    assert_eq!(RegionalRailStop::JenkintownWyncote.to_string(), "Jenkintown Wyncote");
    assert_eq!(RegionalRailStop::StDavids.to_string(), "St. Davids");
    assert_eq!(RegionalRailsLine::LansdaleDoylestown.to_string(), "Lansdale/Doylestown");
    assert_eq!(RegionalRailsLine::ChestnutHillEast.to_string(), "Chestnut Hill East");
}

#[test]
fn line_names_resolve_or_fail() {
    assert_eq!(RegionalRailsLine::from_name("West Trenton"), Some(RegionalRailsLine::WestTrenton));
    assert_eq!(RegionalRailsLine::from_name("FOX CHASE"), Some(RegionalRailsLine::FoxChase));
    assert_eq!(RegionalRailsLine::from_name("R5"), None);
}

#[test]
fn line_codes_and_stops() {
    assert_eq!(RegionalRailsLine::Airport.id(), "AIR");
    assert_eq!(RegionalRailsLine::WestTrenton.id(), "WTR");
    assert_eq!(
        RegionalRailsLine::Cynwyd.stops(),
        vec![RegionalRailStop::Cynwyd, RegionalRailStop::Bala, RegionalRailStop::WynnefieldAvenue]
    );
}

#[test]
fn service_types_are_exact_with_a_fallback() {
    assert_eq!(ServiceType::from_name("LOCAL"), ServiceType::Local);
    assert_eq!(ServiceType::from_name("EXPRESS"), ServiceType::Express);
    assert_eq!(ServiceType::from_name("local"), ServiceType::Unknown("local".to_string()));
    assert_eq!(
        ServiceType::from_name("EXP TO BRYN MAWR"),
        ServiceType::Unknown("EXP TO BRYN MAWR".to_string())
    );
    assert_eq!(ServiceType::Local.to_string(), "LOCAL");
}

#[test]
fn nhsl_stops_and_transport_types_are_exact() {
    assert_eq!(NhslStop::from_name("Radnor Station - NHSL"), Some(NhslStop::RadnorStation));
    assert_eq!(NhslStop::from_name("radnor station - nhsl"), None);
    assert_eq!(TransportType::from_name("RegionalRail"), Some(TransportType::RegionalRail));
    assert_eq!(TransportType::from_name("Ferry"), None);
    assert_eq!(entries::<TransportType>().len(), 5);
}

#[test]
fn stop_coordinates_in_ten_millionths() {
    assert_eq!(RegionalRailStop::Elwyn.coordinate().unwrap(), (399075000, -754116667));
    assert_eq!(RegionalRailStop::Wawa.coordinate().unwrap(), (399011470, -754596330));
    match RegionalRailStop::Unknown("Chester TC".to_string()).coordinate() {
        Err(Error::UnknownRegionalRailStation(name)) => assert_eq!(name, "Chester TC"),
        other => panic!("unexpected {:?}", other),
    }
    for stop in entries::<RegionalRailStop>() {
        let (lat, lon) = stop.coordinate().unwrap();
        assert!(390000000 < lat && lat < 410000000);
        assert!(-760000000 < lon && lon < -740000000);
    }
}
