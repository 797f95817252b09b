use std::collections::{BTreeMap, BTreeSet};

use septa_api::catalog::entries;
use septa_api::types::{RegionalRailStop, RegionalRailsLine};

// The regional rail routes, stops and stop ids of the authority's published static schedule.

const ROUTE_IDS: &[&str] = &[
    "AIR",
    "CHE",
    "CHW",
    "CC",
    "CYN",
    "FOX",
    "LAN",
    "MED",
    "NOR",
    "PAO",
    "TRE",
    "WAR",
    "WIL",
    "WTR",
];

const STOP_NAMES: &[&str] = &[
    "49th Street",
    "9th Street Lansdale",
    "Airport Terminal A",
    "Airport Terminal B",
    "Airport Terminal C D",
    "Airport Terminal E F",
    "Allegheny",
    "Ambler",
    "Angora",
    "Ardmore",
    "Ardsley",
    "Bala",
    "Berwyn",
    "Bethayres",
    "Bridesburg",
    "Bristol",
    "Bryn Mawr",
    "Carpenter",
    "Chalfont",
    "Chelten Avenue",
    "Cheltenham",
    "Chester",
    "Chestnut Hill East",
    "Chestnut Hill West",
    "Churchman's Crossing",
    "Claymont",
    "Clifton-Aldan",
    "Colmar",
    "Conshohocken",
    "Cornwells Heights",
    "Crestmont",
    "Croydon",
    "Crum Lynne",
    "Curtis Park",
    "Cynwyd",
    "Darby",
    "Daylesford",
    "Delaware Valley College",
    "Devon",
    "Downingtown",
    "Doylestown",
    "East Falls",
    "Eastwick",
    "Eddington",
    "Eddystone",
    "Elkins Park",
    "Elwyn",
    "Exton",
    "Fern Rock T C",
    "Fernwood-Yeadon",
    "Folcroft",
    "Forest Hills",
    "Fort Washington",
    "Fortuna",
    "Fox Chase",
    "Germantown",
    "Gladstone",
    "Glenolden",
    "Glenside",
    "Gravers",
    "Gray 30th Street",
    "Gwynedd Valley",
    "Hatboro",
    "Haverford",
    "Highland",
    "Highland Avenue",
    "Holmesburg Jct",
    "Ivy Ridge",
    "Jefferson Station",
    "Jenkintown Wyncote",
    "Langhorne",
    "Lansdale",
    "Lansdowne",
    "Lawndale",
    "Levittown",
    "Link Belt",
    "Main Street",
    "Malvern",
    "Manayunk",
    "Marcus Hook",
    "Meadowbrook",
    "Media",
    "Melrose Park",
    "Merion",
    "Miquon",
    "Morton",
    "Mount Airy",
    "Moylan-Rose Valley",
    "Narberth",
    "Neshaminy",
    "New Britain",
    "Newark",
    "Noble",
    "Norristown - Elm Street",
    "Norristown T.C.",
    "North Broad",
    "North Hills",
    "North Philadelphia",
    "North Philadelphia Amtrak",
    "North Wales",
    "Norwood",
    "Olney",
    "Oreland",
    "Overbrook",
    "Paoli",
    "Penllyn",
    "Penn Medicine Station",
    "Pennbrook",
    "Philmont",
    "Primos",
    "Prospect Park - Moore",
    "Queen Lane",
    "Radnor",
    "Richard Allen Lane",
    "Ridley Park",
    "Rosemont",
    "Roslyn",
    "Rydal",
    "Ryers",
    "Secane",
    "Sedgwick",
    "Sharon Hill",
    "Somerton",
    "Spring Mill",
    "St. Davids",
    "St. Martins",
    "Stenton",
    "Strafford",
    "Suburban Station",
    "Swarthmore",
    "Tacony",
    "Temple University",
    "Thorndale",
    "Torresdale",
    "Trenton",
    "Trevose",
    "Tulpehocken",
    "Upsal",
    "Villanova",
    "Wallingford",
    "Warminster",
    "Washington Lane",
    "Wawa",
    "Wayne",
    "Wayne Junction",
    "West Trenton",
    "Whitford",
    "Willow Grove",
    "Wilmington",
    "Wissahickon",
    "Wister",
    "Woodbourne",
    "Wyndmoor",
    "Wynnefield Avenue",
    "Wynnewood",
    "Yardley",
];

const STOP_IDS: &[(&str, u32)] = &[
    ("49th Street", 90314),
    ("9th Street Lansdale", 90539),
    ("Airport Terminal A", 90404),
    ("Airport Terminal B", 90403),
    ("Airport Terminal C D", 90402),
    ("Airport Terminal E F", 90401),
    ("Allegheny", 90218),
    ("Ambler", 90526),
    ("Angora", 90313),
    ("Ardmore", 90518),
    ("Ardsley", 90412),
    ("Bala", 90002),
    ("Berwyn", 90508),
    ("Bethayres", 90318),
    ("Bridesburg", 90710),
    ("Bristol", 90703),
    ("Bryn Mawr", 90516),
    ("Carpenter", 90805),
    ("Chalfont", 90535),
    ("Chelten Avenue", 90808),
    ("Cheltenham", 90813),
    ("Chester", 90207),
    ("Chestnut Hill East", 90720),
    ("Chestnut Hill West", 90801),
    ("Churchman's Crossing", 90202),
    ("Claymont", 90204),
    ("Clifton-Aldan", 90309),
    ("Colmar", 90533),
    ("Conshohocken", 90225),
    ("Cornwells Heights", 90706),
    ("Crestmont", 90414),
    ("Croydon", 90704),
    ("Crum Lynne", 90209),
    ("Curtis Park", 90216),
    ("Cynwyd", 90001),
    ("Darby", 90217),
    ("Daylesford", 90507),
    ("Delaware Valley College", 90537),
    ("Devon", 90509),
    ("Downingtown", 90502),
    ("Doylestown", 90538),
    ("East Falls", 90219),
    ("Eastwick", 90405),
    ("Eddington", 90705),
    ("Eddystone", 90208),
    ("Elkins Park", 90409),
    ("Elwyn", 90301),
    ("Exton", 90504),
    ("Fern Rock T C", 90407),
    ("Fernwood-Yeadon", 90312),
    ("Folcroft", 90214),
    ("Forest Hills", 90320),
    ("Fort Washington", 90525),
    ("Fortuna", 90532),
    ("Fox Chase", 90815),
    ("Germantown", 90713),
    ("Gladstone", 90310),
    ("Glenolden", 90213),
    ("Glenside", 90411),
    ("Gravers", 90719),
    ("Gray 30th Street", 90004),
    ("Gwynedd Valley", 90528),
    ("Hatboro", 90416),
    ("Haverford", 90517),
    ("Highland", 90802),
    ("Highland Avenue", 90206),
    ("Holmesburg Jct", 90708),
    ("Ivy Ridge", 90222),
    ("Jefferson Station", 90006),
    ("Jenkintown Wyncote", 90410),
    ("Langhorne", 90324),
    ("Lansdale", 90531),
    ("Lansdowne", 90311),
    ("Lawndale", 90812),
    ("Levittown", 90702),
    ("Link Belt", 90534),
    ("Main Street", 90227),
    ("Malvern", 90505),
    ("Manayunk", 90221),
    ("Marcus Hook", 90205),
    ("Meadowbrook", 90317),
    ("Media", 90302),
    ("Melrose Park", 90408),
    ("Merion", 90521),
    ("Miquon", 90223),
    ("Morton", 90306),
    ("Mount Airy", 90717),
    ("Moylan-Rose Valley", 90303),
    ("Narberth", 90520),
    ("Neshaminy", 90323),
    ("New Britain", 90536),
    ("Newark", 90201),
    ("Noble", 90315),
    ("Norristown - Elm Street", 90228),
    ("Norristown T.C.", 90226),
    ("North Broad", 90008),
    ("North Hills", 90523),
    ("North Philadelphia", 90810),
    ("North Philadelphia Amtrak", 90711),
    ("North Wales", 90529),
    ("Norwood", 90212),
    ("Olney", 90811),
    ("Oreland", 90524),
    ("Overbrook", 90522),
    ("Paoli", 90506),
    ("Penllyn", 90527),
    ("Penn Medicine Station", 90406),
    ("Pennbrook", 90530),
    ("Philmont", 90319),
    ("Primos", 90308),
    ("Prospect Park - Moore", 90211),
    ("Queen Lane", 90809),
    ("Radnor", 90513),
    ("Richard Allen Lane", 90804),
    ("Ridley Park", 90210),
    ("Rosemont", 90515),
    ("Roslyn", 90413),
    ("Rydal", 90316),
    ("Ryers", 90814),
    ("Secane", 90307),
    ("Sedgwick", 90716),
    ("Sharon Hill", 90215),
    ("Somerton", 90321),
    ("Spring Mill", 90224),
    ("St. Davids", 90512),
    ("St. Martins", 90803),
    ("Stenton", 90715),
    ("Strafford", 90510),
    ("Suburban Station", 90005),
    ("Swarthmore", 90305),
    ("Tacony", 90709),
    ("Temple University", 90007),
    ("Thorndale", 90501),
    ("Torresdale", 90707),
    ("Trenton", 90701),
    ("Trevose", 90322),
    ("Tulpehocken", 90807),
    ("Upsal", 90806),
    ("Villanova", 90514),
    ("Wallingford", 90304),
    ("Warminster", 90417),
    ("Washington Lane", 90714),
    ("Wawa", 90300),
    ("Wayne", 90511),
    ("Wayne Junction", 90009),
    ("West Trenton", 90327),
    ("Whitford", 90503),
    ("Willow Grove", 90415),
    ("Wilmington", 90203),
    ("Wissahickon", 90220),
    ("Wister", 90712),
    ("Woodbourne", 90325),
    ("Wyndmoor", 90718),
    ("Wynnefield Avenue", 90003),
    ("Wynnewood", 90519),
    ("Yardley", 90326),
];

const STOP_LAT_LONS: &[(&str, f64, f64)] = &[
    ("49th Street", 39.9436111, -75.2166667),
    ("9th Street Lansdale", 40.2500000, -75.2791667),
    ("Airport Terminal A", 39.8761111, -75.2452778),
    ("Airport Terminal B", 39.8772222, -75.2413889),
    ("Airport Terminal C D", 39.8780556, -75.2400000),
    ("Airport Terminal E F", 39.8794444, -75.2397222),
    ("Allegheny", 40.0036111, -75.1647222),
    ("Ambler", 40.1536111, -75.2247222),
    ("Angora", 39.9447222, -75.2386111),
    ("Ardmore", 40.0083333, -75.2902778),
    ("Ardsley", 40.1141667, -75.1530556),
    ("Bala", 40.0011111, -75.2277778),
    ("Berwyn", 40.0480556, -75.4422222),
    ("Bethayres", 40.1166667, -75.0683333),
    ("Bridesburg", 40.0105556, -75.0697222),
    ("Bristol", 40.1047222, -74.8547222),
    ("Bryn Mawr", 40.0219444, -75.3163889),
    ("Carpenter", 40.0511111, -75.1913889),
    ("Chalfont", 40.2877778, -75.2097222),
    ("Chelten Avenue", 40.0300000, -75.1808333),
    ("Cheltenham", 40.0580556, -75.0927778),
    ("Chester", 39.8497222, -75.3600000),
    ("Chestnut Hill East", 40.0811111, -75.2072222),
    ("Chestnut Hill West", 40.0763889, -75.2083333),
    ("Churchman's Crossing", 39.6950000, -75.6725000),
    ("Claymont", 39.7977778, -75.4522222),
    ("Clifton-Aldan", 39.9266667, -75.2902778),
    ("Colmar", 40.2683333, -75.2544444),
    ("Conshohocken", 40.0722222, -75.3086111),
    ("Cornwells Heights", 40.0716667, -74.9522222),
    ("Crestmont", 40.1333333, -75.1186111),
    ("Croydon", 40.0936111, -74.9066667),
    ("Crum Lynne", 39.8719444, -75.3311111),
    ("Curtis Park", 39.9080556, -75.2650000),
    ("Cynwyd", 40.0066667, -75.2316667),
    ("Darby", 39.9130556, -75.2544444),
    ("Daylesford", 40.0430556, -75.4605556),
    ("Delaware Valley College", 40.2972222, -75.1616667),
    ("Devon", 40.0472222, -75.4227778),
    ("Downingtown", 40.0022222, -75.7102778),
    ("Doylestown", 40.3063889, -75.1302778),
    ("East Falls", 40.0113889, -75.1919444),
    ("Eastwick", 39.8927778, -75.2438889),
    ("Eddington", 40.0830556, -74.9336111),
    ("Eddystone", 39.8572222, -75.3422222),
    ("Elkins Park", 40.0713889, -75.1277778),
    ("Elwyn", 39.9075000, -75.4116667),
    ("Exton", 40.0191667, -75.6227778),
    ("Fern Rock T C", 40.0405556, -75.1347222),
    ("Fernwood-Yeadon", 39.9397222, -75.2558333),
    ("Folcroft", 39.9005556, -75.2797222),
    ("Forest Hills", 40.1277778, -75.0205556),
    ("Fort Washington", 40.1358333, -75.2122222),
    ("Fortuna", 40.2594444, -75.2661111),
    ("Fox Chase", 40.0763889, -75.0833333),
    ("Germantown", 40.0375000, -75.1716667),
    ("Gladstone", 39.9327778, -75.2822222),
    ("Glenolden", 39.8963889, -75.2900000),
    ("Glenside", 40.1013889, -75.1536111),
    ("Gravers", 40.0775000, -75.2016667),
    ("Gray 30th Street", 39.9566667, -75.1816667),
    ("Gwynedd Valley", 40.1847222, -75.2569444),
    ("Hatboro", 40.1761111, -75.1025000),
    ("Haverford", 40.0138889, -75.2997222),
    ("Highland", 40.0705556, -75.2111111),
    ("Highland Avenue", 39.8336111, -75.3933333),
    ("Holmesburg Jct", 40.0327778, -75.0236111),
    ("Ivy Ridge", 40.0341667, -75.2355556),
    ("Jefferson Station", 39.9525000, -75.1580556),
    ("Jenkintown Wyncote", 40.0927778, -75.1375000),
    ("Langhorne", 40.1608333, -74.9125000),
    ("Lansdale", 40.2427778, -75.2850000),
    ("Lansdowne", 39.9375000, -75.2708333),
    ("Lawndale", 40.0513889, -75.1030556),
    ("Levittown", 40.1402778, -74.8169444),
    ("Link Belt", 40.2738889, -75.2466667),
    ("Main Street", 40.1172222, -75.3486111),
    ("Malvern", 40.0363889, -75.5155556),
    ("Manayunk", 40.0269444, -75.2250000),
    ("Marcus Hook", 39.8216667, -75.4194444),
    ("Meadowbrook", 40.1113889, -75.0925000),
    ("Media", 39.9144444, -75.3950000),
    ("Melrose Park", 40.0594444, -75.1291667),
    ("Merion", 39.9986111, -75.2513889),
    ("Miquon", 40.0586111, -75.2663889),
    ("Morton", 39.9077778, -75.3288889),
    ("Mount Airy", 40.0652778, -75.1908333),
    ("Moylan-Rose Valley", 39.9061111, -75.3886111),
    ("Narberth", 40.0047222, -75.2613889),
    ("Neshaminy", 40.1469444, -74.9616667),
    ("New Britain", 40.2975000, -75.1797222),
    ("Newark", 39.6705556, -75.7527778),
    ("Noble", 40.1044444, -75.1241667),
    ("Norristown - Elm Street", 40.1208333, -75.3450000),
    ("Norristown T.C.", 40.1127778, -75.3441667),
    ("North Broad", 39.9922222, -75.1538889),
    ("North Hills", 40.1119444, -75.1694444),
    ("North Philadelphia", 39.9977778, -75.1563889),
    ("North Philadelphia Amtrak", 39.9972222, -75.1550000),
    ("North Wales", 40.2141667, -75.2772222),
    ("Norwood", 39.8916667, -75.3016667),
    ("Olney", 40.0333333, -75.1227778),
    ("Oreland", 40.1183333, -75.1838889),
    ("Overbrook", 39.9894444, -75.2494444),
    ("Paoli", 40.0430556, -75.4827778),
    ("Penllyn", 40.1700000, -75.2441667),
    ("Penn Medicine Station", 39.9480556, -75.1902778),
    ("Pennbrook", 40.2302778, -75.2816667),
    ("Philmont", 40.1219444, -75.0436111),
    ("Primos", 39.9216667, -75.2983333),
    ("Prospect Park - Moore", 39.8883333, -75.3088889),
    ("Queen Lane", 40.0233333, -75.1780556),
    ("Radnor", 40.0447222, -75.3588889),
    ("Richard Allen Lane", 40.0575000, -75.1947222),
    ("Ridley Park", 39.8805556, -75.3222222),
    ("Rosemont", 40.0277778, -75.3266667),
    ("Roslyn", 40.1208333, -75.1341667),
    ("Rydal", 40.1075000, -75.1105556),
    ("Ryers", 40.0641667, -75.0863889),
    ("Secane", 39.9158333, -75.3097222),
    ("Sedgwick", 40.0627778, -75.1852778),
    ("Sharon Hill", 39.9044444, -75.2708333),
    ("Somerton", 40.1305556, -75.0119444),
    ("Spring Mill", 40.0741667, -75.2861111),
    ("St. Davids", 40.0438889, -75.3725000),
    ("St. Martins", 40.0658333, -75.2044444),
    ("Stenton", 40.0605556, -75.1786111),
    ("Strafford", 40.0494444, -75.4030556),
    ("Suburban Station", 39.9538889, -75.1677778),
    ("Swarthmore", 39.9022222, -75.3508333),
    ("Tacony", 40.0233333, -75.0388889),
    ("Temple University", 39.9813889, -75.1494444),
    ("Thorndale", 39.9927778, -75.7636111),
    ("Torresdale", 40.0544444, -74.9844444),
    ("Trenton", 40.2177778, -74.7550000),
    ("Trevose", 40.1402778, -74.9825000),
    ("Tulpehocken", 40.0352778, -75.1869444),
    ("Upsal", 40.0425000, -75.1900000),
    ("Villanova", 40.0383333, -75.3416667),
    ("Wallingford", 39.9036111, -75.3719444),
    ("Warminster", 40.1952778, -75.0891667),
    ("Washington Lane", 40.0508333, -75.1713889),
    ("Wawa", 39.901147, -75.459633),
    ("Wayne", 40.0458333, -75.3866667),
    ("Wayne Junction", 40.0222222, -75.1600000),
    ("West Trenton", 40.2577778, -74.8152778),
    ("Whitford", 40.0147222, -75.6380556),
    ("Willow Grove", 40.1438889, -75.1141667),
    ("Wilmington", 39.7372222, -75.5511111),
    ("Wissahickon", 40.0166667, -75.2102778),
    ("Wister", 40.0361111, -75.1611111),
    ("Woodbourne", 40.1925000, -74.8891667),
    ("Wyndmoor", 40.0733333, -75.1966667),
    ("Wynnefield Avenue", 39.9900000, -75.2255556),
    ("Wynnewood", 40.0027778, -75.2725000),
    ("Yardley", 40.2352778, -74.8305556),
];

fn catalog_stops() -> Vec<RegionalRailStop> {
    entries::<RegionalRailStop>()
        .into_iter()
        .filter(|p| !matches!(p, RegionalRailStop::Unknown(_)))
        .collect()
}

#[test]
fn test_regional_rail_line_ids_test() {
    let lines = entries::<RegionalRailsLine>();
    assert_eq!(ROUTE_IDS.len(), lines.len());

    let gtfs_line_ids = ROUTE_IDS.iter().copied().collect::<BTreeSet<&str>>();
    let enum_line_ids = lines.iter().map(|line| line.id()).collect::<BTreeSet<&str>>();

    assert_eq!(gtfs_line_ids, enum_line_ids);
}

#[test]
fn test_regional_rail_name_test() {
    assert_eq!(STOP_NAMES.len(), catalog_stops().len());

    let gtfs_stop_names = STOP_NAMES.iter().copied().collect::<BTreeSet<&str>>();
    let enum_stop_names = catalog_stops()
        .iter()
        .map(|stop| stop.to_string())
        .collect::<BTreeSet<String>>();

    assert_eq!(gtfs_stop_names.len(), enum_stop_names.len());
    for (gtfs_itr, enum_itr) in gtfs_stop_names.into_iter().zip(enum_stop_names) {
        assert_eq!(gtfs_itr, enum_itr);
    }
}

#[test]
fn test_regional_rail_stop_id_test() {
    let gtfs_stop_names_to_stop_id = STOP_IDS.iter().copied().collect::<BTreeMap<&str, u32>>();

    let enum_stop_names_to_stop_id = catalog_stops()
        .iter()
        .map(|stop| (stop.to_string(), stop.stop_id().expect("stop id should be populated")))
        .collect::<BTreeMap<String, u32>>();

    assert_eq!(gtfs_stop_names_to_stop_id.len(), enum_stop_names_to_stop_id.len());
    for (gtfs_itr, enum_itr) in gtfs_stop_names_to_stop_id
        .into_iter()
        .zip(enum_stop_names_to_stop_id)
    {
        assert_eq!(gtfs_itr.0, enum_itr.0);
        assert_eq!(gtfs_itr.1, enum_itr.1);
    }
}

#[test]
fn test_deserialize_regional_rail() {
    for name in STOP_NAMES {
        let stop = RegionalRailStop::from_name(name);
        assert!(!matches!(stop, RegionalRailStop::Unknown(_)), "Could not deserialize stop name {}", name);
    }
}

#[test]
fn test_regional_rail_lat_long_test() {
    let gtfs_stop_names_to_lat_long = STOP_LAT_LONS
        .iter()
        .map(|(name, lat, lon)| (*name, (*lat, *lon)))
        .collect::<BTreeMap<&str, (f64, f64)>>();

    let enum_stop_names_to_lat_long = catalog_stops()
        .iter()
        .map(|stop| {
            let (lat, lon) = stop.coordinate().expect("Lat/Long should be populated");
            (stop.to_string(), (f64::from(lat) / 1e7, f64::from(lon) / 1e7))
        })
        .collect::<BTreeMap<String, (f64, f64)>>();

    assert_eq!(gtfs_stop_names_to_lat_long.len(), enum_stop_names_to_lat_long.len());
    for (gtfs_itr, enum_itr) in gtfs_stop_names_to_lat_long
        .into_iter()
        .zip(enum_stop_names_to_lat_long)
    {
        assert_eq!(gtfs_itr.0, enum_itr.0);
        assert_eq!(gtfs_itr.1, enum_itr.1);
    }
}
