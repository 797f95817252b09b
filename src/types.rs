use vstd::prelude::*;

use crate::catalog::{
    Catalog, display_name, entry_matches, find_entry, first_five_match, first_match, is_first_match,
    is_tidy, lemma_first_five_match, lemma_first_match_of_sole, lemma_tidy_is_trimmed, spelled_as,
    str_views,
};
use crate::errors::Error;
use crate::text::{ci_eq, lemma_ci_eq_refl, lemma_ci_eq_symmetric, lower_code, trim, trimmed};

verus! {

/// The kinds of transport that the authority runs.
#[derive(Clone, Copy, Debug, PartialEq, Eq, Structural, PartialOrd, Ord, Hash)]
pub enum TransportType {
    Bus,
    RegionalRail,
    Nhsl,
    Subway,
    Trolley,
}

impl Catalog for TransportType {
    open spec fn spec_count() -> nat {
        5
    }

    open spec fn spec_entry(i: int) -> Self {
        if i == 0 {
            Self::Bus
        } else if i == 1 {
            Self::RegionalRail
        } else if i == 2 {
            Self::Nhsl
        } else if i == 3 {
            Self::Subway
        } else {
            Self::Trolley
        }
    }

    open spec fn spec_names(&self) -> Seq<Seq<char>> {
        match self {
            Self::Bus => seq!["Bus"@],
            Self::RegionalRail => seq!["RegionalRail"@],
            Self::Nhsl => seq!["Nhsl"@],
            Self::Subway => seq!["Subway"@],
            Self::Trolley => seq!["Trolley"@],
        }
    }

    open spec fn spec_ignores_case() -> bool {
        false
    }

    fn count() -> (r: usize) {
        5
    }

    fn entry(i: usize) -> (r: Self) {
        match i {
            0 => Self::Bus,
            1 => Self::RegionalRail,
            2 => Self::Nhsl,
            3 => Self::Subway,
            _ => Self::Trolley,
        }
    }

    fn names(&self) -> (r: Vec<&'static str>) {
        let r = match self {
            Self::Bus => vec!["Bus"],
            Self::RegionalRail => vec!["RegionalRail"],
            Self::Nhsl => vec!["Nhsl"],
            Self::Subway => vec!["Subway"],
            Self::Trolley => vec!["Trolley"],
        };
        assert(str_views(r@) =~= self.spec_names());
        r
    }

    fn ignores_case() -> (r: bool) {
        false
    }
}

/// The service tier of a train.
#[derive(Clone, Debug, PartialEq, Eq, PartialOrd, Ord, Hash)]
pub enum ServiceType {
    Express,
    Local,
    /// A name that the catalog does not hold, as it was written.
    Unknown(String),
}

impl Catalog for ServiceType {
    open spec fn spec_count() -> nat {
        2
    }

    open spec fn spec_entry(i: int) -> Self {
        if i == 0 {
            Self::Express
        } else {
            Self::Local
        }
    }

    open spec fn spec_names(&self) -> Seq<Seq<char>> {
        match self {
            Self::Express => seq!["EXPRESS"@],
            Self::Local => seq!["LOCAL"@],
            Self::Unknown(_) => seq![],
        }
    }

    open spec fn spec_ignores_case() -> bool {
        false
    }

    fn count() -> (r: usize) {
        2
    }

    fn entry(i: usize) -> (r: Self) {
        match i {
            0 => Self::Express,
            _ => Self::Local,
        }
    }

    fn names(&self) -> (r: Vec<&'static str>) {
        let r = match self {
            Self::Express => vec!["EXPRESS"],
            Self::Local => vec!["LOCAL"],
            Self::Unknown(_) => vec![],
        };
        assert(str_views(r@) =~= self.spec_names());
        r
    }

    fn ignores_case() -> (r: bool) {
        false
    }
}

/// The regional rail lines.
#[derive(Clone, Copy, Debug, PartialEq, Eq, Structural, PartialOrd, Ord, Hash)]
pub enum RegionalRailsLine {
    Airport,
    ChestnutHillEast,
    ChestnutHillWest,
    CenterCity,
    Cynwyd,
    FoxChase,
    LansdaleDoylestown,
    MediaWawa,
    ManayunkNorristown,
    PaoliThorndale,
    Trenton,
    Warminster,
    WilmingtonNewark,
    WestTrenton,
}

impl Catalog for RegionalRailsLine {
    open spec fn spec_count() -> nat {
        14
    }

    open spec fn spec_entry(i: int) -> Self {
        if i == 0 {
            Self::Airport
        } else if i == 1 {
            Self::ChestnutHillEast
        } else if i == 2 {
            Self::ChestnutHillWest
        } else if i == 3 {
            Self::CenterCity
        } else if i == 4 {
            Self::Cynwyd
        } else if i == 5 {
            Self::FoxChase
        } else if i == 6 {
            Self::LansdaleDoylestown
        } else if i == 7 {
            Self::MediaWawa
        } else if i == 8 {
            Self::ManayunkNorristown
        } else if i == 9 {
            Self::PaoliThorndale
        } else if i == 10 {
            Self::Trenton
        } else if i == 11 {
            Self::Warminster
        } else if i == 12 {
            Self::WilmingtonNewark
        } else {
            Self::WestTrenton
        }
    }

    open spec fn spec_names(&self) -> Seq<Seq<char>> {
        match self {
            Self::Airport => seq!["Airport"@],
            Self::ChestnutHillEast => seq!["Chestnut Hill East"@],
            Self::ChestnutHillWest => seq!["Chestnut Hill West"@],
            Self::CenterCity => seq!["Center City"@],
            Self::Cynwyd => seq!["Cynwyd"@],
            Self::FoxChase => seq!["Fox Chase"@],
            Self::LansdaleDoylestown => seq!["Lansdale/Doylestown"@],
            Self::MediaWawa => seq!["Media/Wawa"@],
            Self::ManayunkNorristown => seq!["Manayunk/Norristown"@],
            Self::PaoliThorndale => seq!["Paoli/Thorndale"@],
            Self::Trenton => seq!["Trenton"@],
            Self::Warminster => seq!["Warminster"@],
            Self::WilmingtonNewark => seq!["Wilmington/Newark"@],
            Self::WestTrenton => seq!["West Trenton"@],
        }
    }

    open spec fn spec_ignores_case() -> bool {
        true
    }

    fn count() -> (r: usize) {
        14
    }

    fn entry(i: usize) -> (r: Self) {
        match i {
            0 => Self::Airport,
            1 => Self::ChestnutHillEast,
            2 => Self::ChestnutHillWest,
            3 => Self::CenterCity,
            4 => Self::Cynwyd,
            5 => Self::FoxChase,
            6 => Self::LansdaleDoylestown,
            7 => Self::MediaWawa,
            8 => Self::ManayunkNorristown,
            9 => Self::PaoliThorndale,
            10 => Self::Trenton,
            11 => Self::Warminster,
            12 => Self::WilmingtonNewark,
            _ => Self::WestTrenton,
        }
    }

    fn names(&self) -> (r: Vec<&'static str>) {
        let r = match self {
            Self::Airport => vec!["Airport"],
            Self::ChestnutHillEast => vec!["Chestnut Hill East"],
            Self::ChestnutHillWest => vec!["Chestnut Hill West"],
            Self::CenterCity => vec!["Center City"],
            Self::Cynwyd => vec!["Cynwyd"],
            Self::FoxChase => vec!["Fox Chase"],
            Self::LansdaleDoylestown => vec!["Lansdale/Doylestown"],
            Self::MediaWawa => vec!["Media/Wawa"],
            Self::ManayunkNorristown => vec!["Manayunk/Norristown"],
            Self::PaoliThorndale => vec!["Paoli/Thorndale"],
            Self::Trenton => vec!["Trenton"],
            Self::Warminster => vec!["Warminster"],
            Self::WilmingtonNewark => vec!["Wilmington/Newark"],
            Self::WestTrenton => vec!["West Trenton"],
        };
        assert(str_views(r@) =~= self.spec_names());
        r
    }

    fn ignores_case() -> (r: bool) {
        true
    }
}

/// The regional rail stops, in catalog order.
#[derive(Clone, Debug, PartialEq, Eq, PartialOrd, Ord, Hash)]
pub enum RegionalRailStop {
    AirportTerminalEF,
    AirportTerminalCD,
    AirportTerminalB,
    AirportTerminalA,
    Eastwick,
    Stenton,
    Wyndmoor,
    Wister,
    Gravers,
    Germantown,
    Sedgwick,
    ChestnutHillEast,
    WashingtonLane,
    MountAiry,
    NorthPhiladelphia,
    Upsal,
    StMartins,
    ChestnutHillWest,
    CheltenAvenue,
    Carpenter,
    RichardAllenLane,
    Tulpehocken,
    Highland,
    QueenLane,
    Cynwyd,
    Bala,
    WynnefieldAvenue,
    FoxChase,
    Ryers,
    Cheltenham,
    Lawndale,
    Olney,
    Doylestown,
    DelawareValleyCollege,
    NewBritain,
    Chalfont,
    LinkBelt,
    Colmar,
    Fortuna,
    NinthStreetLansdale,
    Lansdale,
    Pennbrook,
    NorthWales,
    GwyneddValley,
    Penllyn,
    Ambler,
    FortWashington,
    Oreland,
    NorthHills,
    NorthBroad,
    Wawa,
    Elwyn,
    Media,
    MoylanRoseValley,
    Wallingford,
    Swarthmore,
    Morton,
    Secane,
    Primos,
    CliftonAldan,
    Gladstone,
    Lansdowne,
    FernwoodYeadon,
    Angora,
    FortyNinthStreet,
    NorristownElmStreet,
    MainStreet,
    NorristownTC,
    Conshohocken,
    SpringMill,
    Miquon,
    IvyRidge,
    Manayunk,
    Wissahickon,
    EastFalls,
    Allegheny,
    Thorndale,
    Downingtown,
    Whitford,
    Exton,
    Malvern,
    Paoli,
    Wayne,
    StDavids,
    Berwyn,
    Devon,
    Villanova,
    Rosemont,
    BrynMawr,
    Strafford,
    Daylesford,
    Radnor,
    Haverford,
    Ardmore,
    Wynnewood,
    Narberth,
    Overbrook,
    Merion,
    Trenton,
    Levittown,
    Bristol,
    Croydon,
    Eddington,
    CornwellsHeights,
    Torresdale,
    HolmesburgJct,
    Tacony,
    Bridesburg,
    NorthPhiladelphiaAmtrak,
    Warminster,
    Hatboro,
    WillowGrove,
    Crestmont,
    Roslyn,
    Ardsley,
    Newark,
    ChurchmansCrossing,
    Wilmington,
    Claymont,
    MarcusHook,
    HighlandAvenue,
    Chester,
    Eddystone,
    CrumLynne,
    RidleyPark,
    ProspectParkMoore,
    Norwood,
    Glenolden,
    Folcroft,
    SharonHill,
    CurtisPark,
    Darby,
    WestTrenton,
    Yardley,
    Woodbourne,
    Langhorne,
    Neshaminy,
    Trevose,
    Somerton,
    ForestHills,
    Philmont,
    Bethayres,
    Meadowbrook,
    Rydal,
    Noble,
    WayneJunction,
    Glenside,
    JenkintownWyncote,
    FernRockTC,
    ElkinsPark,
    MelrosePark,
    Gray30thStreet,
    SuburbanStation,
    JeffersonStation,
    TempleUniversity,
    PennMedicineStation,
    /// A name that the catalog does not hold, as it was written.
    Unknown(String),
}

impl Catalog for RegionalRailStop {
    open spec fn spec_count() -> nat {
        156
    }

    open spec fn spec_entry(i: int) -> Self {
        if i == 0 {
            Self::AirportTerminalEF
        } else if i == 1 {
            Self::AirportTerminalCD
        } else if i == 2 {
            Self::AirportTerminalB
        } else if i == 3 {
            Self::AirportTerminalA
        } else if i == 4 {
            Self::Eastwick
        } else if i == 5 {
            Self::Stenton
        } else if i == 6 {
            Self::Wyndmoor
        } else if i == 7 {
            Self::Wister
        } else if i == 8 {
            Self::Gravers
        } else if i == 9 {
            Self::Germantown
        } else if i == 10 {
            Self::Sedgwick
        } else if i == 11 {
            Self::ChestnutHillEast
        } else if i == 12 {
            Self::WashingtonLane
        } else if i == 13 {
            Self::MountAiry
        } else if i == 14 {
            Self::NorthPhiladelphia
        } else if i == 15 {
            Self::Upsal
        } else if i == 16 {
            Self::StMartins
        } else if i == 17 {
            Self::ChestnutHillWest
        } else if i == 18 {
            Self::CheltenAvenue
        } else if i == 19 {
            Self::Carpenter
        } else if i == 20 {
            Self::RichardAllenLane
        } else if i == 21 {
            Self::Tulpehocken
        } else if i == 22 {
            Self::Highland
        } else if i == 23 {
            Self::QueenLane
        } else if i == 24 {
            Self::Cynwyd
        } else if i == 25 {
            Self::Bala
        } else if i == 26 {
            Self::WynnefieldAvenue
        } else if i == 27 {
            Self::FoxChase
        } else if i == 28 {
            Self::Ryers
        } else if i == 29 {
            Self::Cheltenham
        } else if i == 30 {
            Self::Lawndale
        } else if i == 31 {
            Self::Olney
        } else if i == 32 {
            Self::Doylestown
        } else if i == 33 {
            Self::DelawareValleyCollege
        } else if i == 34 {
            Self::NewBritain
        } else if i == 35 {
            Self::Chalfont
        } else if i == 36 {
            Self::LinkBelt
        } else if i == 37 {
            Self::Colmar
        } else if i == 38 {
            Self::Fortuna
        } else if i == 39 {
            Self::NinthStreetLansdale
        } else if i == 40 {
            Self::Lansdale
        } else if i == 41 {
            Self::Pennbrook
        } else if i == 42 {
            Self::NorthWales
        } else if i == 43 {
            Self::GwyneddValley
        } else if i == 44 {
            Self::Penllyn
        } else if i == 45 {
            Self::Ambler
        } else if i == 46 {
            Self::FortWashington
        } else if i == 47 {
            Self::Oreland
        } else if i == 48 {
            Self::NorthHills
        } else if i == 49 {
            Self::NorthBroad
        } else if i == 50 {
            Self::Wawa
        } else if i == 51 {
            Self::Elwyn
        } else if i == 52 {
            Self::Media
        } else if i == 53 {
            Self::MoylanRoseValley
        } else if i == 54 {
            Self::Wallingford
        } else if i == 55 {
            Self::Swarthmore
        } else if i == 56 {
            Self::Morton
        } else if i == 57 {
            Self::Secane
        } else if i == 58 {
            Self::Primos
        } else if i == 59 {
            Self::CliftonAldan
        } else if i == 60 {
            Self::Gladstone
        } else if i == 61 {
            Self::Lansdowne
        } else if i == 62 {
            Self::FernwoodYeadon
        } else if i == 63 {
            Self::Angora
        } else if i == 64 {
            Self::FortyNinthStreet
        } else if i == 65 {
            Self::NorristownElmStreet
        } else if i == 66 {
            Self::MainStreet
        } else if i == 67 {
            Self::NorristownTC
        } else if i == 68 {
            Self::Conshohocken
        } else if i == 69 {
            Self::SpringMill
        } else if i == 70 {
            Self::Miquon
        } else if i == 71 {
            Self::IvyRidge
        } else if i == 72 {
            Self::Manayunk
        } else if i == 73 {
            Self::Wissahickon
        } else if i == 74 {
            Self::EastFalls
        } else if i == 75 {
            Self::Allegheny
        } else if i == 76 {
            Self::Thorndale
        } else if i == 77 {
            Self::Downingtown
        } else if i == 78 {
            Self::Whitford
        } else if i == 79 {
            Self::Exton
        } else if i == 80 {
            Self::Malvern
        } else if i == 81 {
            Self::Paoli
        } else if i == 82 {
            Self::Wayne
        } else if i == 83 {
            Self::StDavids
        } else if i == 84 {
            Self::Berwyn
        } else if i == 85 {
            Self::Devon
        } else if i == 86 {
            Self::Villanova
        } else if i == 87 {
            Self::Rosemont
        } else if i == 88 {
            Self::BrynMawr
        } else if i == 89 {
            Self::Strafford
        } else if i == 90 {
            Self::Daylesford
        } else if i == 91 {
            Self::Radnor
        } else if i == 92 {
            Self::Haverford
        } else if i == 93 {
            Self::Ardmore
        } else if i == 94 {
            Self::Wynnewood
        } else if i == 95 {
            Self::Narberth
        } else if i == 96 {
            Self::Overbrook
        } else if i == 97 {
            Self::Merion
        } else if i == 98 {
            Self::Trenton
        } else if i == 99 {
            Self::Levittown
        } else if i == 100 {
            Self::Bristol
        } else if i == 101 {
            Self::Croydon
        } else if i == 102 {
            Self::Eddington
        } else if i == 103 {
            Self::CornwellsHeights
        } else if i == 104 {
            Self::Torresdale
        } else if i == 105 {
            Self::HolmesburgJct
        } else if i == 106 {
            Self::Tacony
        } else if i == 107 {
            Self::Bridesburg
        } else if i == 108 {
            Self::NorthPhiladelphiaAmtrak
        } else if i == 109 {
            Self::Warminster
        } else if i == 110 {
            Self::Hatboro
        } else if i == 111 {
            Self::WillowGrove
        } else if i == 112 {
            Self::Crestmont
        } else if i == 113 {
            Self::Roslyn
        } else if i == 114 {
            Self::Ardsley
        } else if i == 115 {
            Self::Newark
        } else if i == 116 {
            Self::ChurchmansCrossing
        } else if i == 117 {
            Self::Wilmington
        } else if i == 118 {
            Self::Claymont
        } else if i == 119 {
            Self::MarcusHook
        } else if i == 120 {
            Self::HighlandAvenue
        } else if i == 121 {
            Self::Chester
        } else if i == 122 {
            Self::Eddystone
        } else if i == 123 {
            Self::CrumLynne
        } else if i == 124 {
            Self::RidleyPark
        } else if i == 125 {
            Self::ProspectParkMoore
        } else if i == 126 {
            Self::Norwood
        } else if i == 127 {
            Self::Glenolden
        } else if i == 128 {
            Self::Folcroft
        } else if i == 129 {
            Self::SharonHill
        } else if i == 130 {
            Self::CurtisPark
        } else if i == 131 {
            Self::Darby
        } else if i == 132 {
            Self::WestTrenton
        } else if i == 133 {
            Self::Yardley
        } else if i == 134 {
            Self::Woodbourne
        } else if i == 135 {
            Self::Langhorne
        } else if i == 136 {
            Self::Neshaminy
        } else if i == 137 {
            Self::Trevose
        } else if i == 138 {
            Self::Somerton
        } else if i == 139 {
            Self::ForestHills
        } else if i == 140 {
            Self::Philmont
        } else if i == 141 {
            Self::Bethayres
        } else if i == 142 {
            Self::Meadowbrook
        } else if i == 143 {
            Self::Rydal
        } else if i == 144 {
            Self::Noble
        } else if i == 145 {
            Self::WayneJunction
        } else if i == 146 {
            Self::Glenside
        } else if i == 147 {
            Self::JenkintownWyncote
        } else if i == 148 {
            Self::FernRockTC
        } else if i == 149 {
            Self::ElkinsPark
        } else if i == 150 {
            Self::MelrosePark
        } else if i == 151 {
            Self::Gray30thStreet
        } else if i == 152 {
            Self::SuburbanStation
        } else if i == 153 {
            Self::JeffersonStation
        } else if i == 154 {
            Self::TempleUniversity
        } else {
            Self::PennMedicineStation
        }
    }

    open spec fn spec_names(&self) -> Seq<Seq<char>> {
        match self {
            Self::AirportTerminalEF => seq!["Airport Terminal E F"@, "Airport Terminal E-F"@],
            Self::AirportTerminalCD => seq!["Airport Terminal C D"@, "Airport Terminal C-D"@],
            Self::AirportTerminalB => seq!["Airport Terminal B"@],
            Self::AirportTerminalA => seq!["Airport Terminal A"@],
            Self::Eastwick => seq!["Eastwick"@],
            Self::Stenton => seq!["Stenton"@],
            Self::Wyndmoor => seq!["Wyndmoor"@],
            Self::Wister => seq!["Wister"@],
            Self::Gravers => seq!["Gravers"@],
            Self::Germantown => seq!["Germantown"@],
            Self::Sedgwick => seq!["Sedgwick"@],
            Self::ChestnutHillEast => seq!["Chestnut Hill East"@, "Chestnut H East"@],
            Self::WashingtonLane => seq!["Washington Lane"@],
            Self::MountAiry => seq!["Mount Airy"@],
            Self::NorthPhiladelphia => seq!["North Philadelphia"@],
            Self::Upsal => seq!["Upsal"@],
            Self::StMartins => seq!["St. Martins"@],
            Self::ChestnutHillWest => seq!["Chestnut Hill West"@, "Chestnut H West"@],
            Self::CheltenAvenue => seq!["Chelten Avenue"@],
            Self::Carpenter => seq!["Carpenter"@],
            Self::RichardAllenLane => seq!["Richard Allen Lane"@],
            Self::Tulpehocken => seq!["Tulpehocken"@],
            Self::Highland => seq!["Highland"@],
            Self::QueenLane => seq!["Queen Lane"@],
            Self::Cynwyd => seq!["Cynwyd"@],
            Self::Bala => seq!["Bala"@],
            Self::WynnefieldAvenue => seq!["Wynnefield Avenue"@],
            Self::FoxChase => seq!["Fox Chase"@],
            Self::Ryers => seq!["Ryers"@],
            Self::Cheltenham => seq!["Cheltenham"@],
            Self::Lawndale => seq!["Lawndale"@],
            Self::Olney => seq!["Olney"@],
            Self::Doylestown => seq!["Doylestown"@],
            Self::DelawareValleyCollege => seq!["Delaware Valley College"@],
            Self::NewBritain => seq!["New Britain"@],
            Self::Chalfont => seq!["Chalfont"@],
            Self::LinkBelt => seq!["Link Belt"@],
            Self::Colmar => seq!["Colmar"@],
            Self::Fortuna => seq!["Fortuna"@],
            Self::NinthStreetLansdale => seq!["9th Street Lansdale"@],
            Self::Lansdale => seq!["Lansdale"@],
            Self::Pennbrook => seq!["Pennbrook"@],
            Self::NorthWales => seq!["North Wales"@],
            Self::GwyneddValley => seq!["Gwynedd Valley"@],
            Self::Penllyn => seq!["Penllyn"@],
            Self::Ambler => seq!["Ambler"@],
            Self::FortWashington => seq!["Fort Washington"@],
            Self::Oreland => seq!["Oreland"@],
            Self::NorthHills => seq!["North Hills"@],
            Self::NorthBroad => seq!["North Broad"@],
            Self::Wawa => seq!["Wawa"@],
            Self::Elwyn => seq!["Elwyn"@, "Elwyn Station"@],
            Self::Media => seq!["Media"@],
            Self::MoylanRoseValley => seq!["Moylan-Rose Valley"@],
            Self::Wallingford => seq!["Wallingford"@],
            Self::Swarthmore => seq!["Swarthmore"@],
            Self::Morton => seq!["Morton"@],
            Self::Secane => seq!["Secane"@],
            Self::Primos => seq!["Primos"@],
            Self::CliftonAldan => seq!["Clifton-Aldan"@],
            Self::Gladstone => seq!["Gladstone"@],
            Self::Lansdowne => seq!["Lansdowne"@],
            Self::FernwoodYeadon => seq!["Fernwood-Yeadon"@, "Fernwood"@],
            Self::Angora => seq!["Angora"@],
            Self::FortyNinthStreet => seq!["49th Street"@],
            Self::NorristownElmStreet => seq!["Norristown - Elm Street"@, "Norristown Elm Street"@],
            Self::MainStreet => seq!["Main Street"@],
            Self::NorristownTC => seq!["Norristown T.C."@, "Norristown"@, "Norristown TC"@],
            Self::Conshohocken => seq!["Conshohocken"@],
            Self::SpringMill => seq!["Spring Mill"@],
            Self::Miquon => seq!["Miquon"@],
            Self::IvyRidge => seq!["Ivy Ridge"@],
            Self::Manayunk => seq!["Manayunk"@],
            Self::Wissahickon => seq!["Wissahickon"@],
            Self::EastFalls => seq!["East Falls"@],
            Self::Allegheny => seq!["Allegheny"@],
            Self::Thorndale => seq!["Thorndale"@],
            Self::Downingtown => seq!["Downingtown"@],
            Self::Whitford => seq!["Whitford"@],
            Self::Exton => seq!["Exton"@],
            Self::Malvern => seq!["Malvern"@],
            Self::Paoli => seq!["Paoli"@],
            Self::Wayne => seq!["Wayne"@],
            Self::StDavids => seq!["St. Davids"@],
            Self::Berwyn => seq!["Berwyn"@],
            Self::Devon => seq!["Devon"@],
            Self::Villanova => seq!["Villanova"@],
            Self::Rosemont => seq!["Rosemont"@],
            Self::BrynMawr => seq!["Bryn Mawr"@],
            Self::Strafford => seq!["Strafford"@],
            Self::Daylesford => seq!["Daylesford"@],
            Self::Radnor => seq!["Radnor"@],
            Self::Haverford => seq!["Haverford"@],
            Self::Ardmore => seq!["Ardmore"@],
            Self::Wynnewood => seq!["Wynnewood"@],
            Self::Narberth => seq!["Narberth"@],
            Self::Overbrook => seq!["Overbrook"@],
            Self::Merion => seq!["Merion"@],
            Self::Trenton => seq!["Trenton"@],
            Self::Levittown => seq!["Levittown"@],
            Self::Bristol => seq!["Bristol"@],
            Self::Croydon => seq!["Croydon"@],
            Self::Eddington => seq!["Eddington"@],
            Self::CornwellsHeights => seq!["Cornwells Heights"@],
            Self::Torresdale => seq!["Torresdale"@],
            Self::HolmesburgJct => seq!["Holmesburg Jct"@],
            Self::Tacony => seq!["Tacony"@],
            Self::Bridesburg => seq!["Bridesburg"@],
            Self::NorthPhiladelphiaAmtrak => seq!["North Philadelphia Amtrak"@],
            Self::Warminster => seq!["Warminster"@],
            Self::Hatboro => seq!["Hatboro"@],
            Self::WillowGrove => seq!["Willow Grove"@],
            Self::Crestmont => seq!["Crestmont"@],
            Self::Roslyn => seq!["Roslyn"@],
            Self::Ardsley => seq!["Ardsley"@],
            Self::Newark => seq!["Newark"@],
            Self::ChurchmansCrossing => seq!["Churchman's Crossing"@],
            Self::Wilmington => seq!["Wilmington"@],
            Self::Claymont => seq!["Claymont"@],
            Self::MarcusHook => seq!["Marcus Hook"@],
            Self::HighlandAvenue => seq!["Highland Avenue"@],
            Self::Chester => seq!["Chester"@],
            Self::Eddystone => seq!["Eddystone"@],
            Self::CrumLynne => seq!["Crum Lynne"@],
            Self::RidleyPark => seq!["Ridley Park"@],
            Self::ProspectParkMoore => seq!["Prospect Park - Moore"@, "Prospect Park Moore"@],
            Self::Norwood => seq!["Norwood"@],
            Self::Glenolden => seq!["Glenolden"@],
            Self::Folcroft => seq!["Folcroft"@],
            Self::SharonHill => seq!["Sharon Hill"@],
            Self::CurtisPark => seq!["Curtis Park"@],
            Self::Darby => seq!["Darby"@],
            Self::WestTrenton => seq!["West Trenton"@],
            Self::Yardley => seq!["Yardley"@],
            Self::Woodbourne => seq!["Woodbourne"@],
            Self::Langhorne => seq!["Langhorne"@],
            Self::Neshaminy => seq!["Neshaminy"@],
            Self::Trevose => seq!["Trevose"@],
            Self::Somerton => seq!["Somerton"@],
            Self::ForestHills => seq!["Forest Hills"@],
            Self::Philmont => seq!["Philmont"@],
            Self::Bethayres => seq!["Bethayres"@],
            Self::Meadowbrook => seq!["Meadowbrook"@],
            Self::Rydal => seq!["Rydal"@],
            Self::Noble => seq!["Noble"@],
            Self::WayneJunction => seq!["Wayne Junction"@],
            Self::Glenside => seq!["Glenside"@],
            Self::JenkintownWyncote => seq!["Jenkintown Wyncote"@],
            Self::FernRockTC => seq!["Fern Rock T C"@],
            Self::ElkinsPark => seq!["Elkins Park"@],
            Self::MelrosePark => seq!["Melrose Park"@],
            Self::Gray30thStreet => seq!["Gray 30th Street"@, "30th Street Station"@, "30th St"@, "30th Street Gray"@, "Gray 30th St"@],
            Self::SuburbanStation => seq!["Suburban Station"@],
            Self::JeffersonStation => seq!["Jefferson Station"@, "Jefferson"@],
            Self::TempleUniversity => seq!["Temple University"@, "Temple U"@],
            Self::PennMedicineStation => seq!["Penn Medicine Station"@, "Penn Medical Station"@],
            Self::Unknown(_) => seq![],
        }
    }

    open spec fn spec_ignores_case() -> bool {
        true
    }

    fn count() -> (r: usize) {
        156
    }

    fn entry(i: usize) -> (r: Self) {
        match i {
            0 => Self::AirportTerminalEF,
            1 => Self::AirportTerminalCD,
            2 => Self::AirportTerminalB,
            3 => Self::AirportTerminalA,
            4 => Self::Eastwick,
            5 => Self::Stenton,
            6 => Self::Wyndmoor,
            7 => Self::Wister,
            8 => Self::Gravers,
            9 => Self::Germantown,
            10 => Self::Sedgwick,
            11 => Self::ChestnutHillEast,
            12 => Self::WashingtonLane,
            13 => Self::MountAiry,
            14 => Self::NorthPhiladelphia,
            15 => Self::Upsal,
            16 => Self::StMartins,
            17 => Self::ChestnutHillWest,
            18 => Self::CheltenAvenue,
            19 => Self::Carpenter,
            20 => Self::RichardAllenLane,
            21 => Self::Tulpehocken,
            22 => Self::Highland,
            23 => Self::QueenLane,
            24 => Self::Cynwyd,
            25 => Self::Bala,
            26 => Self::WynnefieldAvenue,
            27 => Self::FoxChase,
            28 => Self::Ryers,
            29 => Self::Cheltenham,
            30 => Self::Lawndale,
            31 => Self::Olney,
            32 => Self::Doylestown,
            33 => Self::DelawareValleyCollege,
            34 => Self::NewBritain,
            35 => Self::Chalfont,
            36 => Self::LinkBelt,
            37 => Self::Colmar,
            38 => Self::Fortuna,
            39 => Self::NinthStreetLansdale,
            40 => Self::Lansdale,
            41 => Self::Pennbrook,
            42 => Self::NorthWales,
            43 => Self::GwyneddValley,
            44 => Self::Penllyn,
            45 => Self::Ambler,
            46 => Self::FortWashington,
            47 => Self::Oreland,
            48 => Self::NorthHills,
            49 => Self::NorthBroad,
            50 => Self::Wawa,
            51 => Self::Elwyn,
            52 => Self::Media,
            53 => Self::MoylanRoseValley,
            54 => Self::Wallingford,
            55 => Self::Swarthmore,
            56 => Self::Morton,
            57 => Self::Secane,
            58 => Self::Primos,
            59 => Self::CliftonAldan,
            60 => Self::Gladstone,
            61 => Self::Lansdowne,
            62 => Self::FernwoodYeadon,
            63 => Self::Angora,
            64 => Self::FortyNinthStreet,
            65 => Self::NorristownElmStreet,
            66 => Self::MainStreet,
            67 => Self::NorristownTC,
            68 => Self::Conshohocken,
            69 => Self::SpringMill,
            70 => Self::Miquon,
            71 => Self::IvyRidge,
            72 => Self::Manayunk,
            73 => Self::Wissahickon,
            74 => Self::EastFalls,
            75 => Self::Allegheny,
            76 => Self::Thorndale,
            77 => Self::Downingtown,
            78 => Self::Whitford,
            79 => Self::Exton,
            80 => Self::Malvern,
            81 => Self::Paoli,
            82 => Self::Wayne,
            83 => Self::StDavids,
            84 => Self::Berwyn,
            85 => Self::Devon,
            86 => Self::Villanova,
            87 => Self::Rosemont,
            88 => Self::BrynMawr,
            89 => Self::Strafford,
            90 => Self::Daylesford,
            91 => Self::Radnor,
            92 => Self::Haverford,
            93 => Self::Ardmore,
            94 => Self::Wynnewood,
            95 => Self::Narberth,
            96 => Self::Overbrook,
            97 => Self::Merion,
            98 => Self::Trenton,
            99 => Self::Levittown,
            100 => Self::Bristol,
            101 => Self::Croydon,
            102 => Self::Eddington,
            103 => Self::CornwellsHeights,
            104 => Self::Torresdale,
            105 => Self::HolmesburgJct,
            106 => Self::Tacony,
            107 => Self::Bridesburg,
            108 => Self::NorthPhiladelphiaAmtrak,
            109 => Self::Warminster,
            110 => Self::Hatboro,
            111 => Self::WillowGrove,
            112 => Self::Crestmont,
            113 => Self::Roslyn,
            114 => Self::Ardsley,
            115 => Self::Newark,
            116 => Self::ChurchmansCrossing,
            117 => Self::Wilmington,
            118 => Self::Claymont,
            119 => Self::MarcusHook,
            120 => Self::HighlandAvenue,
            121 => Self::Chester,
            122 => Self::Eddystone,
            123 => Self::CrumLynne,
            124 => Self::RidleyPark,
            125 => Self::ProspectParkMoore,
            126 => Self::Norwood,
            127 => Self::Glenolden,
            128 => Self::Folcroft,
            129 => Self::SharonHill,
            130 => Self::CurtisPark,
            131 => Self::Darby,
            132 => Self::WestTrenton,
            133 => Self::Yardley,
            134 => Self::Woodbourne,
            135 => Self::Langhorne,
            136 => Self::Neshaminy,
            137 => Self::Trevose,
            138 => Self::Somerton,
            139 => Self::ForestHills,
            140 => Self::Philmont,
            141 => Self::Bethayres,
            142 => Self::Meadowbrook,
            143 => Self::Rydal,
            144 => Self::Noble,
            145 => Self::WayneJunction,
            146 => Self::Glenside,
            147 => Self::JenkintownWyncote,
            148 => Self::FernRockTC,
            149 => Self::ElkinsPark,
            150 => Self::MelrosePark,
            151 => Self::Gray30thStreet,
            152 => Self::SuburbanStation,
            153 => Self::JeffersonStation,
            154 => Self::TempleUniversity,
            _ => Self::PennMedicineStation,
        }
    }

    fn names(&self) -> (r: Vec<&'static str>) {
        let r = match self {
            Self::AirportTerminalEF => vec!["Airport Terminal E F", "Airport Terminal E-F"],
            Self::AirportTerminalCD => vec!["Airport Terminal C D", "Airport Terminal C-D"],
            Self::AirportTerminalB => vec!["Airport Terminal B"],
            Self::AirportTerminalA => vec!["Airport Terminal A"],
            Self::Eastwick => vec!["Eastwick"],
            Self::Stenton => vec!["Stenton"],
            Self::Wyndmoor => vec!["Wyndmoor"],
            Self::Wister => vec!["Wister"],
            Self::Gravers => vec!["Gravers"],
            Self::Germantown => vec!["Germantown"],
            Self::Sedgwick => vec!["Sedgwick"],
            Self::ChestnutHillEast => vec!["Chestnut Hill East", "Chestnut H East"],
            Self::WashingtonLane => vec!["Washington Lane"],
            Self::MountAiry => vec!["Mount Airy"],
            Self::NorthPhiladelphia => vec!["North Philadelphia"],
            Self::Upsal => vec!["Upsal"],
            Self::StMartins => vec!["St. Martins"],
            Self::ChestnutHillWest => vec!["Chestnut Hill West", "Chestnut H West"],
            Self::CheltenAvenue => vec!["Chelten Avenue"],
            Self::Carpenter => vec!["Carpenter"],
            Self::RichardAllenLane => vec!["Richard Allen Lane"],
            Self::Tulpehocken => vec!["Tulpehocken"],
            Self::Highland => vec!["Highland"],
            Self::QueenLane => vec!["Queen Lane"],
            Self::Cynwyd => vec!["Cynwyd"],
            Self::Bala => vec!["Bala"],
            Self::WynnefieldAvenue => vec!["Wynnefield Avenue"],
            Self::FoxChase => vec!["Fox Chase"],
            Self::Ryers => vec!["Ryers"],
            Self::Cheltenham => vec!["Cheltenham"],
            Self::Lawndale => vec!["Lawndale"],
            Self::Olney => vec!["Olney"],
            Self::Doylestown => vec!["Doylestown"],
            Self::DelawareValleyCollege => vec!["Delaware Valley College"],
            Self::NewBritain => vec!["New Britain"],
            Self::Chalfont => vec!["Chalfont"],
            Self::LinkBelt => vec!["Link Belt"],
            Self::Colmar => vec!["Colmar"],
            Self::Fortuna => vec!["Fortuna"],
            Self::NinthStreetLansdale => vec!["9th Street Lansdale"],
            Self::Lansdale => vec!["Lansdale"],
            Self::Pennbrook => vec!["Pennbrook"],
            Self::NorthWales => vec!["North Wales"],
            Self::GwyneddValley => vec!["Gwynedd Valley"],
            Self::Penllyn => vec!["Penllyn"],
            Self::Ambler => vec!["Ambler"],
            Self::FortWashington => vec!["Fort Washington"],
            Self::Oreland => vec!["Oreland"],
            Self::NorthHills => vec!["North Hills"],
            Self::NorthBroad => vec!["North Broad"],
            Self::Wawa => vec!["Wawa"],
            Self::Elwyn => vec!["Elwyn", "Elwyn Station"],
            Self::Media => vec!["Media"],
            Self::MoylanRoseValley => vec!["Moylan-Rose Valley"],
            Self::Wallingford => vec!["Wallingford"],
            Self::Swarthmore => vec!["Swarthmore"],
            Self::Morton => vec!["Morton"],
            Self::Secane => vec!["Secane"],
            Self::Primos => vec!["Primos"],
            Self::CliftonAldan => vec!["Clifton-Aldan"],
            Self::Gladstone => vec!["Gladstone"],
            Self::Lansdowne => vec!["Lansdowne"],
            Self::FernwoodYeadon => vec!["Fernwood-Yeadon", "Fernwood"],
            Self::Angora => vec!["Angora"],
            Self::FortyNinthStreet => vec!["49th Street"],
            Self::NorristownElmStreet => vec!["Norristown - Elm Street", "Norristown Elm Street"],
            Self::MainStreet => vec!["Main Street"],
            Self::NorristownTC => vec!["Norristown T.C.", "Norristown", "Norristown TC"],
            Self::Conshohocken => vec!["Conshohocken"],
            Self::SpringMill => vec!["Spring Mill"],
            Self::Miquon => vec!["Miquon"],
            Self::IvyRidge => vec!["Ivy Ridge"],
            Self::Manayunk => vec!["Manayunk"],
            Self::Wissahickon => vec!["Wissahickon"],
            Self::EastFalls => vec!["East Falls"],
            Self::Allegheny => vec!["Allegheny"],
            Self::Thorndale => vec!["Thorndale"],
            Self::Downingtown => vec!["Downingtown"],
            Self::Whitford => vec!["Whitford"],
            Self::Exton => vec!["Exton"],
            Self::Malvern => vec!["Malvern"],
            Self::Paoli => vec!["Paoli"],
            Self::Wayne => vec!["Wayne"],
            Self::StDavids => vec!["St. Davids"],
            Self::Berwyn => vec!["Berwyn"],
            Self::Devon => vec!["Devon"],
            Self::Villanova => vec!["Villanova"],
            Self::Rosemont => vec!["Rosemont"],
            Self::BrynMawr => vec!["Bryn Mawr"],
            Self::Strafford => vec!["Strafford"],
            Self::Daylesford => vec!["Daylesford"],
            Self::Radnor => vec!["Radnor"],
            Self::Haverford => vec!["Haverford"],
            Self::Ardmore => vec!["Ardmore"],
            Self::Wynnewood => vec!["Wynnewood"],
            Self::Narberth => vec!["Narberth"],
            Self::Overbrook => vec!["Overbrook"],
            Self::Merion => vec!["Merion"],
            Self::Trenton => vec!["Trenton"],
            Self::Levittown => vec!["Levittown"],
            Self::Bristol => vec!["Bristol"],
            Self::Croydon => vec!["Croydon"],
            Self::Eddington => vec!["Eddington"],
            Self::CornwellsHeights => vec!["Cornwells Heights"],
            Self::Torresdale => vec!["Torresdale"],
            Self::HolmesburgJct => vec!["Holmesburg Jct"],
            Self::Tacony => vec!["Tacony"],
            Self::Bridesburg => vec!["Bridesburg"],
            Self::NorthPhiladelphiaAmtrak => vec!["North Philadelphia Amtrak"],
            Self::Warminster => vec!["Warminster"],
            Self::Hatboro => vec!["Hatboro"],
            Self::WillowGrove => vec!["Willow Grove"],
            Self::Crestmont => vec!["Crestmont"],
            Self::Roslyn => vec!["Roslyn"],
            Self::Ardsley => vec!["Ardsley"],
            Self::Newark => vec!["Newark"],
            Self::ChurchmansCrossing => vec!["Churchman's Crossing"],
            Self::Wilmington => vec!["Wilmington"],
            Self::Claymont => vec!["Claymont"],
            Self::MarcusHook => vec!["Marcus Hook"],
            Self::HighlandAvenue => vec!["Highland Avenue"],
            Self::Chester => vec!["Chester"],
            Self::Eddystone => vec!["Eddystone"],
            Self::CrumLynne => vec!["Crum Lynne"],
            Self::RidleyPark => vec!["Ridley Park"],
            Self::ProspectParkMoore => vec!["Prospect Park - Moore", "Prospect Park Moore"],
            Self::Norwood => vec!["Norwood"],
            Self::Glenolden => vec!["Glenolden"],
            Self::Folcroft => vec!["Folcroft"],
            Self::SharonHill => vec!["Sharon Hill"],
            Self::CurtisPark => vec!["Curtis Park"],
            Self::Darby => vec!["Darby"],
            Self::WestTrenton => vec!["West Trenton"],
            Self::Yardley => vec!["Yardley"],
            Self::Woodbourne => vec!["Woodbourne"],
            Self::Langhorne => vec!["Langhorne"],
            Self::Neshaminy => vec!["Neshaminy"],
            Self::Trevose => vec!["Trevose"],
            Self::Somerton => vec!["Somerton"],
            Self::ForestHills => vec!["Forest Hills"],
            Self::Philmont => vec!["Philmont"],
            Self::Bethayres => vec!["Bethayres"],
            Self::Meadowbrook => vec!["Meadowbrook"],
            Self::Rydal => vec!["Rydal"],
            Self::Noble => vec!["Noble"],
            Self::WayneJunction => vec!["Wayne Junction"],
            Self::Glenside => vec!["Glenside"],
            Self::JenkintownWyncote => vec!["Jenkintown Wyncote"],
            Self::FernRockTC => vec!["Fern Rock T C"],
            Self::ElkinsPark => vec!["Elkins Park"],
            Self::MelrosePark => vec!["Melrose Park"],
            Self::Gray30thStreet => vec!["Gray 30th Street", "30th Street Station", "30th St", "30th Street Gray", "Gray 30th St"],
            Self::SuburbanStation => vec!["Suburban Station"],
            Self::JeffersonStation => vec!["Jefferson Station", "Jefferson"],
            Self::TempleUniversity => vec!["Temple University", "Temple U"],
            Self::PennMedicineStation => vec!["Penn Medicine Station", "Penn Medical Station"],
            Self::Unknown(_) => vec![],
        };
        assert(str_views(r@) =~= self.spec_names());
        r
    }

    fn ignores_case() -> (r: bool) {
        true
    }
}

/// The stops of the Norristown High Speed Line.
#[derive(Clone, Copy, Debug, PartialEq, Eq, Structural, PartialOrd, Ord, Hash)]
pub enum NhslStop {
    NorristownTransportationCenter,
    BridgeportStation,
    DeKalbStStation,
    HughesParkStation,
    GulphMillsStation,
    MatsonfordStation,
    CountyLineStation,
    RadnorStation,
    VillanovaStation,
    StadiumStation,
    GarrettHillStation,
    RobertsRdStation,
    BrynMawrStation,
    HaverfordStation,
    ArdmoreJunctionStation,
    WynnewoodRdStation,
    BeechwoodBrooklineStation,
    PenfieldStationManoaRd,
    TownshipLineRdStation,
    ParkviewStation,
    SixtyNinthStTransportationCenter,
}

impl Catalog for NhslStop {
    open spec fn spec_count() -> nat {
        21
    }

    open spec fn spec_entry(i: int) -> Self {
        if i == 0 {
            Self::NorristownTransportationCenter
        } else if i == 1 {
            Self::BridgeportStation
        } else if i == 2 {
            Self::DeKalbStStation
        } else if i == 3 {
            Self::HughesParkStation
        } else if i == 4 {
            Self::GulphMillsStation
        } else if i == 5 {
            Self::MatsonfordStation
        } else if i == 6 {
            Self::CountyLineStation
        } else if i == 7 {
            Self::RadnorStation
        } else if i == 8 {
            Self::VillanovaStation
        } else if i == 9 {
            Self::StadiumStation
        } else if i == 10 {
            Self::GarrettHillStation
        } else if i == 11 {
            Self::RobertsRdStation
        } else if i == 12 {
            Self::BrynMawrStation
        } else if i == 13 {
            Self::HaverfordStation
        } else if i == 14 {
            Self::ArdmoreJunctionStation
        } else if i == 15 {
            Self::WynnewoodRdStation
        } else if i == 16 {
            Self::BeechwoodBrooklineStation
        } else if i == 17 {
            Self::PenfieldStationManoaRd
        } else if i == 18 {
            Self::TownshipLineRdStation
        } else if i == 19 {
            Self::ParkviewStation
        } else {
            Self::SixtyNinthStTransportationCenter
        }
    }

    open spec fn spec_names(&self) -> Seq<Seq<char>> {
        match self {
            Self::NorristownTransportationCenter => seq!["Norristown Transportation Center - NHSL"@],
            Self::BridgeportStation => seq!["Bridgeport Station - NHSL"@],
            Self::DeKalbStStation => seq!["DeKalb St Station - NHSL"@],
            Self::HughesParkStation => seq!["Hughes Park Station - NHSL"@],
            Self::GulphMillsStation => seq!["Gulph Mills Station - NHSL"@],
            Self::MatsonfordStation => seq!["Matsonford Station - NHSL"@],
            Self::CountyLineStation => seq!["County Line Station - NHSL"@],
            Self::RadnorStation => seq!["Radnor Station - NHSL"@],
            Self::VillanovaStation => seq!["Villanova Station - NHSL"@],
            Self::StadiumStation => seq!["Stadium Station - NHSL"@],
            Self::GarrettHillStation => seq!["Garrett Hill Station - NHSL"@],
            Self::RobertsRdStation => seq!["Roberts Rd Station - NHSL"@],
            Self::BrynMawrStation => seq!["Bryn Mawr Station - NHSL"@],
            Self::HaverfordStation => seq!["Haverford Station - NHSL"@],
            Self::ArdmoreJunctionStation => seq!["Ardmore Junction Station - NHSL"@],
            Self::WynnewoodRdStation => seq!["Wynnewood Rd Station - NHSL"@],
            Self::BeechwoodBrooklineStation => seq!["Beechwood Brookline Station - NHSL"@],
            Self::PenfieldStationManoaRd => seq!["Penfield Station Manoa Rd - NHSL"@],
            Self::TownshipLineRdStation => seq!["Township Line Rd Station - NHSL"@],
            Self::ParkviewStation => seq!["Parkview Station - NHSL"@],
            Self::SixtyNinthStTransportationCenter => seq!["69th St Transportation Center - NHSL"@],
        }
    }

    open spec fn spec_ignores_case() -> bool {
        false
    }

    fn count() -> (r: usize) {
        21
    }

    fn entry(i: usize) -> (r: Self) {
        match i {
            0 => Self::NorristownTransportationCenter,
            1 => Self::BridgeportStation,
            2 => Self::DeKalbStStation,
            3 => Self::HughesParkStation,
            4 => Self::GulphMillsStation,
            5 => Self::MatsonfordStation,
            6 => Self::CountyLineStation,
            7 => Self::RadnorStation,
            8 => Self::VillanovaStation,
            9 => Self::StadiumStation,
            10 => Self::GarrettHillStation,
            11 => Self::RobertsRdStation,
            12 => Self::BrynMawrStation,
            13 => Self::HaverfordStation,
            14 => Self::ArdmoreJunctionStation,
            15 => Self::WynnewoodRdStation,
            16 => Self::BeechwoodBrooklineStation,
            17 => Self::PenfieldStationManoaRd,
            18 => Self::TownshipLineRdStation,
            19 => Self::ParkviewStation,
            _ => Self::SixtyNinthStTransportationCenter,
        }
    }

    fn names(&self) -> (r: Vec<&'static str>) {
        let r = match self {
            Self::NorristownTransportationCenter => vec!["Norristown Transportation Center - NHSL"],
            Self::BridgeportStation => vec!["Bridgeport Station - NHSL"],
            Self::DeKalbStStation => vec!["DeKalb St Station - NHSL"],
            Self::HughesParkStation => vec!["Hughes Park Station - NHSL"],
            Self::GulphMillsStation => vec!["Gulph Mills Station - NHSL"],
            Self::MatsonfordStation => vec!["Matsonford Station - NHSL"],
            Self::CountyLineStation => vec!["County Line Station - NHSL"],
            Self::RadnorStation => vec!["Radnor Station - NHSL"],
            Self::VillanovaStation => vec!["Villanova Station - NHSL"],
            Self::StadiumStation => vec!["Stadium Station - NHSL"],
            Self::GarrettHillStation => vec!["Garrett Hill Station - NHSL"],
            Self::RobertsRdStation => vec!["Roberts Rd Station - NHSL"],
            Self::BrynMawrStation => vec!["Bryn Mawr Station - NHSL"],
            Self::HaverfordStation => vec!["Haverford Station - NHSL"],
            Self::ArdmoreJunctionStation => vec!["Ardmore Junction Station - NHSL"],
            Self::WynnewoodRdStation => vec!["Wynnewood Rd Station - NHSL"],
            Self::BeechwoodBrooklineStation => vec!["Beechwood Brookline Station - NHSL"],
            Self::PenfieldStationManoaRd => vec!["Penfield Station Manoa Rd - NHSL"],
            Self::TownshipLineRdStation => vec!["Township Line Rd Station - NHSL"],
            Self::ParkviewStation => vec!["Parkview Station - NHSL"],
            Self::SixtyNinthStTransportationCenter => vec!["69th St Transportation Center - NHSL"],
        };
        assert(str_views(r@) =~= self.spec_names());
        r
    }

    fn ignores_case() -> (r: bool) {
        false
    }
}

impl TransportType {
    /// The display name.
    pub open spec fn spec_display(&self) -> Seq<char> {
        self.spec_names()[0]
    }

    /// Reads a transport type from its exact name.
    pub fn from_name(s: &str) -> (r: Option<Self>)
        ensures
            r == (match first_match::<Self>(s@) {
                Some(i) => Some(Self::spec_entry(i)),
                None => None,
            }),
    {
        find_entry::<Self>(s)
    }

    /// The display name.
    pub fn to_string(&self) -> (r: String)
        ensures
            r@ == self.spec_display(),
    {
        display_name(self)
    }
}

impl ServiceType {
    /// The display name; for a tier outside the catalog, its text.
    pub open spec fn spec_display(&self) -> Seq<char> {
        match self {
            Self::Unknown(t) => t@,
            _ => self.spec_names()[0],
        }
    }

    /// `self` is what reading the text `s` gives: the tier of that exact name, or else
    /// `Unknown` carrying `s`.
    pub open spec fn read_from(self, s: Seq<char>) -> bool {
        match first_match::<Self>(s) {
            Some(i) => self == Self::spec_entry(i),
            None => self matches Self::Unknown(t) && t@ == s,
        }
    }

    /// Reads a service tier; never fails.
    pub fn from_name(s: &str) -> (r: Self)
        ensures
            r.read_from(s@),
    {
        match find_entry::<Self>(s) {
            Some(e) => e,
            None => Self::Unknown(String::from_str(s)),
        }
    }

    /// The display name; for a tier outside the catalog, its text.
    pub fn to_string(&self) -> (r: String)
        ensures
            r@ == self.spec_display(),
    {
        match self {
            Self::Unknown(t) => t.clone(),
            _ => display_name(self),
        }
    }
}

impl NhslStop {
    /// The display name.
    pub open spec fn spec_display(&self) -> Seq<char> {
        self.spec_names()[0]
    }

    /// Reads a stop from its exact name.
    pub fn from_name(s: &str) -> (r: Option<Self>)
        ensures
            r == (match first_match::<Self>(s@) {
                Some(i) => Some(Self::spec_entry(i)),
                None => None,
            }),
    {
        find_entry::<Self>(s)
    }

    /// The display name.
    pub fn to_string(&self) -> (r: String)
        ensures
            r@ == self.spec_display(),
    {
        display_name(self)
    }
}

impl RegionalRailsLine {
    /// The display name.
    pub open spec fn spec_display(&self) -> Seq<char> {
        self.spec_names()[0]
    }

    /// The line that the text `s` names: the first line, in catalog order, with a spelling
    /// equal to the trimmed text up to ASCII case.
    pub open spec fn spec_from_name(s: Seq<char>) -> Option<Self> {
        match first_match::<Self>(trimmed(s)) {
            Some(i) => Some(Self::spec_entry(i)),
            None => None,
        }
    }

    /// Resolves a line name; `None` where no line has that name.
    pub fn from_name(s: &str) -> (r: Option<Self>)
        ensures
            r == Self::spec_from_name(s@),
    {
        find_entry::<Self>(trim(s))
    }

    /// The display name.
    pub fn to_string(&self) -> (r: String)
        ensures
            r@ == self.spec_display(),
    {
        display_name(self)
    }

    /// Every spelling of every line, in any ASCII case, resolves to that line.
    pub proof fn lemma_spelling_resolves(i: int, k: int, s: Seq<char>)
        requires
            0 <= i < Self::spec_count(),
            0 <= k < Self::spec_entry(i).spec_names().len(),
            ci_eq(Self::spec_entry(i).spec_names()[k], s),
        ensures
            Self::spec_from_name(s) == Some(Self::spec_entry(i)),
    {
        let e = Self::spec_entry(i);
        lemma_ci_eq_symmetric(e.spec_names()[k], s);
        assert(spelled_as::<Self>(e.spec_names()[k], s));
        assert(entry_matches(e, s));
        lemma_first_five_match(e, s);
        lemma_line_spellings_tidy(e);
        lemma_tidy_is_trimmed(e.spec_names()[k], s);
        assert forall|j: int|
            0 <= j < Self::spec_count() && entry_matches(#[trigger] Self::spec_entry(j), s) implies j
            == i by {
            lemma_first_five_match(Self::spec_entry(j), s);
            lemma_line_spellings_distinct(e, Self::spec_entry(j), s);
            Self::lemma_entry_position(i);
            Self::lemma_entry_position(j);
        }
        lemma_first_match_of_sole::<Self>(i, s);
    }

    /// Resolving the display name of a line gives that line back.
    pub proof fn lemma_display_round_trip(self)
        ensures
            Self::spec_from_name(self.spec_display()) == Some(self),
    {
        let i = self.spec_position();
        self.lemma_position_entry();
        lemma_ci_eq_refl(self.spec_names()[0]);
        Self::lemma_spelling_resolves(i, 0, self.spec_names()[0]);
    }

    /// The position of a catalog entry in declaration order.
    pub open spec fn spec_position(&self) -> int {
        match self {
            Self::Airport => 0,
            Self::ChestnutHillEast => 1,
            Self::ChestnutHillWest => 2,
            Self::CenterCity => 3,
            Self::Cynwyd => 4,
            Self::FoxChase => 5,
            Self::LansdaleDoylestown => 6,
            Self::MediaWawa => 7,
            Self::ManayunkNorristown => 8,
            Self::PaoliThorndale => 9,
            Self::Trenton => 10,
            Self::Warminster => 11,
            Self::WilmingtonNewark => 12,
            Self::WestTrenton => 13,
        }
    }

    /// Each position of the catalog holds the entry at that position.
    pub proof fn lemma_entry_position(i: int)
        requires
            0 <= i < Self::spec_count(),
        ensures
            Self::spec_entry(i).spec_position() == i,
    {
    }

    /// Each line stands in the catalog at its position.
    pub proof fn lemma_position_entry(self)
        ensures
            0 <= self.spec_position() < Self::spec_count(),
            Self::spec_entry(self.spec_position()) == self,
    {
    }
}

/// Every spelling in the catalog is tidy.
proof fn lemma_line_spellings_tidy(v: RegionalRailsLine)
    ensures
        forall|k: int| 0 <= k < v.spec_names().len() ==> is_tidy(#[trigger] v.spec_names()[k]),
{
    reveal_strlit("Airport");
    reveal_strlit("Center City");
    reveal_strlit("Chestnut Hill East");
    reveal_strlit("Chestnut Hill West");
    reveal_strlit("Cynwyd");
    reveal_strlit("Fox Chase");
    reveal_strlit("Lansdale/Doylestown");
    reveal_strlit("Manayunk/Norristown");
    reveal_strlit("Media/Wawa");
    reveal_strlit("Paoli/Thorndale");
    reveal_strlit("Trenton");
    reveal_strlit("Warminster");
    reveal_strlit("West Trenton");
    reveal_strlit("Wilmington/Newark");
}

impl RegionalRailsLine {
    /// `s` is one of the spellings of this entry, up to ASCII case.
    spec fn spelled_like(&self, s: Seq<char>) -> bool {
        match self {
            Self::Airport => ci_eq("Airport"@, s),
            Self::ChestnutHillEast => ci_eq("Chestnut Hill East"@, s),
            Self::ChestnutHillWest => ci_eq("Chestnut Hill West"@, s),
            Self::CenterCity => ci_eq("Center City"@, s),
            Self::Cynwyd => ci_eq("Cynwyd"@, s),
            Self::FoxChase => ci_eq("Fox Chase"@, s),
            Self::LansdaleDoylestown => ci_eq("Lansdale/Doylestown"@, s),
            Self::MediaWawa => ci_eq("Media/Wawa"@, s),
            Self::ManayunkNorristown => ci_eq("Manayunk/Norristown"@, s),
            Self::PaoliThorndale => ci_eq("Paoli/Thorndale"@, s),
            Self::Trenton => ci_eq("Trenton"@, s),
            Self::Warminster => ci_eq("Warminster"@, s),
            Self::WilmingtonNewark => ci_eq("Wilmington/Newark"@, s),
            Self::WestTrenton => ci_eq("West Trenton"@, s),
        }
    }
}

proof fn lemma_line_spellings_spelled_like(v: RegionalRailsLine, s: Seq<char>)
    ensures
        first_five_match(v, s) <==> v.spelled_like(s),
{
}

/// No two entries of the catalog share a spelling, up to ASCII case.
proof fn lemma_line_spellings_distinct(v: RegionalRailsLine, w: RegionalRailsLine, s: Seq<char>)
    requires
        first_five_match(v, s),
    ensures
        first_five_match(w, s) ==> v == w,
{
    lemma_line_spellings_spelled_like(v, s);
    lemma_line_spellings_spelled_like(w, s);
    lemma_line_spellings_distinct_by_length(v, w, s);
}

proof fn lemma_line_spellings_distinct_by_length(v: RegionalRailsLine, w: RegionalRailsLine, s: Seq<char>)
    requires
        v.spelled_like(s),
    ensures
        w.spelled_like(s) ==> v == w,
{
    reveal_strlit("Airport");
    reveal_strlit("Center City");
    reveal_strlit("Chestnut Hill East");
    reveal_strlit("Chestnut Hill West");
    reveal_strlit("Cynwyd");
    reveal_strlit("Fox Chase");
    reveal_strlit("Lansdale/Doylestown");
    reveal_strlit("Manayunk/Norristown");
    reveal_strlit("Media/Wawa");
    reveal_strlit("Paoli/Thorndale");
    reveal_strlit("Trenton");
    reveal_strlit("Warminster");
    reveal_strlit("West Trenton");
    reveal_strlit("Wilmington/Newark");
    // Split on the length of `s`, naming its folded characters so that each
    // spelling of that length can be told apart from the others.
    if s.len() == 0 {
    } else if s.len() == 1 {
        let ghost c0 = lower_code(s[0]);
    } else if s.len() == 2 {
        let ghost c0 = lower_code(s[0]);
        let ghost c1 = lower_code(s[1]);
    } else if s.len() == 3 {
        let ghost c0 = lower_code(s[0]);
        let ghost c1 = lower_code(s[1]);
        let ghost c2 = lower_code(s[2]);
    } else if s.len() == 4 {
        let ghost c0 = lower_code(s[0]);
        let ghost c1 = lower_code(s[1]);
        let ghost c2 = lower_code(s[2]);
        let ghost c3 = lower_code(s[3]);
    } else if s.len() == 5 {
        let ghost c0 = lower_code(s[0]);
        let ghost c1 = lower_code(s[1]);
        let ghost c2 = lower_code(s[2]);
        let ghost c3 = lower_code(s[3]);
        let ghost c4 = lower_code(s[4]);
    } else if s.len() == 6 {
        let ghost c0 = lower_code(s[0]);
        let ghost c1 = lower_code(s[1]);
        let ghost c2 = lower_code(s[2]);
        let ghost c3 = lower_code(s[3]);
        let ghost c4 = lower_code(s[4]);
        let ghost c5 = lower_code(s[5]);
    } else if s.len() == 7 {
        let ghost c0 = lower_code(s[0]);
        let ghost c1 = lower_code(s[1]);
        let ghost c2 = lower_code(s[2]);
        let ghost c3 = lower_code(s[3]);
        let ghost c4 = lower_code(s[4]);
        let ghost c5 = lower_code(s[5]);
        let ghost c6 = lower_code(s[6]);
    } else if s.len() == 8 {
        let ghost c0 = lower_code(s[0]);
        let ghost c1 = lower_code(s[1]);
        let ghost c2 = lower_code(s[2]);
        let ghost c3 = lower_code(s[3]);
        let ghost c4 = lower_code(s[4]);
        let ghost c5 = lower_code(s[5]);
        let ghost c6 = lower_code(s[6]);
        let ghost c7 = lower_code(s[7]);
    } else if s.len() == 9 {
        let ghost c0 = lower_code(s[0]);
        let ghost c1 = lower_code(s[1]);
        let ghost c2 = lower_code(s[2]);
        let ghost c3 = lower_code(s[3]);
        let ghost c4 = lower_code(s[4]);
        let ghost c5 = lower_code(s[5]);
        let ghost c6 = lower_code(s[6]);
        let ghost c7 = lower_code(s[7]);
        let ghost c8 = lower_code(s[8]);
    } else if s.len() == 10 {
        let ghost c0 = lower_code(s[0]);
        let ghost c1 = lower_code(s[1]);
        let ghost c2 = lower_code(s[2]);
        let ghost c3 = lower_code(s[3]);
        let ghost c4 = lower_code(s[4]);
        let ghost c5 = lower_code(s[5]);
        let ghost c6 = lower_code(s[6]);
        let ghost c7 = lower_code(s[7]);
        let ghost c8 = lower_code(s[8]);
        let ghost c9 = lower_code(s[9]);
    } else if s.len() == 11 {
        let ghost c0 = lower_code(s[0]);
        let ghost c1 = lower_code(s[1]);
        let ghost c2 = lower_code(s[2]);
        let ghost c3 = lower_code(s[3]);
        let ghost c4 = lower_code(s[4]);
        let ghost c5 = lower_code(s[5]);
        let ghost c6 = lower_code(s[6]);
        let ghost c7 = lower_code(s[7]);
        let ghost c8 = lower_code(s[8]);
        let ghost c9 = lower_code(s[9]);
        let ghost c10 = lower_code(s[10]);
    } else if s.len() == 12 {
        let ghost c0 = lower_code(s[0]);
        let ghost c1 = lower_code(s[1]);
        let ghost c2 = lower_code(s[2]);
        let ghost c3 = lower_code(s[3]);
        let ghost c4 = lower_code(s[4]);
        let ghost c5 = lower_code(s[5]);
        let ghost c6 = lower_code(s[6]);
        let ghost c7 = lower_code(s[7]);
        let ghost c8 = lower_code(s[8]);
        let ghost c9 = lower_code(s[9]);
        let ghost c10 = lower_code(s[10]);
        let ghost c11 = lower_code(s[11]);
    } else if s.len() == 13 {
        let ghost c0 = lower_code(s[0]);
        let ghost c1 = lower_code(s[1]);
        let ghost c2 = lower_code(s[2]);
        let ghost c3 = lower_code(s[3]);
        let ghost c4 = lower_code(s[4]);
        let ghost c5 = lower_code(s[5]);
        let ghost c6 = lower_code(s[6]);
        let ghost c7 = lower_code(s[7]);
        let ghost c8 = lower_code(s[8]);
        let ghost c9 = lower_code(s[9]);
        let ghost c10 = lower_code(s[10]);
        let ghost c11 = lower_code(s[11]);
        let ghost c12 = lower_code(s[12]);
    } else if s.len() == 14 {
        let ghost c0 = lower_code(s[0]);
        let ghost c1 = lower_code(s[1]);
        let ghost c2 = lower_code(s[2]);
        let ghost c3 = lower_code(s[3]);
        let ghost c4 = lower_code(s[4]);
        let ghost c5 = lower_code(s[5]);
        let ghost c6 = lower_code(s[6]);
        let ghost c7 = lower_code(s[7]);
        let ghost c8 = lower_code(s[8]);
        let ghost c9 = lower_code(s[9]);
        let ghost c10 = lower_code(s[10]);
        let ghost c11 = lower_code(s[11]);
        let ghost c12 = lower_code(s[12]);
        let ghost c13 = lower_code(s[13]);
    } else if s.len() == 15 {
        let ghost c0 = lower_code(s[0]);
        let ghost c1 = lower_code(s[1]);
        let ghost c2 = lower_code(s[2]);
        let ghost c3 = lower_code(s[3]);
        let ghost c4 = lower_code(s[4]);
        let ghost c5 = lower_code(s[5]);
        let ghost c6 = lower_code(s[6]);
        let ghost c7 = lower_code(s[7]);
        let ghost c8 = lower_code(s[8]);
        let ghost c9 = lower_code(s[9]);
        let ghost c10 = lower_code(s[10]);
        let ghost c11 = lower_code(s[11]);
        let ghost c12 = lower_code(s[12]);
        let ghost c13 = lower_code(s[13]);
        let ghost c14 = lower_code(s[14]);
    } else if s.len() == 16 {
        let ghost c0 = lower_code(s[0]);
        let ghost c1 = lower_code(s[1]);
        let ghost c2 = lower_code(s[2]);
        let ghost c3 = lower_code(s[3]);
        let ghost c4 = lower_code(s[4]);
        let ghost c5 = lower_code(s[5]);
        let ghost c6 = lower_code(s[6]);
        let ghost c7 = lower_code(s[7]);
        let ghost c8 = lower_code(s[8]);
        let ghost c9 = lower_code(s[9]);
        let ghost c10 = lower_code(s[10]);
        let ghost c11 = lower_code(s[11]);
        let ghost c12 = lower_code(s[12]);
        let ghost c13 = lower_code(s[13]);
        let ghost c14 = lower_code(s[14]);
        let ghost c15 = lower_code(s[15]);
    } else if s.len() == 17 {
        let ghost c0 = lower_code(s[0]);
        let ghost c1 = lower_code(s[1]);
        let ghost c2 = lower_code(s[2]);
        let ghost c3 = lower_code(s[3]);
        let ghost c4 = lower_code(s[4]);
        let ghost c5 = lower_code(s[5]);
        let ghost c6 = lower_code(s[6]);
        let ghost c7 = lower_code(s[7]);
        let ghost c8 = lower_code(s[8]);
        let ghost c9 = lower_code(s[9]);
        let ghost c10 = lower_code(s[10]);
        let ghost c11 = lower_code(s[11]);
        let ghost c12 = lower_code(s[12]);
        let ghost c13 = lower_code(s[13]);
        let ghost c14 = lower_code(s[14]);
        let ghost c15 = lower_code(s[15]);
        let ghost c16 = lower_code(s[16]);
    } else if s.len() == 18 {
        let ghost c0 = lower_code(s[0]);
        let ghost c1 = lower_code(s[1]);
        let ghost c2 = lower_code(s[2]);
        let ghost c3 = lower_code(s[3]);
        let ghost c4 = lower_code(s[4]);
        let ghost c5 = lower_code(s[5]);
        let ghost c6 = lower_code(s[6]);
        let ghost c7 = lower_code(s[7]);
        let ghost c8 = lower_code(s[8]);
        let ghost c9 = lower_code(s[9]);
        let ghost c10 = lower_code(s[10]);
        let ghost c11 = lower_code(s[11]);
        let ghost c12 = lower_code(s[12]);
        let ghost c13 = lower_code(s[13]);
        let ghost c14 = lower_code(s[14]);
        let ghost c15 = lower_code(s[15]);
        let ghost c16 = lower_code(s[16]);
        let ghost c17 = lower_code(s[17]);
    } else if s.len() == 19 {
        let ghost c0 = lower_code(s[0]);
        let ghost c1 = lower_code(s[1]);
        let ghost c2 = lower_code(s[2]);
        let ghost c3 = lower_code(s[3]);
        let ghost c4 = lower_code(s[4]);
        let ghost c5 = lower_code(s[5]);
        let ghost c6 = lower_code(s[6]);
        let ghost c7 = lower_code(s[7]);
        let ghost c8 = lower_code(s[8]);
        let ghost c9 = lower_code(s[9]);
        let ghost c10 = lower_code(s[10]);
        let ghost c11 = lower_code(s[11]);
        let ghost c12 = lower_code(s[12]);
        let ghost c13 = lower_code(s[13]);
        let ghost c14 = lower_code(s[14]);
        let ghost c15 = lower_code(s[15]);
        let ghost c16 = lower_code(s[16]);
        let ghost c17 = lower_code(s[17]);
        let ghost c18 = lower_code(s[18]);
    }
}


impl RegionalRailStop {
    /// The display name; for a stop outside the catalog, its text.
    pub open spec fn spec_display(&self) -> Seq<char> {
        match self {
            Self::Unknown(t) => t@,
            _ => self.spec_names()[0],
        }
    }

    /// `self` is what resolving the text `s` gives: the first stop, in catalog order, with a
    /// spelling equal to the trimmed text up to ASCII case, or else `Unknown` carrying `s`.
    pub open spec fn resolves_from(self, s: Seq<char>) -> bool {
        match first_match::<Self>(trimmed(s)) {
            Some(i) => self == Self::spec_entry(i),
            None => self matches Self::Unknown(t) && t@ == s,
        }
    }

    /// Resolves a stop name; never fails.
    pub fn from_name(s: &str) -> (r: Self)
        ensures
            r.resolves_from(s@),
    {
        match find_entry::<Self>(trim(s)) {
            Some(e) => e,
            None => Self::Unknown(String::from_str(s)),
        }
    }

    /// The display name; for a stop outside the catalog, its text.
    pub fn to_string(&self) -> (r: String)
        ensures
            r@ == self.spec_display(),
    {
        match self {
            Self::Unknown(t) => t.clone(),
            _ => display_name(self),
        }
    }

    /// Every spelling of every catalog stop, in any ASCII case, resolves to that stop.
    pub proof fn lemma_spelling_resolves(i: int, k: int, s: Seq<char>)
        requires
            0 <= i < Self::spec_count(),
            0 <= k < Self::spec_entry(i).spec_names().len(),
            ci_eq(Self::spec_entry(i).spec_names()[k], s),
        ensures
            Self::spec_entry(i).resolves_from(s),
    {
        let e = Self::spec_entry(i);
        lemma_ci_eq_symmetric(e.spec_names()[k], s);
        assert(spelled_as::<Self>(e.spec_names()[k], s));
        assert(entry_matches(e, s));
        Self::lemma_entry_position(i);
        lemma_first_five_match(e, s);
        lemma_stop_spellings_tidy(e);
        lemma_tidy_is_trimmed(e.spec_names()[k], s);
        assert forall|j: int|
            0 <= j < Self::spec_count() && entry_matches(#[trigger] Self::spec_entry(j), s) implies j
            == i by {
            Self::lemma_entry_position(j);
            lemma_first_five_match(Self::spec_entry(j), s);
            lemma_stop_spellings_distinct(e, Self::spec_entry(j), s);
        }
        lemma_first_match_of_sole::<Self>(i, s);
    }

    /// The position of a catalog entry in declaration order.
    pub open spec fn spec_position(&self) -> int {
        match self {
            Self::AirportTerminalEF => 0,
            Self::AirportTerminalCD => 1,
            Self::AirportTerminalB => 2,
            Self::AirportTerminalA => 3,
            Self::Eastwick => 4,
            Self::Stenton => 5,
            Self::Wyndmoor => 6,
            Self::Wister => 7,
            Self::Gravers => 8,
            Self::Germantown => 9,
            Self::Sedgwick => 10,
            Self::ChestnutHillEast => 11,
            Self::WashingtonLane => 12,
            Self::MountAiry => 13,
            Self::NorthPhiladelphia => 14,
            Self::Upsal => 15,
            Self::StMartins => 16,
            Self::ChestnutHillWest => 17,
            Self::CheltenAvenue => 18,
            Self::Carpenter => 19,
            Self::RichardAllenLane => 20,
            Self::Tulpehocken => 21,
            Self::Highland => 22,
            Self::QueenLane => 23,
            Self::Cynwyd => 24,
            Self::Bala => 25,
            Self::WynnefieldAvenue => 26,
            Self::FoxChase => 27,
            Self::Ryers => 28,
            Self::Cheltenham => 29,
            Self::Lawndale => 30,
            Self::Olney => 31,
            Self::Doylestown => 32,
            Self::DelawareValleyCollege => 33,
            Self::NewBritain => 34,
            Self::Chalfont => 35,
            Self::LinkBelt => 36,
            Self::Colmar => 37,
            Self::Fortuna => 38,
            Self::NinthStreetLansdale => 39,
            Self::Lansdale => 40,
            Self::Pennbrook => 41,
            Self::NorthWales => 42,
            Self::GwyneddValley => 43,
            Self::Penllyn => 44,
            Self::Ambler => 45,
            Self::FortWashington => 46,
            Self::Oreland => 47,
            Self::NorthHills => 48,
            Self::NorthBroad => 49,
            Self::Wawa => 50,
            Self::Elwyn => 51,
            Self::Media => 52,
            Self::MoylanRoseValley => 53,
            Self::Wallingford => 54,
            Self::Swarthmore => 55,
            Self::Morton => 56,
            Self::Secane => 57,
            Self::Primos => 58,
            Self::CliftonAldan => 59,
            Self::Gladstone => 60,
            Self::Lansdowne => 61,
            Self::FernwoodYeadon => 62,
            Self::Angora => 63,
            Self::FortyNinthStreet => 64,
            Self::NorristownElmStreet => 65,
            Self::MainStreet => 66,
            Self::NorristownTC => 67,
            Self::Conshohocken => 68,
            Self::SpringMill => 69,
            Self::Miquon => 70,
            Self::IvyRidge => 71,
            Self::Manayunk => 72,
            Self::Wissahickon => 73,
            Self::EastFalls => 74,
            Self::Allegheny => 75,
            Self::Thorndale => 76,
            Self::Downingtown => 77,
            Self::Whitford => 78,
            Self::Exton => 79,
            Self::Malvern => 80,
            Self::Paoli => 81,
            Self::Wayne => 82,
            Self::StDavids => 83,
            Self::Berwyn => 84,
            Self::Devon => 85,
            Self::Villanova => 86,
            Self::Rosemont => 87,
            Self::BrynMawr => 88,
            Self::Strafford => 89,
            Self::Daylesford => 90,
            Self::Radnor => 91,
            Self::Haverford => 92,
            Self::Ardmore => 93,
            Self::Wynnewood => 94,
            Self::Narberth => 95,
            Self::Overbrook => 96,
            Self::Merion => 97,
            Self::Trenton => 98,
            Self::Levittown => 99,
            Self::Bristol => 100,
            Self::Croydon => 101,
            Self::Eddington => 102,
            Self::CornwellsHeights => 103,
            Self::Torresdale => 104,
            Self::HolmesburgJct => 105,
            Self::Tacony => 106,
            Self::Bridesburg => 107,
            Self::NorthPhiladelphiaAmtrak => 108,
            Self::Warminster => 109,
            Self::Hatboro => 110,
            Self::WillowGrove => 111,
            Self::Crestmont => 112,
            Self::Roslyn => 113,
            Self::Ardsley => 114,
            Self::Newark => 115,
            Self::ChurchmansCrossing => 116,
            Self::Wilmington => 117,
            Self::Claymont => 118,
            Self::MarcusHook => 119,
            Self::HighlandAvenue => 120,
            Self::Chester => 121,
            Self::Eddystone => 122,
            Self::CrumLynne => 123,
            Self::RidleyPark => 124,
            Self::ProspectParkMoore => 125,
            Self::Norwood => 126,
            Self::Glenolden => 127,
            Self::Folcroft => 128,
            Self::SharonHill => 129,
            Self::CurtisPark => 130,
            Self::Darby => 131,
            Self::WestTrenton => 132,
            Self::Yardley => 133,
            Self::Woodbourne => 134,
            Self::Langhorne => 135,
            Self::Neshaminy => 136,
            Self::Trevose => 137,
            Self::Somerton => 138,
            Self::ForestHills => 139,
            Self::Philmont => 140,
            Self::Bethayres => 141,
            Self::Meadowbrook => 142,
            Self::Rydal => 143,
            Self::Noble => 144,
            Self::WayneJunction => 145,
            Self::Glenside => 146,
            Self::JenkintownWyncote => 147,
            Self::FernRockTC => 148,
            Self::ElkinsPark => 149,
            Self::MelrosePark => 150,
            Self::Gray30thStreet => 151,
            Self::SuburbanStation => 152,
            Self::JeffersonStation => 153,
            Self::TempleUniversity => 154,
            Self::PennMedicineStation => 155,
            Self::Unknown(_) => -1,
        }
    }

    /// Each position of the catalog holds the entry at that position.
    pub proof fn lemma_entry_position(i: int)
        requires
            0 <= i < Self::spec_count(),
        ensures
            Self::spec_entry(i).spec_position() == i,
            !(Self::spec_entry(i) is Unknown),
    {
    }

    /// Each catalog stop stands in the catalog at its position.
    pub proof fn lemma_position_entry(self)
        requires
            !(self is Unknown),
        ensures
            0 <= self.spec_position() < Self::spec_count(),
            Self::spec_entry(self.spec_position()) == self,
    {
    }

    /// Resolving the display name of a catalog stop gives that stop back.
    pub proof fn lemma_display_round_trip(self)
        requires
            !(self is Unknown),
        ensures
            self.resolves_from(self.spec_display()),
    {
        let i = self.spec_position();
        self.lemma_position_entry();
        lemma_ci_eq_refl(self.spec_names()[0]);
        Self::lemma_spelling_resolves(i, 0, self.spec_names()[0]);
    }

    /// Text that names no catalog stop once trimmed resolves to `Unknown` carrying the text.
    pub proof fn lemma_unlisted_is_unknown(s: Seq<char>)
        requires
            forall|i: int|
                0 <= i < Self::spec_count() ==> !entry_matches(#[trigger] Self::spec_entry(i), trimmed(s)),
        ensures
            forall|r: Self| #[trigger] r.resolves_from(s) <==> (r matches Self::Unknown(t) && t@ == s),
    {
        if exists|i: int| is_first_match::<Self>(i, trimmed(s)) {
            let i = choose|i: int| is_first_match::<Self>(i, trimmed(s));
            assert(!entry_matches(Self::spec_entry(i), trimmed(s)));
        }
    }
}

/// Every spelling in the catalog is tidy.
proof fn lemma_stop_spellings_tidy(v: RegionalRailStop)
    ensures
        forall|k: int| 0 <= k < v.spec_names().len() ==> is_tidy(#[trigger] v.spec_names()[k]),
{
    reveal_strlit("30th St");
    reveal_strlit("30th Street Gray");
    reveal_strlit("30th Street Station");
    reveal_strlit("49th Street");
    reveal_strlit("9th Street Lansdale");
    reveal_strlit("Airport Terminal A");
    reveal_strlit("Airport Terminal B");
    reveal_strlit("Airport Terminal C D");
    reveal_strlit("Airport Terminal C-D");
    reveal_strlit("Airport Terminal E F");
    reveal_strlit("Airport Terminal E-F");
    reveal_strlit("Allegheny");
    reveal_strlit("Ambler");
    reveal_strlit("Angora");
    reveal_strlit("Ardmore");
    reveal_strlit("Ardsley");
    reveal_strlit("Bala");
    reveal_strlit("Berwyn");
    reveal_strlit("Bethayres");
    reveal_strlit("Bridesburg");
    reveal_strlit("Bristol");
    reveal_strlit("Bryn Mawr");
    reveal_strlit("Carpenter");
    reveal_strlit("Chalfont");
    reveal_strlit("Chelten Avenue");
    reveal_strlit("Cheltenham");
    reveal_strlit("Chester");
    reveal_strlit("Chestnut H East");
    reveal_strlit("Chestnut H West");
    reveal_strlit("Chestnut Hill East");
    reveal_strlit("Chestnut Hill West");
    reveal_strlit("Churchman's Crossing");
    reveal_strlit("Claymont");
    reveal_strlit("Clifton-Aldan");
    reveal_strlit("Colmar");
    reveal_strlit("Conshohocken");
    reveal_strlit("Cornwells Heights");
    reveal_strlit("Crestmont");
    reveal_strlit("Croydon");
    reveal_strlit("Crum Lynne");
    reveal_strlit("Curtis Park");
    reveal_strlit("Cynwyd");
    reveal_strlit("Darby");
    reveal_strlit("Daylesford");
    reveal_strlit("Delaware Valley College");
    reveal_strlit("Devon");
    reveal_strlit("Downingtown");
    reveal_strlit("Doylestown");
    reveal_strlit("East Falls");
    reveal_strlit("Eastwick");
    reveal_strlit("Eddington");
    reveal_strlit("Eddystone");
    reveal_strlit("Elkins Park");
    reveal_strlit("Elwyn");
    reveal_strlit("Elwyn Station");
    reveal_strlit("Exton");
    reveal_strlit("Fern Rock T C");
    reveal_strlit("Fernwood");
    reveal_strlit("Fernwood-Yeadon");
    reveal_strlit("Folcroft");
    reveal_strlit("Forest Hills");
    reveal_strlit("Fort Washington");
    reveal_strlit("Fortuna");
    reveal_strlit("Fox Chase");
    reveal_strlit("Germantown");
    reveal_strlit("Gladstone");
    reveal_strlit("Glenolden");
    reveal_strlit("Glenside");
    reveal_strlit("Gravers");
    reveal_strlit("Gray 30th St");
    reveal_strlit("Gray 30th Street");
    reveal_strlit("Gwynedd Valley");
    reveal_strlit("Hatboro");
    reveal_strlit("Haverford");
    reveal_strlit("Highland");
    reveal_strlit("Highland Avenue");
    reveal_strlit("Holmesburg Jct");
    reveal_strlit("Ivy Ridge");
    reveal_strlit("Jefferson");
    reveal_strlit("Jefferson Station");
    reveal_strlit("Jenkintown Wyncote");
    reveal_strlit("Langhorne");
    reveal_strlit("Lansdale");
    reveal_strlit("Lansdowne");
    reveal_strlit("Lawndale");
    reveal_strlit("Levittown");
    reveal_strlit("Link Belt");
    reveal_strlit("Main Street");
    reveal_strlit("Malvern");
    reveal_strlit("Manayunk");
    reveal_strlit("Marcus Hook");
    reveal_strlit("Meadowbrook");
    reveal_strlit("Media");
    reveal_strlit("Melrose Park");
    reveal_strlit("Merion");
    reveal_strlit("Miquon");
    reveal_strlit("Morton");
    reveal_strlit("Mount Airy");
    reveal_strlit("Moylan-Rose Valley");
    reveal_strlit("Narberth");
    reveal_strlit("Neshaminy");
    reveal_strlit("New Britain");
    reveal_strlit("Newark");
    reveal_strlit("Noble");
    reveal_strlit("Norristown");
    reveal_strlit("Norristown - Elm Street");
    reveal_strlit("Norristown Elm Street");
    reveal_strlit("Norristown T.C.");
    reveal_strlit("Norristown TC");
    reveal_strlit("North Broad");
    reveal_strlit("North Hills");
    reveal_strlit("North Philadelphia");
    reveal_strlit("North Philadelphia Amtrak");
    reveal_strlit("North Wales");
    reveal_strlit("Norwood");
    reveal_strlit("Olney");
    reveal_strlit("Oreland");
    reveal_strlit("Overbrook");
    reveal_strlit("Paoli");
    reveal_strlit("Penllyn");
    reveal_strlit("Penn Medical Station");
    reveal_strlit("Penn Medicine Station");
    reveal_strlit("Pennbrook");
    reveal_strlit("Philmont");
    reveal_strlit("Primos");
    reveal_strlit("Prospect Park - Moore");
    reveal_strlit("Prospect Park Moore");
    reveal_strlit("Queen Lane");
    reveal_strlit("Radnor");
    reveal_strlit("Richard Allen Lane");
    reveal_strlit("Ridley Park");
    reveal_strlit("Rosemont");
    reveal_strlit("Roslyn");
    reveal_strlit("Rydal");
    reveal_strlit("Ryers");
    reveal_strlit("Secane");
    reveal_strlit("Sedgwick");
    reveal_strlit("Sharon Hill");
    reveal_strlit("Somerton");
    reveal_strlit("Spring Mill");
    reveal_strlit("St. Davids");
    reveal_strlit("St. Martins");
    reveal_strlit("Stenton");
    reveal_strlit("Strafford");
    reveal_strlit("Suburban Station");
    reveal_strlit("Swarthmore");
    reveal_strlit("Tacony");
    reveal_strlit("Temple U");
    reveal_strlit("Temple University");
    reveal_strlit("Thorndale");
    reveal_strlit("Torresdale");
    reveal_strlit("Trenton");
    reveal_strlit("Trevose");
    reveal_strlit("Tulpehocken");
    reveal_strlit("Upsal");
    reveal_strlit("Villanova");
    reveal_strlit("Wallingford");
    reveal_strlit("Warminster");
    reveal_strlit("Washington Lane");
    reveal_strlit("Wawa");
    reveal_strlit("Wayne");
    reveal_strlit("Wayne Junction");
    reveal_strlit("West Trenton");
    reveal_strlit("Whitford");
    reveal_strlit("Willow Grove");
    reveal_strlit("Wilmington");
    reveal_strlit("Wissahickon");
    reveal_strlit("Wister");
    reveal_strlit("Woodbourne");
    reveal_strlit("Wyndmoor");
    reveal_strlit("Wynnefield Avenue");
    reveal_strlit("Wynnewood");
    reveal_strlit("Yardley");
}

impl RegionalRailStop {
    /// `s` is one of the spellings of this entry, up to ASCII case.
    spec fn spelled_like(&self, s: Seq<char>) -> bool {
        match self {
            Self::AirportTerminalEF => ci_eq("Airport Terminal E F"@, s) || ci_eq("Airport Terminal E-F"@, s),
            Self::AirportTerminalCD => ci_eq("Airport Terminal C D"@, s) || ci_eq("Airport Terminal C-D"@, s),
            Self::AirportTerminalB => ci_eq("Airport Terminal B"@, s),
            Self::AirportTerminalA => ci_eq("Airport Terminal A"@, s),
            Self::Eastwick => ci_eq("Eastwick"@, s),
            Self::Stenton => ci_eq("Stenton"@, s),
            Self::Wyndmoor => ci_eq("Wyndmoor"@, s),
            Self::Wister => ci_eq("Wister"@, s),
            Self::Gravers => ci_eq("Gravers"@, s),
            Self::Germantown => ci_eq("Germantown"@, s),
            Self::Sedgwick => ci_eq("Sedgwick"@, s),
            Self::ChestnutHillEast => ci_eq("Chestnut Hill East"@, s) || ci_eq("Chestnut H East"@, s),
            Self::WashingtonLane => ci_eq("Washington Lane"@, s),
            Self::MountAiry => ci_eq("Mount Airy"@, s),
            Self::NorthPhiladelphia => ci_eq("North Philadelphia"@, s),
            Self::Upsal => ci_eq("Upsal"@, s),
            Self::StMartins => ci_eq("St. Martins"@, s),
            Self::ChestnutHillWest => ci_eq("Chestnut Hill West"@, s) || ci_eq("Chestnut H West"@, s),
            Self::CheltenAvenue => ci_eq("Chelten Avenue"@, s),
            Self::Carpenter => ci_eq("Carpenter"@, s),
            Self::RichardAllenLane => ci_eq("Richard Allen Lane"@, s),
            Self::Tulpehocken => ci_eq("Tulpehocken"@, s),
            Self::Highland => ci_eq("Highland"@, s),
            Self::QueenLane => ci_eq("Queen Lane"@, s),
            Self::Cynwyd => ci_eq("Cynwyd"@, s),
            Self::Bala => ci_eq("Bala"@, s),
            Self::WynnefieldAvenue => ci_eq("Wynnefield Avenue"@, s),
            Self::FoxChase => ci_eq("Fox Chase"@, s),
            Self::Ryers => ci_eq("Ryers"@, s),
            Self::Cheltenham => ci_eq("Cheltenham"@, s),
            Self::Lawndale => ci_eq("Lawndale"@, s),
            Self::Olney => ci_eq("Olney"@, s),
            Self::Doylestown => ci_eq("Doylestown"@, s),
            Self::DelawareValleyCollege => ci_eq("Delaware Valley College"@, s),
            Self::NewBritain => ci_eq("New Britain"@, s),
            Self::Chalfont => ci_eq("Chalfont"@, s),
            Self::LinkBelt => ci_eq("Link Belt"@, s),
            Self::Colmar => ci_eq("Colmar"@, s),
            Self::Fortuna => ci_eq("Fortuna"@, s),
            Self::NinthStreetLansdale => ci_eq("9th Street Lansdale"@, s),
            Self::Lansdale => ci_eq("Lansdale"@, s),
            Self::Pennbrook => ci_eq("Pennbrook"@, s),
            Self::NorthWales => ci_eq("North Wales"@, s),
            Self::GwyneddValley => ci_eq("Gwynedd Valley"@, s),
            Self::Penllyn => ci_eq("Penllyn"@, s),
            Self::Ambler => ci_eq("Ambler"@, s),
            Self::FortWashington => ci_eq("Fort Washington"@, s),
            Self::Oreland => ci_eq("Oreland"@, s),
            Self::NorthHills => ci_eq("North Hills"@, s),
            Self::NorthBroad => ci_eq("North Broad"@, s),
            Self::Wawa => ci_eq("Wawa"@, s),
            Self::Elwyn => ci_eq("Elwyn"@, s) || ci_eq("Elwyn Station"@, s),
            Self::Media => ci_eq("Media"@, s),
            Self::MoylanRoseValley => ci_eq("Moylan-Rose Valley"@, s),
            Self::Wallingford => ci_eq("Wallingford"@, s),
            Self::Swarthmore => ci_eq("Swarthmore"@, s),
            Self::Morton => ci_eq("Morton"@, s),
            Self::Secane => ci_eq("Secane"@, s),
            Self::Primos => ci_eq("Primos"@, s),
            Self::CliftonAldan => ci_eq("Clifton-Aldan"@, s),
            Self::Gladstone => ci_eq("Gladstone"@, s),
            Self::Lansdowne => ci_eq("Lansdowne"@, s),
            Self::FernwoodYeadon => ci_eq("Fernwood-Yeadon"@, s) || ci_eq("Fernwood"@, s),
            Self::Angora => ci_eq("Angora"@, s),
            Self::FortyNinthStreet => ci_eq("49th Street"@, s),
            Self::NorristownElmStreet => ci_eq("Norristown - Elm Street"@, s) || ci_eq("Norristown Elm Street"@, s),
            Self::MainStreet => ci_eq("Main Street"@, s),
            Self::NorristownTC => ci_eq("Norristown T.C."@, s) || ci_eq("Norristown"@, s) || ci_eq("Norristown TC"@, s),
            Self::Conshohocken => ci_eq("Conshohocken"@, s),
            Self::SpringMill => ci_eq("Spring Mill"@, s),
            Self::Miquon => ci_eq("Miquon"@, s),
            Self::IvyRidge => ci_eq("Ivy Ridge"@, s),
            Self::Manayunk => ci_eq("Manayunk"@, s),
            Self::Wissahickon => ci_eq("Wissahickon"@, s),
            Self::EastFalls => ci_eq("East Falls"@, s),
            Self::Allegheny => ci_eq("Allegheny"@, s),
            Self::Thorndale => ci_eq("Thorndale"@, s),
            Self::Downingtown => ci_eq("Downingtown"@, s),
            Self::Whitford => ci_eq("Whitford"@, s),
            Self::Exton => ci_eq("Exton"@, s),
            Self::Malvern => ci_eq("Malvern"@, s),
            Self::Paoli => ci_eq("Paoli"@, s),
            Self::Wayne => ci_eq("Wayne"@, s),
            Self::StDavids => ci_eq("St. Davids"@, s),
            Self::Berwyn => ci_eq("Berwyn"@, s),
            Self::Devon => ci_eq("Devon"@, s),
            Self::Villanova => ci_eq("Villanova"@, s),
            Self::Rosemont => ci_eq("Rosemont"@, s),
            Self::BrynMawr => ci_eq("Bryn Mawr"@, s),
            Self::Strafford => ci_eq("Strafford"@, s),
            Self::Daylesford => ci_eq("Daylesford"@, s),
            Self::Radnor => ci_eq("Radnor"@, s),
            Self::Haverford => ci_eq("Haverford"@, s),
            Self::Ardmore => ci_eq("Ardmore"@, s),
            Self::Wynnewood => ci_eq("Wynnewood"@, s),
            Self::Narberth => ci_eq("Narberth"@, s),
            Self::Overbrook => ci_eq("Overbrook"@, s),
            Self::Merion => ci_eq("Merion"@, s),
            Self::Trenton => ci_eq("Trenton"@, s),
            Self::Levittown => ci_eq("Levittown"@, s),
            Self::Bristol => ci_eq("Bristol"@, s),
            Self::Croydon => ci_eq("Croydon"@, s),
            Self::Eddington => ci_eq("Eddington"@, s),
            Self::CornwellsHeights => ci_eq("Cornwells Heights"@, s),
            Self::Torresdale => ci_eq("Torresdale"@, s),
            Self::HolmesburgJct => ci_eq("Holmesburg Jct"@, s),
            Self::Tacony => ci_eq("Tacony"@, s),
            Self::Bridesburg => ci_eq("Bridesburg"@, s),
            Self::NorthPhiladelphiaAmtrak => ci_eq("North Philadelphia Amtrak"@, s),
            Self::Warminster => ci_eq("Warminster"@, s),
            Self::Hatboro => ci_eq("Hatboro"@, s),
            Self::WillowGrove => ci_eq("Willow Grove"@, s),
            Self::Crestmont => ci_eq("Crestmont"@, s),
            Self::Roslyn => ci_eq("Roslyn"@, s),
            Self::Ardsley => ci_eq("Ardsley"@, s),
            Self::Newark => ci_eq("Newark"@, s),
            Self::ChurchmansCrossing => ci_eq("Churchman's Crossing"@, s),
            Self::Wilmington => ci_eq("Wilmington"@, s),
            Self::Claymont => ci_eq("Claymont"@, s),
            Self::MarcusHook => ci_eq("Marcus Hook"@, s),
            Self::HighlandAvenue => ci_eq("Highland Avenue"@, s),
            Self::Chester => ci_eq("Chester"@, s),
            Self::Eddystone => ci_eq("Eddystone"@, s),
            Self::CrumLynne => ci_eq("Crum Lynne"@, s),
            Self::RidleyPark => ci_eq("Ridley Park"@, s),
            Self::ProspectParkMoore => ci_eq("Prospect Park - Moore"@, s) || ci_eq("Prospect Park Moore"@, s),
            Self::Norwood => ci_eq("Norwood"@, s),
            Self::Glenolden => ci_eq("Glenolden"@, s),
            Self::Folcroft => ci_eq("Folcroft"@, s),
            Self::SharonHill => ci_eq("Sharon Hill"@, s),
            Self::CurtisPark => ci_eq("Curtis Park"@, s),
            Self::Darby => ci_eq("Darby"@, s),
            Self::WestTrenton => ci_eq("West Trenton"@, s),
            Self::Yardley => ci_eq("Yardley"@, s),
            Self::Woodbourne => ci_eq("Woodbourne"@, s),
            Self::Langhorne => ci_eq("Langhorne"@, s),
            Self::Neshaminy => ci_eq("Neshaminy"@, s),
            Self::Trevose => ci_eq("Trevose"@, s),
            Self::Somerton => ci_eq("Somerton"@, s),
            Self::ForestHills => ci_eq("Forest Hills"@, s),
            Self::Philmont => ci_eq("Philmont"@, s),
            Self::Bethayres => ci_eq("Bethayres"@, s),
            Self::Meadowbrook => ci_eq("Meadowbrook"@, s),
            Self::Rydal => ci_eq("Rydal"@, s),
            Self::Noble => ci_eq("Noble"@, s),
            Self::WayneJunction => ci_eq("Wayne Junction"@, s),
            Self::Glenside => ci_eq("Glenside"@, s),
            Self::JenkintownWyncote => ci_eq("Jenkintown Wyncote"@, s),
            Self::FernRockTC => ci_eq("Fern Rock T C"@, s),
            Self::ElkinsPark => ci_eq("Elkins Park"@, s),
            Self::MelrosePark => ci_eq("Melrose Park"@, s),
            Self::Gray30thStreet => ci_eq("Gray 30th Street"@, s) || ci_eq("30th Street Station"@, s) || ci_eq("30th St"@, s) || ci_eq("30th Street Gray"@, s) || ci_eq("Gray 30th St"@, s),
            Self::SuburbanStation => ci_eq("Suburban Station"@, s),
            Self::JeffersonStation => ci_eq("Jefferson Station"@, s) || ci_eq("Jefferson"@, s),
            Self::TempleUniversity => ci_eq("Temple University"@, s) || ci_eq("Temple U"@, s),
            Self::PennMedicineStation => ci_eq("Penn Medicine Station"@, s) || ci_eq("Penn Medical Station"@, s),
            Self::Unknown(_) => false,
        }
    }
}

proof fn lemma_stop_spellings_spelled_like(v: RegionalRailStop, s: Seq<char>)
    ensures
        first_five_match(v, s) <==> v.spelled_like(s),
{
}

/// No two entries of the catalog share a spelling, up to ASCII case.
proof fn lemma_stop_spellings_distinct(v: RegionalRailStop, w: RegionalRailStop, s: Seq<char>)
    requires
        !(v is Unknown),
        !(w is Unknown),
        first_five_match(v, s),
    ensures
        first_five_match(w, s) ==> v == w,
{
    lemma_stop_spellings_spelled_like(v, s);
    lemma_stop_spellings_spelled_like(w, s);
    lemma_stop_spellings_distinct_by_length(v, w, s);
}

proof fn lemma_stop_spellings_distinct_by_length(v: RegionalRailStop, w: RegionalRailStop, s: Seq<char>)
    requires
        v.spelled_like(s),
    ensures
        w.spelled_like(s) ==> v == w,
{
    reveal_strlit("30th St");
    reveal_strlit("30th Street Gray");
    reveal_strlit("30th Street Station");
    reveal_strlit("49th Street");
    reveal_strlit("9th Street Lansdale");
    reveal_strlit("Airport Terminal A");
    reveal_strlit("Airport Terminal B");
    reveal_strlit("Airport Terminal C D");
    reveal_strlit("Airport Terminal C-D");
    reveal_strlit("Airport Terminal E F");
    reveal_strlit("Airport Terminal E-F");
    reveal_strlit("Allegheny");
    reveal_strlit("Ambler");
    reveal_strlit("Angora");
    reveal_strlit("Ardmore");
    reveal_strlit("Ardsley");
    reveal_strlit("Bala");
    reveal_strlit("Berwyn");
    reveal_strlit("Bethayres");
    reveal_strlit("Bridesburg");
    reveal_strlit("Bristol");
    reveal_strlit("Bryn Mawr");
    reveal_strlit("Carpenter");
    reveal_strlit("Chalfont");
    reveal_strlit("Chelten Avenue");
    reveal_strlit("Cheltenham");
    reveal_strlit("Chester");
    reveal_strlit("Chestnut H East");
    reveal_strlit("Chestnut H West");
    reveal_strlit("Chestnut Hill East");
    reveal_strlit("Chestnut Hill West");
    reveal_strlit("Churchman's Crossing");
    reveal_strlit("Claymont");
    reveal_strlit("Clifton-Aldan");
    reveal_strlit("Colmar");
    reveal_strlit("Conshohocken");
    reveal_strlit("Cornwells Heights");
    reveal_strlit("Crestmont");
    reveal_strlit("Croydon");
    reveal_strlit("Crum Lynne");
    reveal_strlit("Curtis Park");
    reveal_strlit("Cynwyd");
    reveal_strlit("Darby");
    reveal_strlit("Daylesford");
    reveal_strlit("Delaware Valley College");
    reveal_strlit("Devon");
    reveal_strlit("Downingtown");
    reveal_strlit("Doylestown");
    reveal_strlit("East Falls");
    reveal_strlit("Eastwick");
    reveal_strlit("Eddington");
    reveal_strlit("Eddystone");
    reveal_strlit("Elkins Park");
    reveal_strlit("Elwyn");
    reveal_strlit("Elwyn Station");
    reveal_strlit("Exton");
    reveal_strlit("Fern Rock T C");
    reveal_strlit("Fernwood");
    reveal_strlit("Fernwood-Yeadon");
    reveal_strlit("Folcroft");
    reveal_strlit("Forest Hills");
    reveal_strlit("Fort Washington");
    reveal_strlit("Fortuna");
    reveal_strlit("Fox Chase");
    reveal_strlit("Germantown");
    reveal_strlit("Gladstone");
    reveal_strlit("Glenolden");
    reveal_strlit("Glenside");
    reveal_strlit("Gravers");
    reveal_strlit("Gray 30th St");
    reveal_strlit("Gray 30th Street");
    reveal_strlit("Gwynedd Valley");
    reveal_strlit("Hatboro");
    reveal_strlit("Haverford");
    reveal_strlit("Highland");
    reveal_strlit("Highland Avenue");
    reveal_strlit("Holmesburg Jct");
    reveal_strlit("Ivy Ridge");
    reveal_strlit("Jefferson");
    reveal_strlit("Jefferson Station");
    reveal_strlit("Jenkintown Wyncote");
    reveal_strlit("Langhorne");
    reveal_strlit("Lansdale");
    reveal_strlit("Lansdowne");
    reveal_strlit("Lawndale");
    reveal_strlit("Levittown");
    reveal_strlit("Link Belt");
    reveal_strlit("Main Street");
    reveal_strlit("Malvern");
    reveal_strlit("Manayunk");
    reveal_strlit("Marcus Hook");
    reveal_strlit("Meadowbrook");
    reveal_strlit("Media");
    reveal_strlit("Melrose Park");
    reveal_strlit("Merion");
    reveal_strlit("Miquon");
    reveal_strlit("Morton");
    reveal_strlit("Mount Airy");
    reveal_strlit("Moylan-Rose Valley");
    reveal_strlit("Narberth");
    reveal_strlit("Neshaminy");
    reveal_strlit("New Britain");
    reveal_strlit("Newark");
    reveal_strlit("Noble");
    reveal_strlit("Norristown");
    reveal_strlit("Norristown - Elm Street");
    reveal_strlit("Norristown Elm Street");
    reveal_strlit("Norristown T.C.");
    reveal_strlit("Norristown TC");
    reveal_strlit("North Broad");
    reveal_strlit("North Hills");
    reveal_strlit("North Philadelphia");
    reveal_strlit("North Philadelphia Amtrak");
    reveal_strlit("North Wales");
    reveal_strlit("Norwood");
    reveal_strlit("Olney");
    reveal_strlit("Oreland");
    reveal_strlit("Overbrook");
    reveal_strlit("Paoli");
    reveal_strlit("Penllyn");
    reveal_strlit("Penn Medical Station");
    reveal_strlit("Penn Medicine Station");
    reveal_strlit("Pennbrook");
    reveal_strlit("Philmont");
    reveal_strlit("Primos");
    reveal_strlit("Prospect Park - Moore");
    reveal_strlit("Prospect Park Moore");
    reveal_strlit("Queen Lane");
    reveal_strlit("Radnor");
    reveal_strlit("Richard Allen Lane");
    reveal_strlit("Ridley Park");
    reveal_strlit("Rosemont");
    reveal_strlit("Roslyn");
    reveal_strlit("Rydal");
    reveal_strlit("Ryers");
    reveal_strlit("Secane");
    reveal_strlit("Sedgwick");
    reveal_strlit("Sharon Hill");
    reveal_strlit("Somerton");
    reveal_strlit("Spring Mill");
    reveal_strlit("St. Davids");
    reveal_strlit("St. Martins");
    reveal_strlit("Stenton");
    reveal_strlit("Strafford");
    reveal_strlit("Suburban Station");
    reveal_strlit("Swarthmore");
    reveal_strlit("Tacony");
    reveal_strlit("Temple U");
    reveal_strlit("Temple University");
    reveal_strlit("Thorndale");
    reveal_strlit("Torresdale");
    reveal_strlit("Trenton");
    reveal_strlit("Trevose");
    reveal_strlit("Tulpehocken");
    reveal_strlit("Upsal");
    reveal_strlit("Villanova");
    reveal_strlit("Wallingford");
    reveal_strlit("Warminster");
    reveal_strlit("Washington Lane");
    reveal_strlit("Wawa");
    reveal_strlit("Wayne");
    reveal_strlit("Wayne Junction");
    reveal_strlit("West Trenton");
    reveal_strlit("Whitford");
    reveal_strlit("Willow Grove");
    reveal_strlit("Wilmington");
    reveal_strlit("Wissahickon");
    reveal_strlit("Wister");
    reveal_strlit("Woodbourne");
    reveal_strlit("Wyndmoor");
    reveal_strlit("Wynnefield Avenue");
    reveal_strlit("Wynnewood");
    reveal_strlit("Yardley");
    // Split on the length of `s`, naming its folded characters so that each
    // spelling of that length can be told apart from the others.
    if s.len() == 0 {
    } else if s.len() == 1 {
        let ghost c0 = lower_code(s[0]);
    } else if s.len() == 2 {
        let ghost c0 = lower_code(s[0]);
        let ghost c1 = lower_code(s[1]);
    } else if s.len() == 3 {
        let ghost c0 = lower_code(s[0]);
        let ghost c1 = lower_code(s[1]);
        let ghost c2 = lower_code(s[2]);
    } else if s.len() == 4 {
        let ghost c0 = lower_code(s[0]);
        let ghost c1 = lower_code(s[1]);
        let ghost c2 = lower_code(s[2]);
        let ghost c3 = lower_code(s[3]);
    } else if s.len() == 5 {
        let ghost c0 = lower_code(s[0]);
        let ghost c1 = lower_code(s[1]);
        let ghost c2 = lower_code(s[2]);
        let ghost c3 = lower_code(s[3]);
        let ghost c4 = lower_code(s[4]);
    } else if s.len() == 6 {
        let ghost c0 = lower_code(s[0]);
        let ghost c1 = lower_code(s[1]);
        let ghost c2 = lower_code(s[2]);
        let ghost c3 = lower_code(s[3]);
        let ghost c4 = lower_code(s[4]);
        let ghost c5 = lower_code(s[5]);
    } else if s.len() == 7 {
        let ghost c0 = lower_code(s[0]);
        let ghost c1 = lower_code(s[1]);
        let ghost c2 = lower_code(s[2]);
        let ghost c3 = lower_code(s[3]);
        let ghost c4 = lower_code(s[4]);
        let ghost c5 = lower_code(s[5]);
        let ghost c6 = lower_code(s[6]);
    } else if s.len() == 8 {
        let ghost c0 = lower_code(s[0]);
        let ghost c1 = lower_code(s[1]);
        let ghost c2 = lower_code(s[2]);
        let ghost c3 = lower_code(s[3]);
        let ghost c4 = lower_code(s[4]);
        let ghost c5 = lower_code(s[5]);
        let ghost c6 = lower_code(s[6]);
        let ghost c7 = lower_code(s[7]);
    } else if s.len() == 9 {
        let ghost c0 = lower_code(s[0]);
        let ghost c1 = lower_code(s[1]);
        let ghost c2 = lower_code(s[2]);
        let ghost c3 = lower_code(s[3]);
        let ghost c4 = lower_code(s[4]);
        let ghost c5 = lower_code(s[5]);
        let ghost c6 = lower_code(s[6]);
        let ghost c7 = lower_code(s[7]);
        let ghost c8 = lower_code(s[8]);
    } else if s.len() == 10 {
        let ghost c0 = lower_code(s[0]);
        let ghost c1 = lower_code(s[1]);
        let ghost c2 = lower_code(s[2]);
        let ghost c3 = lower_code(s[3]);
        let ghost c4 = lower_code(s[4]);
        let ghost c5 = lower_code(s[5]);
        let ghost c6 = lower_code(s[6]);
        let ghost c7 = lower_code(s[7]);
        let ghost c8 = lower_code(s[8]);
        let ghost c9 = lower_code(s[9]);
    } else if s.len() == 11 {
        let ghost c0 = lower_code(s[0]);
        let ghost c1 = lower_code(s[1]);
        let ghost c2 = lower_code(s[2]);
        let ghost c3 = lower_code(s[3]);
        let ghost c4 = lower_code(s[4]);
        let ghost c5 = lower_code(s[5]);
        let ghost c6 = lower_code(s[6]);
        let ghost c7 = lower_code(s[7]);
        let ghost c8 = lower_code(s[8]);
        let ghost c9 = lower_code(s[9]);
        let ghost c10 = lower_code(s[10]);
    } else if s.len() == 12 {
        let ghost c0 = lower_code(s[0]);
        let ghost c1 = lower_code(s[1]);
        let ghost c2 = lower_code(s[2]);
        let ghost c3 = lower_code(s[3]);
        let ghost c4 = lower_code(s[4]);
        let ghost c5 = lower_code(s[5]);
        let ghost c6 = lower_code(s[6]);
        let ghost c7 = lower_code(s[7]);
        let ghost c8 = lower_code(s[8]);
        let ghost c9 = lower_code(s[9]);
        let ghost c10 = lower_code(s[10]);
        let ghost c11 = lower_code(s[11]);
    } else if s.len() == 13 {
        let ghost c0 = lower_code(s[0]);
        let ghost c1 = lower_code(s[1]);
        let ghost c2 = lower_code(s[2]);
        let ghost c3 = lower_code(s[3]);
        let ghost c4 = lower_code(s[4]);
        let ghost c5 = lower_code(s[5]);
        let ghost c6 = lower_code(s[6]);
        let ghost c7 = lower_code(s[7]);
        let ghost c8 = lower_code(s[8]);
        let ghost c9 = lower_code(s[9]);
        let ghost c10 = lower_code(s[10]);
        let ghost c11 = lower_code(s[11]);
        let ghost c12 = lower_code(s[12]);
    } else if s.len() == 14 {
        let ghost c0 = lower_code(s[0]);
        let ghost c1 = lower_code(s[1]);
        let ghost c2 = lower_code(s[2]);
        let ghost c3 = lower_code(s[3]);
        let ghost c4 = lower_code(s[4]);
        let ghost c5 = lower_code(s[5]);
        let ghost c6 = lower_code(s[6]);
        let ghost c7 = lower_code(s[7]);
        let ghost c8 = lower_code(s[8]);
        let ghost c9 = lower_code(s[9]);
        let ghost c10 = lower_code(s[10]);
        let ghost c11 = lower_code(s[11]);
        let ghost c12 = lower_code(s[12]);
        let ghost c13 = lower_code(s[13]);
    } else if s.len() == 15 {
        let ghost c0 = lower_code(s[0]);
        let ghost c1 = lower_code(s[1]);
        let ghost c2 = lower_code(s[2]);
        let ghost c3 = lower_code(s[3]);
        let ghost c4 = lower_code(s[4]);
        let ghost c5 = lower_code(s[5]);
        let ghost c6 = lower_code(s[6]);
        let ghost c7 = lower_code(s[7]);
        let ghost c8 = lower_code(s[8]);
        let ghost c9 = lower_code(s[9]);
        let ghost c10 = lower_code(s[10]);
        let ghost c11 = lower_code(s[11]);
        let ghost c12 = lower_code(s[12]);
        let ghost c13 = lower_code(s[13]);
        let ghost c14 = lower_code(s[14]);
    } else if s.len() == 16 {
        let ghost c0 = lower_code(s[0]);
        let ghost c1 = lower_code(s[1]);
        let ghost c2 = lower_code(s[2]);
        let ghost c3 = lower_code(s[3]);
        let ghost c4 = lower_code(s[4]);
        let ghost c5 = lower_code(s[5]);
        let ghost c6 = lower_code(s[6]);
        let ghost c7 = lower_code(s[7]);
        let ghost c8 = lower_code(s[8]);
        let ghost c9 = lower_code(s[9]);
        let ghost c10 = lower_code(s[10]);
        let ghost c11 = lower_code(s[11]);
        let ghost c12 = lower_code(s[12]);
        let ghost c13 = lower_code(s[13]);
        let ghost c14 = lower_code(s[14]);
        let ghost c15 = lower_code(s[15]);
    } else if s.len() == 17 {
        let ghost c0 = lower_code(s[0]);
        let ghost c1 = lower_code(s[1]);
        let ghost c2 = lower_code(s[2]);
        let ghost c3 = lower_code(s[3]);
        let ghost c4 = lower_code(s[4]);
        let ghost c5 = lower_code(s[5]);
        let ghost c6 = lower_code(s[6]);
        let ghost c7 = lower_code(s[7]);
        let ghost c8 = lower_code(s[8]);
        let ghost c9 = lower_code(s[9]);
        let ghost c10 = lower_code(s[10]);
        let ghost c11 = lower_code(s[11]);
        let ghost c12 = lower_code(s[12]);
        let ghost c13 = lower_code(s[13]);
        let ghost c14 = lower_code(s[14]);
        let ghost c15 = lower_code(s[15]);
        let ghost c16 = lower_code(s[16]);
    } else if s.len() == 18 {
        let ghost c0 = lower_code(s[0]);
        let ghost c1 = lower_code(s[1]);
        let ghost c2 = lower_code(s[2]);
        let ghost c3 = lower_code(s[3]);
        let ghost c4 = lower_code(s[4]);
        let ghost c5 = lower_code(s[5]);
        let ghost c6 = lower_code(s[6]);
        let ghost c7 = lower_code(s[7]);
        let ghost c8 = lower_code(s[8]);
        let ghost c9 = lower_code(s[9]);
        let ghost c10 = lower_code(s[10]);
        let ghost c11 = lower_code(s[11]);
        let ghost c12 = lower_code(s[12]);
        let ghost c13 = lower_code(s[13]);
        let ghost c14 = lower_code(s[14]);
        let ghost c15 = lower_code(s[15]);
        let ghost c16 = lower_code(s[16]);
        let ghost c17 = lower_code(s[17]);
    } else if s.len() == 19 {
        let ghost c0 = lower_code(s[0]);
        let ghost c1 = lower_code(s[1]);
        let ghost c2 = lower_code(s[2]);
        let ghost c3 = lower_code(s[3]);
        let ghost c4 = lower_code(s[4]);
        let ghost c5 = lower_code(s[5]);
        let ghost c6 = lower_code(s[6]);
        let ghost c7 = lower_code(s[7]);
        let ghost c8 = lower_code(s[8]);
        let ghost c9 = lower_code(s[9]);
        let ghost c10 = lower_code(s[10]);
        let ghost c11 = lower_code(s[11]);
        let ghost c12 = lower_code(s[12]);
        let ghost c13 = lower_code(s[13]);
        let ghost c14 = lower_code(s[14]);
        let ghost c15 = lower_code(s[15]);
        let ghost c16 = lower_code(s[16]);
        let ghost c17 = lower_code(s[17]);
        let ghost c18 = lower_code(s[18]);
    } else if s.len() == 20 {
        let ghost c0 = lower_code(s[0]);
        let ghost c1 = lower_code(s[1]);
        let ghost c2 = lower_code(s[2]);
        let ghost c3 = lower_code(s[3]);
        let ghost c4 = lower_code(s[4]);
        let ghost c5 = lower_code(s[5]);
        let ghost c6 = lower_code(s[6]);
        let ghost c7 = lower_code(s[7]);
        let ghost c8 = lower_code(s[8]);
        let ghost c9 = lower_code(s[9]);
        let ghost c10 = lower_code(s[10]);
        let ghost c11 = lower_code(s[11]);
        let ghost c12 = lower_code(s[12]);
        let ghost c13 = lower_code(s[13]);
        let ghost c14 = lower_code(s[14]);
        let ghost c15 = lower_code(s[15]);
        let ghost c16 = lower_code(s[16]);
        let ghost c17 = lower_code(s[17]);
        let ghost c18 = lower_code(s[18]);
        let ghost c19 = lower_code(s[19]);
    } else if s.len() == 21 {
        let ghost c0 = lower_code(s[0]);
        let ghost c1 = lower_code(s[1]);
        let ghost c2 = lower_code(s[2]);
        let ghost c3 = lower_code(s[3]);
        let ghost c4 = lower_code(s[4]);
        let ghost c5 = lower_code(s[5]);
        let ghost c6 = lower_code(s[6]);
        let ghost c7 = lower_code(s[7]);
        let ghost c8 = lower_code(s[8]);
        let ghost c9 = lower_code(s[9]);
        let ghost c10 = lower_code(s[10]);
        let ghost c11 = lower_code(s[11]);
        let ghost c12 = lower_code(s[12]);
        let ghost c13 = lower_code(s[13]);
        let ghost c14 = lower_code(s[14]);
        let ghost c15 = lower_code(s[15]);
        let ghost c16 = lower_code(s[16]);
        let ghost c17 = lower_code(s[17]);
        let ghost c18 = lower_code(s[18]);
        let ghost c19 = lower_code(s[19]);
        let ghost c20 = lower_code(s[20]);
    } else if s.len() == 22 {
        let ghost c0 = lower_code(s[0]);
        let ghost c1 = lower_code(s[1]);
        let ghost c2 = lower_code(s[2]);
        let ghost c3 = lower_code(s[3]);
        let ghost c4 = lower_code(s[4]);
        let ghost c5 = lower_code(s[5]);
        let ghost c6 = lower_code(s[6]);
        let ghost c7 = lower_code(s[7]);
        let ghost c8 = lower_code(s[8]);
        let ghost c9 = lower_code(s[9]);
        let ghost c10 = lower_code(s[10]);
        let ghost c11 = lower_code(s[11]);
        let ghost c12 = lower_code(s[12]);
        let ghost c13 = lower_code(s[13]);
        let ghost c14 = lower_code(s[14]);
        let ghost c15 = lower_code(s[15]);
        let ghost c16 = lower_code(s[16]);
        let ghost c17 = lower_code(s[17]);
        let ghost c18 = lower_code(s[18]);
        let ghost c19 = lower_code(s[19]);
        let ghost c20 = lower_code(s[20]);
        let ghost c21 = lower_code(s[21]);
    } else if s.len() == 23 {
        let ghost c0 = lower_code(s[0]);
        let ghost c1 = lower_code(s[1]);
        let ghost c2 = lower_code(s[2]);
        let ghost c3 = lower_code(s[3]);
        let ghost c4 = lower_code(s[4]);
        let ghost c5 = lower_code(s[5]);
        let ghost c6 = lower_code(s[6]);
        let ghost c7 = lower_code(s[7]);
        let ghost c8 = lower_code(s[8]);
        let ghost c9 = lower_code(s[9]);
        let ghost c10 = lower_code(s[10]);
        let ghost c11 = lower_code(s[11]);
        let ghost c12 = lower_code(s[12]);
        let ghost c13 = lower_code(s[13]);
        let ghost c14 = lower_code(s[14]);
        let ghost c15 = lower_code(s[15]);
        let ghost c16 = lower_code(s[16]);
        let ghost c17 = lower_code(s[17]);
        let ghost c18 = lower_code(s[18]);
        let ghost c19 = lower_code(s[19]);
        let ghost c20 = lower_code(s[20]);
        let ghost c21 = lower_code(s[21]);
        let ghost c22 = lower_code(s[22]);
    } else if s.len() == 24 {
        let ghost c0 = lower_code(s[0]);
        let ghost c1 = lower_code(s[1]);
        let ghost c2 = lower_code(s[2]);
        let ghost c3 = lower_code(s[3]);
        let ghost c4 = lower_code(s[4]);
        let ghost c5 = lower_code(s[5]);
        let ghost c6 = lower_code(s[6]);
        let ghost c7 = lower_code(s[7]);
        let ghost c8 = lower_code(s[8]);
        let ghost c9 = lower_code(s[9]);
        let ghost c10 = lower_code(s[10]);
        let ghost c11 = lower_code(s[11]);
        let ghost c12 = lower_code(s[12]);
        let ghost c13 = lower_code(s[13]);
        let ghost c14 = lower_code(s[14]);
        let ghost c15 = lower_code(s[15]);
        let ghost c16 = lower_code(s[16]);
        let ghost c17 = lower_code(s[17]);
        let ghost c18 = lower_code(s[18]);
        let ghost c19 = lower_code(s[19]);
        let ghost c20 = lower_code(s[20]);
        let ghost c21 = lower_code(s[21]);
        let ghost c22 = lower_code(s[22]);
        let ghost c23 = lower_code(s[23]);
    } else if s.len() == 25 {
        let ghost c0 = lower_code(s[0]);
        let ghost c1 = lower_code(s[1]);
        let ghost c2 = lower_code(s[2]);
        let ghost c3 = lower_code(s[3]);
        let ghost c4 = lower_code(s[4]);
        let ghost c5 = lower_code(s[5]);
        let ghost c6 = lower_code(s[6]);
        let ghost c7 = lower_code(s[7]);
        let ghost c8 = lower_code(s[8]);
        let ghost c9 = lower_code(s[9]);
        let ghost c10 = lower_code(s[10]);
        let ghost c11 = lower_code(s[11]);
        let ghost c12 = lower_code(s[12]);
        let ghost c13 = lower_code(s[13]);
        let ghost c14 = lower_code(s[14]);
        let ghost c15 = lower_code(s[15]);
        let ghost c16 = lower_code(s[16]);
        let ghost c17 = lower_code(s[17]);
        let ghost c18 = lower_code(s[18]);
        let ghost c19 = lower_code(s[19]);
        let ghost c20 = lower_code(s[20]);
        let ghost c21 = lower_code(s[21]);
        let ghost c22 = lower_code(s[22]);
        let ghost c23 = lower_code(s[23]);
        let ghost c24 = lower_code(s[24]);
    }
}


impl RegionalRailsLine {
    /// The line's short code.
    pub open spec fn spec_id(&self) -> Seq<char> {
        match self {
            Self::Airport => "AIR"@,
            Self::ChestnutHillEast => "CHE"@,
            Self::ChestnutHillWest => "CHW"@,
            Self::CenterCity => "CC"@,
            Self::Cynwyd => "CYN"@,
            Self::FoxChase => "FOX"@,
            Self::LansdaleDoylestown => "LAN"@,
            Self::MediaWawa => "MED"@,
            Self::ManayunkNorristown => "NOR"@,
            Self::PaoliThorndale => "PAO"@,
            Self::Trenton => "TRE"@,
            Self::Warminster => "WAR"@,
            Self::WilmingtonNewark => "WIL"@,
            Self::WestTrenton => "WTR"@,
        }
    }

    /// The line's short code.
    pub fn id(&self) -> (r: &'static str)
        ensures
            r@ == self.spec_id(),
    {
        match self {
            Self::Airport => "AIR",
            Self::ChestnutHillEast => "CHE",
            Self::ChestnutHillWest => "CHW",
            Self::CenterCity => "CC",
            Self::Cynwyd => "CYN",
            Self::FoxChase => "FOX",
            Self::LansdaleDoylestown => "LAN",
            Self::MediaWawa => "MED",
            Self::ManayunkNorristown => "NOR",
            Self::PaoliThorndale => "PAO",
            Self::Trenton => "TRE",
            Self::Warminster => "WAR",
            Self::WilmingtonNewark => "WIL",
            Self::WestTrenton => "WTR",
        }
    }

    /// The stops that the catalog lists under this line.
    pub open spec fn spec_stops(&self) -> Seq<RegionalRailStop> {
        match self {
            Self::Airport => seq![RegionalRailStop::AirportTerminalEF, RegionalRailStop::AirportTerminalCD, RegionalRailStop::AirportTerminalB, RegionalRailStop::AirportTerminalA, RegionalRailStop::Eastwick],
            Self::ChestnutHillEast => seq![RegionalRailStop::Stenton, RegionalRailStop::Wyndmoor, RegionalRailStop::Wister, RegionalRailStop::Gravers, RegionalRailStop::Germantown, RegionalRailStop::Sedgwick, RegionalRailStop::ChestnutHillEast, RegionalRailStop::WashingtonLane, RegionalRailStop::MountAiry],
            Self::ChestnutHillWest => seq![RegionalRailStop::NorthPhiladelphia, RegionalRailStop::Upsal, RegionalRailStop::StMartins, RegionalRailStop::ChestnutHillWest, RegionalRailStop::CheltenAvenue, RegionalRailStop::Carpenter, RegionalRailStop::RichardAllenLane, RegionalRailStop::Tulpehocken, RegionalRailStop::Highland, RegionalRailStop::QueenLane],
            Self::CenterCity => seq![RegionalRailStop::Gray30thStreet, RegionalRailStop::SuburbanStation, RegionalRailStop::JeffersonStation, RegionalRailStop::TempleUniversity, RegionalRailStop::PennMedicineStation],
            Self::Cynwyd => seq![RegionalRailStop::Cynwyd, RegionalRailStop::Bala, RegionalRailStop::WynnefieldAvenue],
            Self::FoxChase => seq![RegionalRailStop::FoxChase, RegionalRailStop::Ryers, RegionalRailStop::Cheltenham, RegionalRailStop::Lawndale, RegionalRailStop::Olney],
            Self::LansdaleDoylestown => seq![RegionalRailStop::Doylestown, RegionalRailStop::DelawareValleyCollege, RegionalRailStop::NewBritain, RegionalRailStop::Chalfont, RegionalRailStop::LinkBelt, RegionalRailStop::Colmar, RegionalRailStop::Fortuna, RegionalRailStop::NinthStreetLansdale, RegionalRailStop::Lansdale, RegionalRailStop::Pennbrook, RegionalRailStop::NorthWales, RegionalRailStop::GwyneddValley, RegionalRailStop::Penllyn, RegionalRailStop::Ambler, RegionalRailStop::FortWashington, RegionalRailStop::Oreland, RegionalRailStop::NorthHills, RegionalRailStop::NorthBroad],
            Self::MediaWawa => seq![RegionalRailStop::Wawa, RegionalRailStop::Elwyn, RegionalRailStop::Media, RegionalRailStop::MoylanRoseValley, RegionalRailStop::Wallingford, RegionalRailStop::Swarthmore, RegionalRailStop::Morton, RegionalRailStop::Secane, RegionalRailStop::Primos, RegionalRailStop::CliftonAldan, RegionalRailStop::Gladstone, RegionalRailStop::Lansdowne, RegionalRailStop::FernwoodYeadon, RegionalRailStop::Angora, RegionalRailStop::FortyNinthStreet],
            Self::ManayunkNorristown => seq![RegionalRailStop::NorristownElmStreet, RegionalRailStop::MainStreet, RegionalRailStop::NorristownTC, RegionalRailStop::Conshohocken, RegionalRailStop::SpringMill, RegionalRailStop::Miquon, RegionalRailStop::IvyRidge, RegionalRailStop::Manayunk, RegionalRailStop::Wissahickon, RegionalRailStop::EastFalls, RegionalRailStop::Allegheny],
            Self::PaoliThorndale => seq![RegionalRailStop::Thorndale, RegionalRailStop::Downingtown, RegionalRailStop::Whitford, RegionalRailStop::Exton, RegionalRailStop::Malvern, RegionalRailStop::Paoli, RegionalRailStop::Wayne, RegionalRailStop::StDavids, RegionalRailStop::Berwyn, RegionalRailStop::Devon, RegionalRailStop::Villanova, RegionalRailStop::Rosemont, RegionalRailStop::BrynMawr, RegionalRailStop::Strafford, RegionalRailStop::Daylesford, RegionalRailStop::Radnor, RegionalRailStop::Haverford, RegionalRailStop::Ardmore, RegionalRailStop::Wynnewood, RegionalRailStop::Narberth, RegionalRailStop::Overbrook, RegionalRailStop::Merion],
            Self::Trenton => seq![RegionalRailStop::Trenton, RegionalRailStop::Levittown, RegionalRailStop::Bristol, RegionalRailStop::Croydon, RegionalRailStop::Eddington, RegionalRailStop::CornwellsHeights, RegionalRailStop::Torresdale, RegionalRailStop::HolmesburgJct, RegionalRailStop::Tacony, RegionalRailStop::Bridesburg, RegionalRailStop::NorthPhiladelphiaAmtrak],
            Self::Warminster => seq![RegionalRailStop::Warminster, RegionalRailStop::Hatboro, RegionalRailStop::WillowGrove, RegionalRailStop::Crestmont, RegionalRailStop::Roslyn, RegionalRailStop::Ardsley],
            Self::WilmingtonNewark => seq![RegionalRailStop::Newark, RegionalRailStop::ChurchmansCrossing, RegionalRailStop::Wilmington, RegionalRailStop::Claymont, RegionalRailStop::MarcusHook, RegionalRailStop::HighlandAvenue, RegionalRailStop::Chester, RegionalRailStop::Eddystone, RegionalRailStop::CrumLynne, RegionalRailStop::RidleyPark, RegionalRailStop::ProspectParkMoore, RegionalRailStop::Norwood, RegionalRailStop::Glenolden, RegionalRailStop::Folcroft, RegionalRailStop::SharonHill, RegionalRailStop::CurtisPark, RegionalRailStop::Darby],
            Self::WestTrenton => seq![RegionalRailStop::WestTrenton, RegionalRailStop::Yardley, RegionalRailStop::Woodbourne, RegionalRailStop::Langhorne, RegionalRailStop::Neshaminy, RegionalRailStop::Trevose, RegionalRailStop::Somerton, RegionalRailStop::ForestHills, RegionalRailStop::Philmont, RegionalRailStop::Bethayres, RegionalRailStop::Meadowbrook, RegionalRailStop::Rydal, RegionalRailStop::Noble],
        }
    }

    /// The stops that the catalog lists under this line.
    pub fn stops(&self) -> (r: Vec<RegionalRailStop>)
        ensures
            r@ == self.spec_stops(),
    {
        let r = match self {
            Self::Airport => vec![RegionalRailStop::AirportTerminalEF, RegionalRailStop::AirportTerminalCD, RegionalRailStop::AirportTerminalB, RegionalRailStop::AirportTerminalA, RegionalRailStop::Eastwick],
            Self::ChestnutHillEast => vec![RegionalRailStop::Stenton, RegionalRailStop::Wyndmoor, RegionalRailStop::Wister, RegionalRailStop::Gravers, RegionalRailStop::Germantown, RegionalRailStop::Sedgwick, RegionalRailStop::ChestnutHillEast, RegionalRailStop::WashingtonLane, RegionalRailStop::MountAiry],
            Self::ChestnutHillWest => vec![RegionalRailStop::NorthPhiladelphia, RegionalRailStop::Upsal, RegionalRailStop::StMartins, RegionalRailStop::ChestnutHillWest, RegionalRailStop::CheltenAvenue, RegionalRailStop::Carpenter, RegionalRailStop::RichardAllenLane, RegionalRailStop::Tulpehocken, RegionalRailStop::Highland, RegionalRailStop::QueenLane],
            Self::CenterCity => vec![RegionalRailStop::Gray30thStreet, RegionalRailStop::SuburbanStation, RegionalRailStop::JeffersonStation, RegionalRailStop::TempleUniversity, RegionalRailStop::PennMedicineStation],
            Self::Cynwyd => vec![RegionalRailStop::Cynwyd, RegionalRailStop::Bala, RegionalRailStop::WynnefieldAvenue],
            Self::FoxChase => vec![RegionalRailStop::FoxChase, RegionalRailStop::Ryers, RegionalRailStop::Cheltenham, RegionalRailStop::Lawndale, RegionalRailStop::Olney],
            Self::LansdaleDoylestown => vec![RegionalRailStop::Doylestown, RegionalRailStop::DelawareValleyCollege, RegionalRailStop::NewBritain, RegionalRailStop::Chalfont, RegionalRailStop::LinkBelt, RegionalRailStop::Colmar, RegionalRailStop::Fortuna, RegionalRailStop::NinthStreetLansdale, RegionalRailStop::Lansdale, RegionalRailStop::Pennbrook, RegionalRailStop::NorthWales, RegionalRailStop::GwyneddValley, RegionalRailStop::Penllyn, RegionalRailStop::Ambler, RegionalRailStop::FortWashington, RegionalRailStop::Oreland, RegionalRailStop::NorthHills, RegionalRailStop::NorthBroad],
            Self::MediaWawa => vec![RegionalRailStop::Wawa, RegionalRailStop::Elwyn, RegionalRailStop::Media, RegionalRailStop::MoylanRoseValley, RegionalRailStop::Wallingford, RegionalRailStop::Swarthmore, RegionalRailStop::Morton, RegionalRailStop::Secane, RegionalRailStop::Primos, RegionalRailStop::CliftonAldan, RegionalRailStop::Gladstone, RegionalRailStop::Lansdowne, RegionalRailStop::FernwoodYeadon, RegionalRailStop::Angora, RegionalRailStop::FortyNinthStreet],
            Self::ManayunkNorristown => vec![RegionalRailStop::NorristownElmStreet, RegionalRailStop::MainStreet, RegionalRailStop::NorristownTC, RegionalRailStop::Conshohocken, RegionalRailStop::SpringMill, RegionalRailStop::Miquon, RegionalRailStop::IvyRidge, RegionalRailStop::Manayunk, RegionalRailStop::Wissahickon, RegionalRailStop::EastFalls, RegionalRailStop::Allegheny],
            Self::PaoliThorndale => vec![RegionalRailStop::Thorndale, RegionalRailStop::Downingtown, RegionalRailStop::Whitford, RegionalRailStop::Exton, RegionalRailStop::Malvern, RegionalRailStop::Paoli, RegionalRailStop::Wayne, RegionalRailStop::StDavids, RegionalRailStop::Berwyn, RegionalRailStop::Devon, RegionalRailStop::Villanova, RegionalRailStop::Rosemont, RegionalRailStop::BrynMawr, RegionalRailStop::Strafford, RegionalRailStop::Daylesford, RegionalRailStop::Radnor, RegionalRailStop::Haverford, RegionalRailStop::Ardmore, RegionalRailStop::Wynnewood, RegionalRailStop::Narberth, RegionalRailStop::Overbrook, RegionalRailStop::Merion],
            Self::Trenton => vec![RegionalRailStop::Trenton, RegionalRailStop::Levittown, RegionalRailStop::Bristol, RegionalRailStop::Croydon, RegionalRailStop::Eddington, RegionalRailStop::CornwellsHeights, RegionalRailStop::Torresdale, RegionalRailStop::HolmesburgJct, RegionalRailStop::Tacony, RegionalRailStop::Bridesburg, RegionalRailStop::NorthPhiladelphiaAmtrak],
            Self::Warminster => vec![RegionalRailStop::Warminster, RegionalRailStop::Hatboro, RegionalRailStop::WillowGrove, RegionalRailStop::Crestmont, RegionalRailStop::Roslyn, RegionalRailStop::Ardsley],
            Self::WilmingtonNewark => vec![RegionalRailStop::Newark, RegionalRailStop::ChurchmansCrossing, RegionalRailStop::Wilmington, RegionalRailStop::Claymont, RegionalRailStop::MarcusHook, RegionalRailStop::HighlandAvenue, RegionalRailStop::Chester, RegionalRailStop::Eddystone, RegionalRailStop::CrumLynne, RegionalRailStop::RidleyPark, RegionalRailStop::ProspectParkMoore, RegionalRailStop::Norwood, RegionalRailStop::Glenolden, RegionalRailStop::Folcroft, RegionalRailStop::SharonHill, RegionalRailStop::CurtisPark, RegionalRailStop::Darby],
            Self::WestTrenton => vec![RegionalRailStop::WestTrenton, RegionalRailStop::Yardley, RegionalRailStop::Woodbourne, RegionalRailStop::Langhorne, RegionalRailStop::Neshaminy, RegionalRailStop::Trevose, RegionalRailStop::Somerton, RegionalRailStop::ForestHills, RegionalRailStop::Philmont, RegionalRailStop::Bethayres, RegionalRailStop::Meadowbrook, RegionalRailStop::Rydal, RegionalRailStop::Noble],
        };
        assert(r@ =~= self.spec_stops());
        r
    }
}

impl RegionalRailStop {
    /// The catalog's numeric id of the stop; none for a stop outside the catalog.
    pub open spec fn spec_stop_id(&self) -> Option<u32> {
        match self {
            Self::AirportTerminalEF => Some(90401),
            Self::AirportTerminalCD => Some(90402),
            Self::AirportTerminalB => Some(90403),
            Self::AirportTerminalA => Some(90404),
            Self::Eastwick => Some(90405),
            Self::Stenton => Some(90715),
            Self::Wyndmoor => Some(90718),
            Self::Wister => Some(90712),
            Self::Gravers => Some(90719),
            Self::Germantown => Some(90713),
            Self::Sedgwick => Some(90716),
            Self::ChestnutHillEast => Some(90720),
            Self::WashingtonLane => Some(90714),
            Self::MountAiry => Some(90717),
            Self::NorthPhiladelphia => Some(90810),
            Self::Upsal => Some(90806),
            Self::StMartins => Some(90803),
            Self::ChestnutHillWest => Some(90801),
            Self::CheltenAvenue => Some(90808),
            Self::Carpenter => Some(90805),
            Self::RichardAllenLane => Some(90804),
            Self::Tulpehocken => Some(90807),
            Self::Highland => Some(90802),
            Self::QueenLane => Some(90809),
            Self::Cynwyd => Some(90001),
            Self::Bala => Some(90002),
            Self::WynnefieldAvenue => Some(90003),
            Self::FoxChase => Some(90815),
            Self::Ryers => Some(90814),
            Self::Cheltenham => Some(90813),
            Self::Lawndale => Some(90812),
            Self::Olney => Some(90811),
            Self::Doylestown => Some(90538),
            Self::DelawareValleyCollege => Some(90537),
            Self::NewBritain => Some(90536),
            Self::Chalfont => Some(90535),
            Self::LinkBelt => Some(90534),
            Self::Colmar => Some(90533),
            Self::Fortuna => Some(90532),
            Self::NinthStreetLansdale => Some(90539),
            Self::Lansdale => Some(90531),
            Self::Pennbrook => Some(90530),
            Self::NorthWales => Some(90529),
            Self::GwyneddValley => Some(90528),
            Self::Penllyn => Some(90527),
            Self::Ambler => Some(90526),
            Self::FortWashington => Some(90525),
            Self::Oreland => Some(90524),
            Self::NorthHills => Some(90523),
            Self::NorthBroad => Some(90008),
            Self::Wawa => Some(90300),
            Self::Elwyn => Some(90301),
            Self::Media => Some(90302),
            Self::MoylanRoseValley => Some(90303),
            Self::Wallingford => Some(90304),
            Self::Swarthmore => Some(90305),
            Self::Morton => Some(90306),
            Self::Secane => Some(90307),
            Self::Primos => Some(90308),
            Self::CliftonAldan => Some(90309),
            Self::Gladstone => Some(90310),
            Self::Lansdowne => Some(90311),
            Self::FernwoodYeadon => Some(90312),
            Self::Angora => Some(90313),
            Self::FortyNinthStreet => Some(90314),
            Self::NorristownElmStreet => Some(90228),
            Self::MainStreet => Some(90227),
            Self::NorristownTC => Some(90226),
            Self::Conshohocken => Some(90225),
            Self::SpringMill => Some(90224),
            Self::Miquon => Some(90223),
            Self::IvyRidge => Some(90222),
            Self::Manayunk => Some(90221),
            Self::Wissahickon => Some(90220),
            Self::EastFalls => Some(90219),
            Self::Allegheny => Some(90218),
            Self::Thorndale => Some(90501),
            Self::Downingtown => Some(90502),
            Self::Whitford => Some(90503),
            Self::Exton => Some(90504),
            Self::Malvern => Some(90505),
            Self::Paoli => Some(90506),
            Self::Wayne => Some(90511),
            Self::StDavids => Some(90512),
            Self::Berwyn => Some(90508),
            Self::Devon => Some(90509),
            Self::Villanova => Some(90514),
            Self::Rosemont => Some(90515),
            Self::BrynMawr => Some(90516),
            Self::Strafford => Some(90510),
            Self::Daylesford => Some(90507),
            Self::Radnor => Some(90513),
            Self::Haverford => Some(90517),
            Self::Ardmore => Some(90518),
            Self::Wynnewood => Some(90519),
            Self::Narberth => Some(90520),
            Self::Overbrook => Some(90522),
            Self::Merion => Some(90521),
            Self::Trenton => Some(90701),
            Self::Levittown => Some(90702),
            Self::Bristol => Some(90703),
            Self::Croydon => Some(90704),
            Self::Eddington => Some(90705),
            Self::CornwellsHeights => Some(90706),
            Self::Torresdale => Some(90707),
            Self::HolmesburgJct => Some(90708),
            Self::Tacony => Some(90709),
            Self::Bridesburg => Some(90710),
            Self::NorthPhiladelphiaAmtrak => Some(90711),
            Self::Warminster => Some(90417),
            Self::Hatboro => Some(90416),
            Self::WillowGrove => Some(90415),
            Self::Crestmont => Some(90414),
            Self::Roslyn => Some(90413),
            Self::Ardsley => Some(90412),
            Self::Newark => Some(90201),
            Self::ChurchmansCrossing => Some(90202),
            Self::Wilmington => Some(90203),
            Self::Claymont => Some(90204),
            Self::MarcusHook => Some(90205),
            Self::HighlandAvenue => Some(90206),
            Self::Chester => Some(90207),
            Self::Eddystone => Some(90208),
            Self::CrumLynne => Some(90209),
            Self::RidleyPark => Some(90210),
            Self::ProspectParkMoore => Some(90211),
            Self::Norwood => Some(90212),
            Self::Glenolden => Some(90213),
            Self::Folcroft => Some(90214),
            Self::SharonHill => Some(90215),
            Self::CurtisPark => Some(90216),
            Self::Darby => Some(90217),
            Self::WestTrenton => Some(90327),
            Self::Yardley => Some(90326),
            Self::Woodbourne => Some(90325),
            Self::Langhorne => Some(90324),
            Self::Neshaminy => Some(90323),
            Self::Trevose => Some(90322),
            Self::Somerton => Some(90321),
            Self::ForestHills => Some(90320),
            Self::Philmont => Some(90319),
            Self::Bethayres => Some(90318),
            Self::Meadowbrook => Some(90317),
            Self::Rydal => Some(90316),
            Self::Noble => Some(90315),
            Self::WayneJunction => Some(90009),
            Self::Glenside => Some(90411),
            Self::JenkintownWyncote => Some(90410),
            Self::FernRockTC => Some(90407),
            Self::ElkinsPark => Some(90409),
            Self::MelrosePark => Some(90408),
            Self::Gray30thStreet => Some(90004),
            Self::SuburbanStation => Some(90005),
            Self::JeffersonStation => Some(90006),
            Self::TempleUniversity => Some(90007),
            Self::PennMedicineStation => Some(90406),
            Self::Unknown(_) => None,
        }
    }

    /// The catalog's numeric id of the stop.
    pub fn stop_id(&self) -> (r: Result<u32, Error>)
        ensures
            match self.spec_stop_id() {
                Some(id) => r == Ok::<u32, Error>(id),
                None => r matches Err(Error::UnknownRegionalRailStation(t)) && t@ == self.spec_display(),
            },
    {
        match self {
            Self::AirportTerminalEF => Ok(90401),
            Self::AirportTerminalCD => Ok(90402),
            Self::AirportTerminalB => Ok(90403),
            Self::AirportTerminalA => Ok(90404),
            Self::Eastwick => Ok(90405),
            Self::Stenton => Ok(90715),
            Self::Wyndmoor => Ok(90718),
            Self::Wister => Ok(90712),
            Self::Gravers => Ok(90719),
            Self::Germantown => Ok(90713),
            Self::Sedgwick => Ok(90716),
            Self::ChestnutHillEast => Ok(90720),
            Self::WashingtonLane => Ok(90714),
            Self::MountAiry => Ok(90717),
            Self::NorthPhiladelphia => Ok(90810),
            Self::Upsal => Ok(90806),
            Self::StMartins => Ok(90803),
            Self::ChestnutHillWest => Ok(90801),
            Self::CheltenAvenue => Ok(90808),
            Self::Carpenter => Ok(90805),
            Self::RichardAllenLane => Ok(90804),
            Self::Tulpehocken => Ok(90807),
            Self::Highland => Ok(90802),
            Self::QueenLane => Ok(90809),
            Self::Cynwyd => Ok(90001),
            Self::Bala => Ok(90002),
            Self::WynnefieldAvenue => Ok(90003),
            Self::FoxChase => Ok(90815),
            Self::Ryers => Ok(90814),
            Self::Cheltenham => Ok(90813),
            Self::Lawndale => Ok(90812),
            Self::Olney => Ok(90811),
            Self::Doylestown => Ok(90538),
            Self::DelawareValleyCollege => Ok(90537),
            Self::NewBritain => Ok(90536),
            Self::Chalfont => Ok(90535),
            Self::LinkBelt => Ok(90534),
            Self::Colmar => Ok(90533),
            Self::Fortuna => Ok(90532),
            Self::NinthStreetLansdale => Ok(90539),
            Self::Lansdale => Ok(90531),
            Self::Pennbrook => Ok(90530),
            Self::NorthWales => Ok(90529),
            Self::GwyneddValley => Ok(90528),
            Self::Penllyn => Ok(90527),
            Self::Ambler => Ok(90526),
            Self::FortWashington => Ok(90525),
            Self::Oreland => Ok(90524),
            Self::NorthHills => Ok(90523),
            Self::NorthBroad => Ok(90008),
            Self::Wawa => Ok(90300),
            Self::Elwyn => Ok(90301),
            Self::Media => Ok(90302),
            Self::MoylanRoseValley => Ok(90303),
            Self::Wallingford => Ok(90304),
            Self::Swarthmore => Ok(90305),
            Self::Morton => Ok(90306),
            Self::Secane => Ok(90307),
            Self::Primos => Ok(90308),
            Self::CliftonAldan => Ok(90309),
            Self::Gladstone => Ok(90310),
            Self::Lansdowne => Ok(90311),
            Self::FernwoodYeadon => Ok(90312),
            Self::Angora => Ok(90313),
            Self::FortyNinthStreet => Ok(90314),
            Self::NorristownElmStreet => Ok(90228),
            Self::MainStreet => Ok(90227),
            Self::NorristownTC => Ok(90226),
            Self::Conshohocken => Ok(90225),
            Self::SpringMill => Ok(90224),
            Self::Miquon => Ok(90223),
            Self::IvyRidge => Ok(90222),
            Self::Manayunk => Ok(90221),
            Self::Wissahickon => Ok(90220),
            Self::EastFalls => Ok(90219),
            Self::Allegheny => Ok(90218),
            Self::Thorndale => Ok(90501),
            Self::Downingtown => Ok(90502),
            Self::Whitford => Ok(90503),
            Self::Exton => Ok(90504),
            Self::Malvern => Ok(90505),
            Self::Paoli => Ok(90506),
            Self::Wayne => Ok(90511),
            Self::StDavids => Ok(90512),
            Self::Berwyn => Ok(90508),
            Self::Devon => Ok(90509),
            Self::Villanova => Ok(90514),
            Self::Rosemont => Ok(90515),
            Self::BrynMawr => Ok(90516),
            Self::Strafford => Ok(90510),
            Self::Daylesford => Ok(90507),
            Self::Radnor => Ok(90513),
            Self::Haverford => Ok(90517),
            Self::Ardmore => Ok(90518),
            Self::Wynnewood => Ok(90519),
            Self::Narberth => Ok(90520),
            Self::Overbrook => Ok(90522),
            Self::Merion => Ok(90521),
            Self::Trenton => Ok(90701),
            Self::Levittown => Ok(90702),
            Self::Bristol => Ok(90703),
            Self::Croydon => Ok(90704),
            Self::Eddington => Ok(90705),
            Self::CornwellsHeights => Ok(90706),
            Self::Torresdale => Ok(90707),
            Self::HolmesburgJct => Ok(90708),
            Self::Tacony => Ok(90709),
            Self::Bridesburg => Ok(90710),
            Self::NorthPhiladelphiaAmtrak => Ok(90711),
            Self::Warminster => Ok(90417),
            Self::Hatboro => Ok(90416),
            Self::WillowGrove => Ok(90415),
            Self::Crestmont => Ok(90414),
            Self::Roslyn => Ok(90413),
            Self::Ardsley => Ok(90412),
            Self::Newark => Ok(90201),
            Self::ChurchmansCrossing => Ok(90202),
            Self::Wilmington => Ok(90203),
            Self::Claymont => Ok(90204),
            Self::MarcusHook => Ok(90205),
            Self::HighlandAvenue => Ok(90206),
            Self::Chester => Ok(90207),
            Self::Eddystone => Ok(90208),
            Self::CrumLynne => Ok(90209),
            Self::RidleyPark => Ok(90210),
            Self::ProspectParkMoore => Ok(90211),
            Self::Norwood => Ok(90212),
            Self::Glenolden => Ok(90213),
            Self::Folcroft => Ok(90214),
            Self::SharonHill => Ok(90215),
            Self::CurtisPark => Ok(90216),
            Self::Darby => Ok(90217),
            Self::WestTrenton => Ok(90327),
            Self::Yardley => Ok(90326),
            Self::Woodbourne => Ok(90325),
            Self::Langhorne => Ok(90324),
            Self::Neshaminy => Ok(90323),
            Self::Trevose => Ok(90322),
            Self::Somerton => Ok(90321),
            Self::ForestHills => Ok(90320),
            Self::Philmont => Ok(90319),
            Self::Bethayres => Ok(90318),
            Self::Meadowbrook => Ok(90317),
            Self::Rydal => Ok(90316),
            Self::Noble => Ok(90315),
            Self::WayneJunction => Ok(90009),
            Self::Glenside => Ok(90411),
            Self::JenkintownWyncote => Ok(90410),
            Self::FernRockTC => Ok(90407),
            Self::ElkinsPark => Ok(90409),
            Self::MelrosePark => Ok(90408),
            Self::Gray30thStreet => Ok(90004),
            Self::SuburbanStation => Ok(90005),
            Self::JeffersonStation => Ok(90006),
            Self::TempleUniversity => Ok(90007),
            Self::PennMedicineStation => Ok(90406),
            Self::Unknown(t) => Err(Error::UnknownRegionalRailStation(t.clone())),
        }
    }
}

impl RegionalRailStop {
    /// The stop's latitude and longitude in ten-millionths of a degree; none for a stop
    /// outside the catalog.
    pub open spec fn spec_coordinate(&self) -> Option<(i32, i32)> {
        match self {
            Self::Cynwyd => Some((400066667i32, -752316667i32)),
            Self::Bala => Some((400011111i32, -752277778i32)),
            Self::WynnefieldAvenue => Some((399900000i32, -752255556i32)),
            Self::Gray30thStreet => Some((399566667i32, -751816667i32)),
            Self::SuburbanStation => Some((399538889i32, -751677778i32)),
            Self::JeffersonStation => Some((399525000i32, -751580556i32)),
            Self::TempleUniversity => Some((399813889i32, -751494444i32)),
            Self::NorthBroad => Some((399922222i32, -751538889i32)),
            Self::WayneJunction => Some((400222222i32, -751600000i32)),
            Self::Newark => Some((396705556i32, -757527778i32)),
            Self::ChurchmansCrossing => Some((396950000i32, -756725000i32)),
            Self::Wilmington => Some((397372222i32, -755511111i32)),
            Self::Claymont => Some((397977778i32, -754522222i32)),
            Self::MarcusHook => Some((398216667i32, -754194444i32)),
            Self::HighlandAvenue => Some((398336111i32, -753933333i32)),
            Self::Chester => Some((398497222i32, -753600000i32)),
            Self::Eddystone => Some((398572222i32, -753422222i32)),
            Self::CrumLynne => Some((398719444i32, -753311111i32)),
            Self::RidleyPark => Some((398805556i32, -753222222i32)),
            Self::ProspectParkMoore => Some((398883333i32, -753088889i32)),
            Self::Norwood => Some((398916667i32, -753016667i32)),
            Self::Glenolden => Some((398963889i32, -752900000i32)),
            Self::Folcroft => Some((399005556i32, -752797222i32)),
            Self::SharonHill => Some((399044444i32, -752708333i32)),
            Self::CurtisPark => Some((399080556i32, -752650000i32)),
            Self::Darby => Some((399130556i32, -752544444i32)),
            Self::Allegheny => Some((400036111i32, -751647222i32)),
            Self::EastFalls => Some((400113889i32, -751919444i32)),
            Self::Wissahickon => Some((400166667i32, -752102778i32)),
            Self::Manayunk => Some((400269444i32, -752250000i32)),
            Self::IvyRidge => Some((400341667i32, -752355556i32)),
            Self::Miquon => Some((400586111i32, -752663889i32)),
            Self::SpringMill => Some((400741667i32, -752861111i32)),
            Self::Conshohocken => Some((400722222i32, -753086111i32)),
            Self::NorristownTC => Some((401127778i32, -753441667i32)),
            Self::MainStreet => Some((401172222i32, -753486111i32)),
            Self::NorristownElmStreet => Some((401208333i32, -753450000i32)),
            Self::Wawa => Some((399011470i32, -754596330i32)),
            Self::Elwyn => Some((399075000i32, -754116667i32)),
            Self::Media => Some((399144444i32, -753950000i32)),
            Self::MoylanRoseValley => Some((399061111i32, -753886111i32)),
            Self::Wallingford => Some((399036111i32, -753719444i32)),
            Self::Swarthmore => Some((399022222i32, -753508333i32)),
            Self::Morton => Some((399077778i32, -753288889i32)),
            Self::Secane => Some((399158333i32, -753097222i32)),
            Self::Primos => Some((399216667i32, -752983333i32)),
            Self::CliftonAldan => Some((399266667i32, -752902778i32)),
            Self::Gladstone => Some((399327778i32, -752822222i32)),
            Self::Lansdowne => Some((399375000i32, -752708333i32)),
            Self::FernwoodYeadon => Some((399397222i32, -752558333i32)),
            Self::Angora => Some((399447222i32, -752386111i32)),
            Self::FortyNinthStreet => Some((399436111i32, -752166667i32)),
            Self::Noble => Some((401044444i32, -751241667i32)),
            Self::Rydal => Some((401075000i32, -751105556i32)),
            Self::Meadowbrook => Some((401113889i32, -750925000i32)),
            Self::Bethayres => Some((401166667i32, -750683333i32)),
            Self::Philmont => Some((401219444i32, -750436111i32)),
            Self::ForestHills => Some((401277778i32, -750205556i32)),
            Self::Somerton => Some((401305556i32, -750119444i32)),
            Self::Trevose => Some((401402778i32, -749825000i32)),
            Self::Neshaminy => Some((401469444i32, -749616667i32)),
            Self::Langhorne => Some((401608333i32, -749125000i32)),
            Self::Woodbourne => Some((401925000i32, -748891667i32)),
            Self::Yardley => Some((402352778i32, -748305556i32)),
            Self::WestTrenton => Some((402577778i32, -748152778i32)),
            Self::AirportTerminalEF => Some((398794444i32, -752397222i32)),
            Self::AirportTerminalCD => Some((398780556i32, -752400000i32)),
            Self::AirportTerminalB => Some((398772222i32, -752413889i32)),
            Self::AirportTerminalA => Some((398761111i32, -752452778i32)),
            Self::Eastwick => Some((398927778i32, -752438889i32)),
            Self::PennMedicineStation => Some((399480556i32, -751902778i32)),
            Self::FernRockTC => Some((400405556i32, -751347222i32)),
            Self::MelrosePark => Some((400594444i32, -751291667i32)),
            Self::ElkinsPark => Some((400713889i32, -751277778i32)),
            Self::JenkintownWyncote => Some((400927778i32, -751375000i32)),
            Self::Glenside => Some((401013889i32, -751536111i32)),
            Self::Ardsley => Some((401141667i32, -751530556i32)),
            Self::Roslyn => Some((401208333i32, -751341667i32)),
            Self::Crestmont => Some((401333333i32, -751186111i32)),
            Self::WillowGrove => Some((401438889i32, -751141667i32)),
            Self::Hatboro => Some((401761111i32, -751025000i32)),
            Self::Warminster => Some((401952778i32, -750891667i32)),
            Self::Thorndale => Some((399927778i32, -757636111i32)),
            Self::Downingtown => Some((400022222i32, -757102778i32)),
            Self::Whitford => Some((400147222i32, -756380556i32)),
            Self::Exton => Some((400191667i32, -756227778i32)),
            Self::Malvern => Some((400363889i32, -755155556i32)),
            Self::Paoli => Some((400430556i32, -754827778i32)),
            Self::Daylesford => Some((400430556i32, -754605556i32)),
            Self::Berwyn => Some((400480556i32, -754422222i32)),
            Self::Devon => Some((400472222i32, -754227778i32)),
            Self::Strafford => Some((400494444i32, -754030556i32)),
            Self::Wayne => Some((400458333i32, -753866667i32)),
            Self::StDavids => Some((400438889i32, -753725000i32)),
            Self::Radnor => Some((400447222i32, -753588889i32)),
            Self::Villanova => Some((400383333i32, -753416667i32)),
            Self::Rosemont => Some((400277778i32, -753266667i32)),
            Self::BrynMawr => Some((400219444i32, -753163889i32)),
            Self::Haverford => Some((400138889i32, -752997222i32)),
            Self::Ardmore => Some((400083333i32, -752902778i32)),
            Self::Wynnewood => Some((400027778i32, -752725000i32)),
            Self::Narberth => Some((400047222i32, -752613889i32)),
            Self::Merion => Some((399986111i32, -752513889i32)),
            Self::Overbrook => Some((399894444i32, -752494444i32)),
            Self::NorthHills => Some((401119444i32, -751694444i32)),
            Self::Oreland => Some((401183333i32, -751838889i32)),
            Self::FortWashington => Some((401358333i32, -752122222i32)),
            Self::Ambler => Some((401536111i32, -752247222i32)),
            Self::Penllyn => Some((401700000i32, -752441667i32)),
            Self::GwyneddValley => Some((401847222i32, -752569444i32)),
            Self::NorthWales => Some((402141667i32, -752772222i32)),
            Self::Pennbrook => Some((402302778i32, -752816667i32)),
            Self::Lansdale => Some((402427778i32, -752850000i32)),
            Self::Fortuna => Some((402594444i32, -752661111i32)),
            Self::Colmar => Some((402683333i32, -752544444i32)),
            Self::LinkBelt => Some((402738889i32, -752466667i32)),
            Self::Chalfont => Some((402877778i32, -752097222i32)),
            Self::NewBritain => Some((402975000i32, -751797222i32)),
            Self::DelawareValleyCollege => Some((402972222i32, -751616667i32)),
            Self::Doylestown => Some((403063889i32, -751302778i32)),
            Self::NinthStreetLansdale => Some((402500000i32, -752791667i32)),
            Self::Trenton => Some((402177778i32, -747550000i32)),
            Self::Levittown => Some((401402778i32, -748169444i32)),
            Self::Bristol => Some((401047222i32, -748547222i32)),
            Self::Croydon => Some((400936111i32, -749066667i32)),
            Self::Eddington => Some((400830556i32, -749336111i32)),
            Self::CornwellsHeights => Some((400716667i32, -749522222i32)),
            Self::Torresdale => Some((400544444i32, -749844444i32)),
            Self::HolmesburgJct => Some((400327778i32, -750236111i32)),
            Self::Tacony => Some((400233333i32, -750388889i32)),
            Self::Bridesburg => Some((400105556i32, -750697222i32)),
            Self::NorthPhiladelphiaAmtrak => Some((399972222i32, -751550000i32)),
            Self::Wister => Some((400361111i32, -751611111i32)),
            Self::Germantown => Some((400375000i32, -751716667i32)),
            Self::WashingtonLane => Some((400508333i32, -751713889i32)),
            Self::Stenton => Some((400605556i32, -751786111i32)),
            Self::Sedgwick => Some((400627778i32, -751852778i32)),
            Self::MountAiry => Some((400652778i32, -751908333i32)),
            Self::Wyndmoor => Some((400733333i32, -751966667i32)),
            Self::Gravers => Some((400775000i32, -752016667i32)),
            Self::ChestnutHillEast => Some((400811111i32, -752072222i32)),
            Self::ChestnutHillWest => Some((400763889i32, -752083333i32)),
            Self::Highland => Some((400705556i32, -752111111i32)),
            Self::StMartins => Some((400658333i32, -752044444i32)),
            Self::RichardAllenLane => Some((400575000i32, -751947222i32)),
            Self::Carpenter => Some((400511111i32, -751913889i32)),
            Self::Upsal => Some((400425000i32, -751900000i32)),
            Self::Tulpehocken => Some((400352778i32, -751869444i32)),
            Self::CheltenAvenue => Some((400300000i32, -751808333i32)),
            Self::QueenLane => Some((400233333i32, -751780556i32)),
            Self::NorthPhiladelphia => Some((399977778i32, -751563889i32)),
            Self::Olney => Some((400333333i32, -751227778i32)),
            Self::Lawndale => Some((400513889i32, -751030556i32)),
            Self::Cheltenham => Some((400580556i32, -750927778i32)),
            Self::Ryers => Some((400641667i32, -750863889i32)),
            Self::FoxChase => Some((400763889i32, -750833333i32)),
            Self::Unknown(_) => None,
        }
    }

    /// The stop's latitude and longitude in ten-millionths of a degree.
    pub fn coordinate(&self) -> (r: Result<(i32, i32), Error>)
        ensures
            match self.spec_coordinate() {
                Some(c) => r == Ok::<(i32, i32), Error>(c),
                None => r matches Err(Error::UnknownRegionalRailStation(t)) && t@ == self.spec_display(),
            },
    {
        match self {
            Self::Cynwyd => Ok((400066667, -752316667)),
            Self::Bala => Ok((400011111, -752277778)),
            Self::WynnefieldAvenue => Ok((399900000, -752255556)),
            Self::Gray30thStreet => Ok((399566667, -751816667)),
            Self::SuburbanStation => Ok((399538889, -751677778)),
            Self::JeffersonStation => Ok((399525000, -751580556)),
            Self::TempleUniversity => Ok((399813889, -751494444)),
            Self::NorthBroad => Ok((399922222, -751538889)),
            Self::WayneJunction => Ok((400222222, -751600000)),
            Self::Newark => Ok((396705556, -757527778)),
            Self::ChurchmansCrossing => Ok((396950000, -756725000)),
            Self::Wilmington => Ok((397372222, -755511111)),
            Self::Claymont => Ok((397977778, -754522222)),
            Self::MarcusHook => Ok((398216667, -754194444)),
            Self::HighlandAvenue => Ok((398336111, -753933333)),
            Self::Chester => Ok((398497222, -753600000)),
            Self::Eddystone => Ok((398572222, -753422222)),
            Self::CrumLynne => Ok((398719444, -753311111)),
            Self::RidleyPark => Ok((398805556, -753222222)),
            Self::ProspectParkMoore => Ok((398883333, -753088889)),
            Self::Norwood => Ok((398916667, -753016667)),
            Self::Glenolden => Ok((398963889, -752900000)),
            Self::Folcroft => Ok((399005556, -752797222)),
            Self::SharonHill => Ok((399044444, -752708333)),
            Self::CurtisPark => Ok((399080556, -752650000)),
            Self::Darby => Ok((399130556, -752544444)),
            Self::Allegheny => Ok((400036111, -751647222)),
            Self::EastFalls => Ok((400113889, -751919444)),
            Self::Wissahickon => Ok((400166667, -752102778)),
            Self::Manayunk => Ok((400269444, -752250000)),
            Self::IvyRidge => Ok((400341667, -752355556)),
            Self::Miquon => Ok((400586111, -752663889)),
            Self::SpringMill => Ok((400741667, -752861111)),
            Self::Conshohocken => Ok((400722222, -753086111)),
            Self::NorristownTC => Ok((401127778, -753441667)),
            Self::MainStreet => Ok((401172222, -753486111)),
            Self::NorristownElmStreet => Ok((401208333, -753450000)),
            Self::Wawa => Ok((399011470, -754596330)),
            Self::Elwyn => Ok((399075000, -754116667)),
            Self::Media => Ok((399144444, -753950000)),
            Self::MoylanRoseValley => Ok((399061111, -753886111)),
            Self::Wallingford => Ok((399036111, -753719444)),
            Self::Swarthmore => Ok((399022222, -753508333)),
            Self::Morton => Ok((399077778, -753288889)),
            Self::Secane => Ok((399158333, -753097222)),
            Self::Primos => Ok((399216667, -752983333)),
            Self::CliftonAldan => Ok((399266667, -752902778)),
            Self::Gladstone => Ok((399327778, -752822222)),
            Self::Lansdowne => Ok((399375000, -752708333)),
            Self::FernwoodYeadon => Ok((399397222, -752558333)),
            Self::Angora => Ok((399447222, -752386111)),
            Self::FortyNinthStreet => Ok((399436111, -752166667)),
            Self::Noble => Ok((401044444, -751241667)),
            Self::Rydal => Ok((401075000, -751105556)),
            Self::Meadowbrook => Ok((401113889, -750925000)),
            Self::Bethayres => Ok((401166667, -750683333)),
            Self::Philmont => Ok((401219444, -750436111)),
            Self::ForestHills => Ok((401277778, -750205556)),
            Self::Somerton => Ok((401305556, -750119444)),
            Self::Trevose => Ok((401402778, -749825000)),
            Self::Neshaminy => Ok((401469444, -749616667)),
            Self::Langhorne => Ok((401608333, -749125000)),
            Self::Woodbourne => Ok((401925000, -748891667)),
            Self::Yardley => Ok((402352778, -748305556)),
            Self::WestTrenton => Ok((402577778, -748152778)),
            Self::AirportTerminalEF => Ok((398794444, -752397222)),
            Self::AirportTerminalCD => Ok((398780556, -752400000)),
            Self::AirportTerminalB => Ok((398772222, -752413889)),
            Self::AirportTerminalA => Ok((398761111, -752452778)),
            Self::Eastwick => Ok((398927778, -752438889)),
            Self::PennMedicineStation => Ok((399480556, -751902778)),
            Self::FernRockTC => Ok((400405556, -751347222)),
            Self::MelrosePark => Ok((400594444, -751291667)),
            Self::ElkinsPark => Ok((400713889, -751277778)),
            Self::JenkintownWyncote => Ok((400927778, -751375000)),
            Self::Glenside => Ok((401013889, -751536111)),
            Self::Ardsley => Ok((401141667, -751530556)),
            Self::Roslyn => Ok((401208333, -751341667)),
            Self::Crestmont => Ok((401333333, -751186111)),
            Self::WillowGrove => Ok((401438889, -751141667)),
            Self::Hatboro => Ok((401761111, -751025000)),
            Self::Warminster => Ok((401952778, -750891667)),
            Self::Thorndale => Ok((399927778, -757636111)),
            Self::Downingtown => Ok((400022222, -757102778)),
            Self::Whitford => Ok((400147222, -756380556)),
            Self::Exton => Ok((400191667, -756227778)),
            Self::Malvern => Ok((400363889, -755155556)),
            Self::Paoli => Ok((400430556, -754827778)),
            Self::Daylesford => Ok((400430556, -754605556)),
            Self::Berwyn => Ok((400480556, -754422222)),
            Self::Devon => Ok((400472222, -754227778)),
            Self::Strafford => Ok((400494444, -754030556)),
            Self::Wayne => Ok((400458333, -753866667)),
            Self::StDavids => Ok((400438889, -753725000)),
            Self::Radnor => Ok((400447222, -753588889)),
            Self::Villanova => Ok((400383333, -753416667)),
            Self::Rosemont => Ok((400277778, -753266667)),
            Self::BrynMawr => Ok((400219444, -753163889)),
            Self::Haverford => Ok((400138889, -752997222)),
            Self::Ardmore => Ok((400083333, -752902778)),
            Self::Wynnewood => Ok((400027778, -752725000)),
            Self::Narberth => Ok((400047222, -752613889)),
            Self::Merion => Ok((399986111, -752513889)),
            Self::Overbrook => Ok((399894444, -752494444)),
            Self::NorthHills => Ok((401119444, -751694444)),
            Self::Oreland => Ok((401183333, -751838889)),
            Self::FortWashington => Ok((401358333, -752122222)),
            Self::Ambler => Ok((401536111, -752247222)),
            Self::Penllyn => Ok((401700000, -752441667)),
            Self::GwyneddValley => Ok((401847222, -752569444)),
            Self::NorthWales => Ok((402141667, -752772222)),
            Self::Pennbrook => Ok((402302778, -752816667)),
            Self::Lansdale => Ok((402427778, -752850000)),
            Self::Fortuna => Ok((402594444, -752661111)),
            Self::Colmar => Ok((402683333, -752544444)),
            Self::LinkBelt => Ok((402738889, -752466667)),
            Self::Chalfont => Ok((402877778, -752097222)),
            Self::NewBritain => Ok((402975000, -751797222)),
            Self::DelawareValleyCollege => Ok((402972222, -751616667)),
            Self::Doylestown => Ok((403063889, -751302778)),
            Self::NinthStreetLansdale => Ok((402500000, -752791667)),
            Self::Trenton => Ok((402177778, -747550000)),
            Self::Levittown => Ok((401402778, -748169444)),
            Self::Bristol => Ok((401047222, -748547222)),
            Self::Croydon => Ok((400936111, -749066667)),
            Self::Eddington => Ok((400830556, -749336111)),
            Self::CornwellsHeights => Ok((400716667, -749522222)),
            Self::Torresdale => Ok((400544444, -749844444)),
            Self::HolmesburgJct => Ok((400327778, -750236111)),
            Self::Tacony => Ok((400233333, -750388889)),
            Self::Bridesburg => Ok((400105556, -750697222)),
            Self::NorthPhiladelphiaAmtrak => Ok((399972222, -751550000)),
            Self::Wister => Ok((400361111, -751611111)),
            Self::Germantown => Ok((400375000, -751716667)),
            Self::WashingtonLane => Ok((400508333, -751713889)),
            Self::Stenton => Ok((400605556, -751786111)),
            Self::Sedgwick => Ok((400627778, -751852778)),
            Self::MountAiry => Ok((400652778, -751908333)),
            Self::Wyndmoor => Ok((400733333, -751966667)),
            Self::Gravers => Ok((400775000, -752016667)),
            Self::ChestnutHillEast => Ok((400811111, -752072222)),
            Self::ChestnutHillWest => Ok((400763889, -752083333)),
            Self::Highland => Ok((400705556, -752111111)),
            Self::StMartins => Ok((400658333, -752044444)),
            Self::RichardAllenLane => Ok((400575000, -751947222)),
            Self::Carpenter => Ok((400511111, -751913889)),
            Self::Upsal => Ok((400425000, -751900000)),
            Self::Tulpehocken => Ok((400352778, -751869444)),
            Self::CheltenAvenue => Ok((400300000, -751808333)),
            Self::QueenLane => Ok((400233333, -751780556)),
            Self::NorthPhiladelphia => Ok((399977778, -751563889)),
            Self::Olney => Ok((400333333, -751227778)),
            Self::Lawndale => Ok((400513889, -751030556)),
            Self::Cheltenham => Ok((400580556, -750927778)),
            Self::Ryers => Ok((400641667, -750863889)),
            Self::FoxChase => Ok((400763889, -750833333)),
            Self::Unknown(t) => Err(Error::UnknownRegionalRailStation(t.clone())),
        }
    }
}

} // verus!
