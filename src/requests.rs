use vstd::prelude::*;

use crate::text::{decimal, decimal_string};
use crate::types::RegionalRailStop;

verus! {

/// A direction of travel on the regional rail network.
#[derive(Clone, Copy, Debug, PartialEq, Eq, Structural)]
pub enum Direction {
    North,
    South,
}

impl Direction {
    /// The code that the feed uses for the direction.
    pub open spec fn spec_code(&self) -> Seq<char> {
        match self {
            Direction::North => "N"@,
            Direction::South => "S"@,
        }
    }

    /// The code that the feed uses for the direction: `N` or `S`.
    pub fn to_string(&self) -> (r: String)
        ensures
            r@ == self.spec_code(),
    {
        match self {
            Direction::North => String::from_str("N"),
            Direction::South => String::from_str("S"),
        }
    }
}

/// The views of query parameters.
pub open spec fn param_views(v: Seq<(&str, String)>) -> Seq<(Seq<char>, Seq<char>)> {
    Seq::new(v.len(), |i: int| (v[i].0@, v[i].1@))
}

/// A request whose fields travel as query parameters.
pub trait Request: Sized {
    /// The query parameters, in order.
    spec fn spec_params(&self) -> Seq<(Seq<char>, Seq<char>)>;

    fn into_params(self) -> (r: Vec<(&'static str, String)>)
        ensures
            param_views(r@) == self.spec_params(),
    ;
}

/// The departures from a station.
pub struct ArrivalsRequest {
    pub station: RegionalRailStop,
    /// How many departures to list.
    pub results: Option<u8>,
    pub direction: Option<Direction>,
}

impl Request for ArrivalsRequest {
    /// The station's display name, then the direction and the count where given.
    open spec fn spec_params(&self) -> Seq<(Seq<char>, Seq<char>)> {
        let station = seq![("station"@, self.station.spec_display())];
        let with_direction = match self.direction {
            Some(d) => station.push(("direction"@, d.spec_code())),
            None => station,
        };
        match self.results {
            Some(n) => with_direction.push(("results"@, decimal(n as nat))),
            None => with_direction,
        }
    }

    fn into_params(self) -> (r: Vec<(&'static str, String)>) {
        let mut params: Vec<(&'static str, String)> = Vec::new();
        params.push(("station", self.station.to_string()));
        if let Some(direction) = self.direction {
            params.push(("direction", direction.to_string()));
        }
        if let Some(results) = self.results {
            params.push(("results", decimal_string(results as u32)));
        }
        assert(param_views(params@) =~= self.spec_params());
        params
    }
}

/// The next trains between two stations.
pub struct NextToArriveRequest {
    pub starting_station: RegionalRailStop,
    pub ending_station: RegionalRailStop,
    /// How many trains to list.
    pub results: Option<u8>,
}

impl Request for NextToArriveRequest {
    /// The two stations' display names, then the count where given.
    open spec fn spec_params(&self) -> Seq<(Seq<char>, Seq<char>)> {
        let stations = seq![
            ("req1"@, self.starting_station.spec_display()),
            ("req2"@, self.ending_station.spec_display()),
        ];
        match self.results {
            Some(n) => stations.push(("req3"@, decimal(n as nat))),
            None => stations,
        }
    }

    fn into_params(self) -> (r: Vec<(&'static str, String)>) {
        let mut params: Vec<(&'static str, String)> = Vec::new();
        params.push(("req1", self.starting_station.to_string()));
        params.push(("req2", self.ending_station.to_string()));
        if let Some(results) = self.results {
            params.push(("req3", decimal_string(results as u32)));
        }
        assert(param_views(params@) =~= self.spec_params());
        params
    }
}

/// The schedule of one train.
pub struct RailScheduleRequest {
    pub train_number: String,
}

impl Request for RailScheduleRequest {
    /// The train number.
    open spec fn spec_params(&self) -> Seq<(Seq<char>, Seq<char>)> {
        seq![("req1"@, self.train_number@)]
    }

    fn into_params(self) -> (r: Vec<(&'static str, String)>) {
        let mut params: Vec<(&'static str, String)> = Vec::new();
        params.push(("req1", self.train_number));
        assert(param_views(params@) =~= self.spec_params());
        params
    }
}

} // verus!
