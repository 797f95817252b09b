use vstd::prelude::*;

use crate::errors::Error;
use crate::responses::ApiResponse;

verus! {

/// Where the feed is served by default.
pub const BASE_API_URL: &'static str = "https://www3.septa.org/api";

/// The path of the departures endpoint.
pub const ARRIVALS_ENDPOINT: &'static str = "/Arrivals/index.php";

/// The path of the train positions endpoint.
pub const TRAIN_VIEW_ENDPOINT: &'static str = "/TrainView/index.php";

/// The path of the connections endpoint.
pub const NEXT_TO_ARRIVE_ENDPOINT: &'static str = "/NextToArrive/index.php";

/// The path of the train schedule endpoint.
pub const RAIL_SCHEDULE_ENDPOINT: &'static str = "/RRSchedules/index.php";

/// The address of the feed that requests go to.
#[derive(Debug, Clone)]
pub struct Client {
    base_url: String,
}

impl Client {
    /// The address that requests go to.
    pub closed spec fn spec_base_url(&self) -> Seq<char> {
        self.base_url@
    }

    /// A client of the public feed.
    pub fn new() -> (r: Self)
        ensures
            r.spec_base_url() == BASE_API_URL@,
    {
        Client { base_url: String::from_str(BASE_API_URL) }
    }

    /// A client of the feed served at `base_url`.
    pub fn with_base_url(base_url: &str) -> (r: Self)
        ensures
            r.spec_base_url() == base_url@,
    {
        Client { base_url: String::from_str(base_url) }
    }

    /// The address that requests go to.
    pub fn base_url(&self) -> (r: &str)
        ensures
            r@ == self.spec_base_url(),
    {
        self.base_url.as_str()
    }

    /// The address of an endpoint: the base address followed by the endpoint's path.
    pub fn endpoint_url(&self, endpoint: &str) -> (r: String)
        ensures
            r@ == self.spec_base_url() + endpoint@,
    {
        let mut url = self.base_url.clone();
        url.append(endpoint);
        url
    }
}

impl Default for Client {
    fn default() -> (r: Self)
        ensures
            r.spec_base_url() == BASE_API_URL@,
    {
        Client::new()
    }
}

/// What a caller gets from a decoded payload: the result, or the feed's error message as
/// an error.
pub fn into_result<T>(response: ApiResponse<T>) -> (r: Result<T, Error>)
    ensures
        match response {
            ApiResponse::Response(t) => r == Ok::<T, Error>(t),
            ApiResponse::Error(m) => r matches Err(Error::ApiErrorResponse(s)) && s@ == m@,
        },
{
    match response {
        ApiResponse::Response(t) => Ok(t),
        ApiResponse::Error(m) => Err(Error::ApiErrorResponse(m)),
    }
}

} // verus!
