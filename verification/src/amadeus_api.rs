//! Requests to the Amadeus API that carry a token, and the reading of what
//! comes back. A request is put together here and sent elsewhere; the token
//! comes from the authenticator.

use crate::amadeus_auth::AuthError;
use vstd::prelude::*;
use vstd::string::*;

verus! {

/// One link to an airline's check-in page.
#[derive(Debug)]
pub struct CheckinLink {
    /// The field `type` of the answer.
    pub link_type: String,
    pub href: String,
    pub channel: String,
}

/// The answer of the check-in links endpoint.
#[derive(Debug)]
pub struct CheckinLinksResponse {
    pub data: Vec<CheckinLink>,
}

/// A GET request with its token.
#[derive(Debug)]
pub struct ApiRequest {
    pub url: String,
    /// The value of the `Authorization` header.
    pub authorization: String,
    /// The query parameters, in order.
    pub query: Vec<(String, String)>,
}

/// What an [`ApiRequest`] holds.
pub struct ApiRequestView {
    pub url: Seq<char>,
    pub authorization: Seq<char>,
    pub query: Seq<(Seq<char>, Seq<char>)>,
}

impl View for ApiRequest {
    type V = ApiRequestView;

    open spec fn view(&self) -> ApiRequestView {
        ApiRequestView {
            url: self.url@,
            authorization: self.authorization@,
            query: self.query.deep_view(),
        }
    }
}

/// What came of sending an [`ApiRequest`].
#[derive(Debug)]
pub enum ApiReply<T> {
    /// The request could not be sent, or the answer could not be read.
    Unreachable { detail: String },
    /// The API answered. `body` is what it sent, where the body could be
    /// read as the expected record.
    Answered { status: u16, body: Option<T> },
}

/// Why a call to the API came to nothing.
#[derive(Debug)]
pub enum ApiError {
    /// No token could be had.
    Auth(AuthError),
    /// The request could not be sent, or the answer could not be read.
    Unreachable { detail: String },
    /// The API answered with a status from 400 to 599.
    Status { code: u16 },
    /// The body was not the expected record.
    MalformedBody,
}

/// The base URL that a client has unless it is given another.
pub open spec fn default_api_base_url() -> Seq<char> {
    "https://test.api.amadeus.com"@
}

/// The endpoint of the check-in links, below the base URL.
pub open spec fn checkin_links_endpoint() -> Seq<char> {
    "v2/reference-data/urls/checkin-links"@
}

/// The value of the `Authorization` header for a token.
pub open spec fn bearer(token: Seq<char>) -> Seq<char> {
    "Bearer "@ + token
}

/// The URL of an endpoint: the base, a slash, the endpoint.
pub open spec fn endpoint_url(base_url: Seq<char>, endpoint: Seq<char>) -> Seq<char> {
    base_url + "/"@ + endpoint
}

/// Whether an HTTP status reports an error of the client or of the server.
pub open spec fn is_error_status(status: u16) -> bool {
    400 <= status < 600
}

/// What a reply amounts to: the record, or the reason why there is none.
pub open spec fn read<T>(reply: ApiReply<T>) -> Result<T, ApiError> {
    match reply {
        ApiReply::Unreachable { detail } => Err(ApiError::Unreachable { detail }),
        ApiReply::Answered { status, body } => if is_error_status(status) {
            Err(ApiError::Status { code: status })
        } else {
            match body {
                Some(record) => Ok(record),
                None => Err(ApiError::MalformedBody),
            }
        },
    }
}

/// Sorts a reply into the record or the reason why there is none.
pub fn read_reply<T>(reply: ApiReply<T>) -> (answer: Result<T, ApiError>)
    ensures
        answer == read(reply),
{
    match reply {
        ApiReply::Unreachable { detail } => Err(ApiError::Unreachable { detail }),
        ApiReply::Answered { status, body } => {
            if status >= 400 && status < 600 {
                Err(ApiError::Status { code: status })
            } else {
                match body {
                    Some(record) => Ok(record),
                    None => Err(ApiError::MalformedBody),
                }
            }
        },
    }
}

/// The client's side of the Amadeus API: where it is.
#[derive(Debug)]
pub struct AmadeusApiClient {
    base_url: String,
}

impl View for AmadeusApiClient {
    type V = Seq<char>;

    /// The base URL.
    closed spec fn view(&self) -> Seq<char> {
        self.base_url@
    }
}

impl AmadeusApiClient {
    /// A client for the default base URL.
    pub fn new() -> (client: Self)
        ensures
            client@ == default_api_base_url(),
    {
        AmadeusApiClient { base_url: "https://test.api.amadeus.com".to_string() }
    }

    /// The GET request for an endpoint, with the token in its
    /// `Authorization` header and the parameters as they were given.
    pub fn authenticated_get(
        &self,
        token: &str,
        endpoint: &str,
        query_params: Vec<(String, String)>,
    ) -> (request: ApiRequest)
        ensures
            request@ == (ApiRequestView {
                url: endpoint_url(self@, endpoint@),
                authorization: bearer(token@),
                query: query_params.deep_view(),
            }),
    {
        let mut url = self.base_url.clone();
        url.append("/");
        url.append(endpoint);
        let mut authorization = "Bearer ".to_string();
        authorization.append(token);
        ApiRequest { url, authorization, query: query_params }
    }

    /// The request for the check-in links of one airline.
    pub fn get_checkin_links(&self, token: &str, airline_code: &str) -> (request: ApiRequest)
        ensures
            request@ == (ApiRequestView {
                url: endpoint_url(self@, checkin_links_endpoint()),
                authorization: bearer(token@),
                query: seq![("airline"@, airline_code@)],
            }),
    {
        let mut query_params: Vec<(String, String)> = Vec::new();
        query_params.push(("airline".to_string(), airline_code.to_string()));
        assert(query_params.deep_view() =~= seq![("airline"@, airline_code@)]);
        self.authenticated_get(token, "v2/reference-data/urls/checkin-links", query_params)
    }
}

} // verus!
