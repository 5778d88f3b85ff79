//! Travel-data aggregation: a token cache for an OAuth2 client-credentials
//! upstream, and the merging of three providers' results into one response.

pub mod amadeus_api;
pub mod amadeus_auth;
pub mod api_clients;
pub mod clock;
pub mod handlers;
pub mod models;
pub mod text;
