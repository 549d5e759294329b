//! A client library for a social-content JSON HTTP API.
//!
//! The verified core consists of the cursor-based pagination engine
//! ([`search`]), the quota-tracking rate limiter ([`rate_limit`]), and the
//! polling feed logic ([`feed`]).  HTTP transport, URL assembly and JSON
//! (de)serialization are left to the surrounding application, which hands
//! this library plain values and takes plain values back.

pub mod endpoints;
pub mod error;
pub mod feed;
pub mod models;
pub mod rate_limit;
pub mod reddit_api;
pub mod search;

pub use endpoints::SearchSort;
pub use error::ApiError;
pub use rate_limit::RateLimiter;
pub use reddit_api::RedditApiAuthenticationUrl;
pub use search::RedditSearch;
