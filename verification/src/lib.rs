//! Client-side logic of the Yupdates feed API: item-time normalization,
//! read-option validation, request construction, chunked submission and
//! response classification.

pub mod api;
pub mod batch;
pub mod config;
pub mod decimal;
pub mod errors;
pub mod item_time;
pub mod models;
pub mod response;
pub mod text_order;
pub mod trim;

pub use config::{api_token, env_or_default_url};
pub use item_time::{normalize_item_time, normalize_item_time_ms};
use vstd::prelude::*;

verus! {

/// The HTTP header that carries the token on every call.
pub const X_AUTH_TOKEN_HEADER: &'static str = "X-Auth-Token";

/// The environment variable that holds the API token.
pub const YUPDATES_API_TOKEN: &'static str = "YUPDATES_API_TOKEN";

/// The environment variable that holds the base URL of the API, for the
/// rare case that another endpoint than the default is wanted.
pub const YUPDATES_API_URL: &'static str = "YUPDATES_API_URL";

/// The base URL of the API where none is configured.
pub const YUPDATES_DEFAULT_API_URL: &'static str = "https://feeds.yupdates.com/api/v0/";

} // verus!
