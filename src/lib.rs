pub mod client;
pub mod error;
pub mod json;
pub mod search;

pub use client::{
    failure_outcome, is_success, success_outcome, PostRequest, Tavily, TavilyBuilder, API_KEY_ENV,
    BASE_URL, SEARCH_PATH,
};
pub use error::{ConfigError, HttpError, HttpErrorPayload, TavilyError};
pub use json::JsonObject;
pub use search::{SearchDepth, TavilySearchParams, Topic};
