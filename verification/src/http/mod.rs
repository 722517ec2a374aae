//! HTTP client: request building, responses and errors.
pub mod client;
pub mod error;
pub mod headers;
pub mod request;
pub mod response;

pub use self::client::{ClientRequestBuilder, FetchClient};
pub use self::error::FetchError;
pub use self::request::{Method, RequestBuilder};
pub use self::response::Response;
