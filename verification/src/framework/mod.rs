//! Application configuration, route registry, HTML shell and streaming settings.
pub mod app;
pub mod error;
pub mod routes;
pub mod server;

pub use self::app::{TurboApp, TurboConfig};
pub use self::error::TurboError;
pub use self::routes::{route_meta_name, route_params, RouteEntry, RouteMeta, RouteRegistry};
pub use self::server::{generate_shell_html, ServerFnRegistry, StreamConfig};
