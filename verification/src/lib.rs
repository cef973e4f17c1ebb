//! Typed routes, post-authentication continuations and browser-session
//! freshness for the interactive side of an OAuth 2.0 / OpenID Connect
//! provider.
//!
//! - [`endpoints`] lists the routes of the server and the action that an
//!   interactive step carries along, with its encoding as a query string.
//! - [`traits`] and [`url_builder`] turn a route into a path, a URL or a
//!   redirect.
//! - [`browser_sessions`] and [`repository`] hold the session model, the
//!   freshness rule and the protocol for looking up the most recent
//!   authentication.
//! - [`telemetry`] decides which exporters a configuration asks for.
//! - [`decimal`], [`percent`], [`query`] and [`ascii`] are the text
//!   primitives underneath.
//! - [`trusted`] holds what is assumed of code that is not verified here.

pub mod ascii;
pub mod browser_sessions;
pub mod decimal;
pub mod endpoints;
pub mod percent;
pub mod query;
pub mod repository;
pub mod telemetry;
pub mod traits;
pub mod trusted;
pub mod url_builder;

pub use crate::endpoints::PostAuthAction;
pub use crate::traits::{Route, SimpleRoute};
pub use crate::url_builder::UrlBuilder;
