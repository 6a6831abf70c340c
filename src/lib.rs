//! A loopback reverse proxy between an embedded web view and a local HTTP
//! service, which holds long streamed responses open on the view's behalf.
//!
//! The modules hold the proxy's decisions, each stated and proved:
//! - `classify`: the category of a request path, which decides how much is
//!   logged;
//! - `ids`: the request counter;
//! - `context`: what is known of a request from its arrival;
//! - `forward`: the single upstream request built for an inbound one;
//! - `response`: status, headers and body mode of the relayed response, and
//!   the Bad Gateway answer;
//! - `inject`: the relay script and its insertion into HTML;
//! - `stream`: the chunk-by-chunk relay of every other body;
//! - `telemetry`: log lines;
//! - `config`: budgets and settings;
//! - `text`: byte-string searching and text building.
pub mod classify;
pub mod config;
pub mod context;
pub mod forward;
pub mod ids;
pub mod inject;
pub mod response;
pub mod stream;
pub mod telemetry;
pub mod text;
