//! Typed client core for the Nvisy document and workspace API.
//!
//! The library turns each operation of the API into a request that is
//! described by plain values, and reads the answer that a transport gives
//! back. What it decides, it states as contracts that Verus proves: which
//! settings are valid, how a credential is masked, which address, headers
//! and body a request has, and which answers are failures.

pub mod client;
pub mod error;
pub mod model;
pub mod prelude;
pub mod service;
pub mod text;
pub mod trusted;

pub use client::config::NvisyConfig;
pub use client::config::NvisyConfigBuilder;
pub use client::config::Timeout;
pub use client::config::DEFAULT_BASE_URL;
pub use client::config::DEFAULT_TIMEOUT_SECS;
pub use client::nvisy::NvisyClient;
pub use client::request::first_uploaded;
pub use client::request::Body;
pub use client::request::FilePart;
pub use client::request::Method;
pub use client::request::NoRecord;
pub use client::request::Request;
pub use client::request::Response;
pub use error::Error;
pub use error::HttpError;
pub use error::NvisyConfigBuilderError;
pub use error::Result;
