//! The client and its configuration.

pub mod config;
pub mod nvisy;
pub mod request;

pub use config::NvisyConfig;
pub use config::NvisyConfigBuilder;
pub use config::Timeout;
pub use config::DEFAULT_BASE_URL;
pub use config::DEFAULT_TIMEOUT_SECS;
pub use nvisy::NvisyClient;
