//! Backend process management.

pub mod config;
pub mod env_file;
pub mod environment;
pub mod error;
pub mod health;
pub mod monitor;
pub mod shutdown;
pub mod spawn;
pub mod state;

pub use config::BackendConfig;
pub use error::BackendError;
pub use state::BackendState;
