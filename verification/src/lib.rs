//! Periodic air-quality polling: validated configuration, endpoint URL
//! construction, response unpacking, sink-point mapping, and the
//! poll-retry-persist control loop, all with verified contracts.

mod clock;
pub mod config;
pub mod cycle;
pub mod defaults;
pub mod reading;
pub mod sink;
pub mod strutil;
pub mod urls;

pub use defaults::default_country;
pub use defaults::default_retries;
pub use defaults::default_timing;
