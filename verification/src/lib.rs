//! A Honeycomb.io client: configuration, events, batching, retry policy and
//! transmission decisions, each stated with a contract and proved.

mod text;
pub mod error;
pub mod time;
pub mod config;
pub mod calendar;
pub mod fields;
pub mod json;
pub mod event;
pub mod batch;
pub mod retry;
pub mod transmit;
pub mod client;
pub mod client_types;
pub mod transmission;

pub use batch::{BatchBuffer, BatchStats, BatchStatsSnapshot};
pub use client::Client;
pub use config::{Config, Options, TransmissionOptions};
pub use error::{Error, Result};
pub use event::{Event, FieldHolder};
pub use fields::Fields;
pub use retry::{Response, RetryConfig};
pub use time::Duration;
pub use transmit::{Transmission, TransmitPhase, TransmitStep};
