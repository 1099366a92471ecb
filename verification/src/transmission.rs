//! The transmission options under the name used by code written for the
//! libhoney client.

pub use crate::config::TransmissionOptions as Options;
