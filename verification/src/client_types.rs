//! The client options under the module name used by code written for the
//! libhoney client.

pub use crate::config::Options;
