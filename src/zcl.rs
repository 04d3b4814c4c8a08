//! The cluster protocol carried inside incoming application messages.
pub mod clusters;
pub mod frame;
