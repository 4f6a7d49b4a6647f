//! Host metrics as exact integers, and a small keyed store.

pub mod clock;
pub mod files;
pub mod host;
pub mod metrics;
pub mod percent;
pub mod storage;
pub mod store;
