//! Helpers around the aggregation: locations on disk, header values, sizes
//! and notifications.

pub mod data;
pub mod dirs;
pub mod toast;
