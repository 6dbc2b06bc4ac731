//! GitHub: the shapes its API answers in, and the profile kept of a user.

pub mod api_models;
pub mod models;
