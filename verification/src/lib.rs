//! Identity aggregation for users of code-hosting platforms.
//!
//! A locally stored user record is combined with the path of its cached avatar
//! and with the profile that the user's platform reports into one [`user::User`].
//! Storage replies and remote profiles are handed in by the caller, and what
//! is made of them is plain computation on plain values. Two things are read
//! from the machine: the clock, where a user registers now, and the user's
//! base directories, where the `get_*_dir` functions are asked.

pub mod error;
pub mod platforms;
pub mod store;
pub mod text;
pub mod user;
pub mod utils;
