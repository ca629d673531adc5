//! Networking core for the PlayStation Portable, free of I/O.
//!
//! The crate holds the decisions of a socket library: which call the platform
//! is asked to make, and what each answer of the platform means for the socket.
//! It never calls the platform itself. A driver performs each call that a
//! `*_call` function describes and hands the platform's answer to the function
//! that completes the operation.
#![allow(clippy::module_name_repetitions)]

pub mod constants;
pub mod decimal;
pub mod dns;
pub mod http;
pub mod netc;
pub mod socket;
pub mod text;
pub mod traits;
pub mod types;
pub mod utils;
