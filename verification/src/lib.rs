//! A Snowflake-style generator of unique 64-bit ids, with the bit layout,
//! the issuing protocol and its ordering laws stated and proved.

pub mod clock;
pub mod common;
pub mod decimal;
pub mod error_handler;
pub mod id_route;
pub mod id_service;
pub mod layout;
pub mod log_setup;
pub mod snowflake;
