//! Verified core of the fuel price service: migration bookkeeping, digest
//! rendering, client authentication decisions, user settings, error
//! responses, route bookkeeping, static file decisions and region tables.

pub mod auth;
pub mod certs;
pub mod config;
pub mod digest;
pub mod errors;
pub mod files;
pub mod dn;
pub mod hex;
pub mod migrations;
pub mod regions;
pub mod route;
pub mod station;
pub mod user;
