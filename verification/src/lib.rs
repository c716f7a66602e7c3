//! Environment-health checks for a declarative package-management setup.
//!
//! The library decides, from observed facts about the environment (whether
//! files exist, how external commands exited, what a package list contains),
//! what each diagnostic check reports. Gathering those facts is left to the
//! caller; every decision made here is verified.

pub mod checks;
pub mod config;
pub mod observe;
pub mod packages;
pub mod verdict;

