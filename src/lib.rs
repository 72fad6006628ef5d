//! A factory that provisions execution units, installs a chosen code module
//! into each, and proxies mint requests to the units it knows how to speak to.
//!
//! The host runtime's calls (creating a unit, installing code, calling into a
//! unit) are made by the caller of this library; the library decides what to
//! ask for and what the answers mean.
#![allow(non_camel_case_types)]

pub mod collection;
pub mod outside;
pub mod provision;
pub mod proxy;
pub mod registry;
pub mod types;

pub use types::{
    Account, Args, CreateArg, ICRC7Err, ICRC7Response, InitArg, MintArgs, MintResponse, Principal,
};
