//! Polling driver for a remote TLS-configuration assessment service.
//!
//! The library holds the decisions of the driver and leaves fetching,
//! sleeping and printing to its caller:
//!
//! - [`params`] builds the address that asks the service for an analysis;
//! - [`decode`] reads a status report from the body of a response;
//! - [`status`] reads a status report into the state of a polling session;
//! - [`grade`] maps the grade of an endpoint to a process exit code;
//! - [`poll`] decides after each report whether polling goes on.
//!
//! Two outside crates do work that is not proved here: `serde_json` reads the
//! JSON text ([`json`]), and `addr` judges domain names ([`params`]).

pub mod decode;
pub mod error;
pub mod grade;
pub mod json;
pub mod params;
pub mod poll;
pub mod response;
pub mod state;
pub mod status;
pub mod text;
