//! Verified core of a batch account generator that drives a browser through a
//! multi-step signup form.
//!
//! The library holds the logic worth specifying: synthesis of per-attempt
//! identifiers (email alias, phone number, password), resolution of operator
//! settings with their defaults, the linear signup step machine, the batch
//! policy that isolates per-attempt failures, the driver-process lifecycle,
//! and the rendering of results into the dated output file. The thin shell
//! that performs browser and process I/O lives outside and consumes these
//! functions through their contracts.

pub mod account;
pub mod batch;
pub mod digits;
pub mod identity;
pub mod orchestrator;
pub mod output;
pub mod session;
pub mod settings;
