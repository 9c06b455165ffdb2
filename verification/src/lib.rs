//! The core of a desktop shell that runs a locally installed gateway as a
//! child process: finding the executable, issuing a token for each session,
//! starting and stopping the process, and reporting whether it runs.
//!
//! Apart from reading the clock for a token, nothing here touches the
//! system. Operations that need it are split into steps: each step decides
//! what is to be done next, the caller does it, and the following step
//! takes the outcome.

pub mod config;
pub mod error;
pub mod gateway;
pub mod launch;
pub mod locator;
pub mod session;
pub mod supervisor;
pub mod text;
pub mod token;
