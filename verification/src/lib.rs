//! `ftc_http`: transfers Java sources between a computer and an FTC robot
//! controller's OnBotJava service, and builds them there.
//!
//! The modules hold the decisions of a session with their contracts; the
//! program around them sends the requests and touches the disk.
pub mod address;
pub mod cli;
pub mod config;
pub mod controller;
pub mod data;
pub mod error;
pub mod plaintext;
pub mod text;
pub mod time;
pub mod util;
