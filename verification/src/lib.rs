//! A line-delimited JSON-RPC 2.0 service that advertises two image tools
//! and converts DNG files to WebP through external programs.
//!
//! The library holds every decision of the service and performs none of
//! its effects.  It does not read or write the streams and it does not run
//! the converters: a host does, and tells the library what it saw.
//!
//! * [`transport`] turns a line of input into a message and a message into
//!   a line of output.
//! * [`server`] answers a message: it checks the envelope, serves the
//!   method, and maps failures to error codes.  [`McpImageServer::run`]
//!   takes the last event and returns the next action of the host.
//! * [`handlers`] holds the two tools, `convert_dng_to_webp` and
//!   `check_converters`.
//! * [`converters`] holds the converters and the registry that tries them
//!   in descending order of priority, going on to the next when one fails.
//! * [`json`] and [`text`] hold the documents and the strings that the rest
//!   is stated over.
//!
//! What depends on the host (which programs are installed, whether a file
//! exists) is gathered in a [`converters::Survey`].  Every function that
//! decides takes the survey as an argument, so that it is proved for every
//! host; the few functions that look at the host say so.

pub mod converters;
pub mod error;
pub mod handlers;
pub mod json;
pub mod server;
pub mod text;
pub mod transport;

pub use error::McpImageError;
pub use server::McpImageServer;
