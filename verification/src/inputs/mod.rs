//! The front-ends of the registry, decoupled from the [`crate::daemon`] core.
//!
//! - [`http`]: the HTTP interface (registration, listing, proxy). This *is* the
//!   daemon's only runtime input.
//! - [`cli`]: the command line. With no subcommand it runs the daemon; with
//!   `register`/`unregister` it acts as a client that starts the daemon if
//!   needed and sends the request over HTTP.
//! - [`wire`]: the requests and responses that the two exchange.

pub mod cli;
pub mod http;
pub mod wire;
