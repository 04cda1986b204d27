//! Badge resolution for a crate-version badge service.
//!
//! Given a request, the library decides whether it asks for the index page or
//! for the badge of a package, which registry URL has to be fetched, how the
//! registry's reply is to be read, and which response goes back: a redirect to
//! the badge renderer, with headers that keep every cache from holding on to
//! it, or a client error. Sockets, the outbound call and the decoding of the
//! registry's JSON are left to the program around the library.
//!
//! A request passes through the modules in this order:
//!
//! - [`router`] reads method and target, with [`style`] reading the query;
//! - [`registry`] names the request to send and classifies what came back;
//! - [`response`] builds the answer, with [`color`] and [`escape`] shaping
//!   the badge's address.
//!
//! [`port`] reads the one setting that the service has.

pub mod color;
pub mod escape;
pub mod port;
pub mod query;
pub mod registry;
pub mod response;
pub mod router;
pub mod style;
pub mod text;
