//! Sans-I/O core of a client for the Instapaper bookmarking API.
//!
//! The library decides what to send and judges what came back; it never
//! touches the network and reads no JSON. Every action of the service comes
//! twice. [`authenticate_request`] and the `*_request` methods of [`Client`]
//! build the signed request and leave the rest to the caller. [`authenticate`]
//! and the methods of [`Client`] named after the actions carry out the whole
//! call: they send the request once through a function of the caller, judge
//! the status of the response before anything reads its body, and hand the
//! body of a successful response to a decoder of the caller.
//!
//! Every failure is an [`ApiError`]; nothing is retried.
pub mod call;
pub mod client;
pub mod decimal;
pub mod decode;
pub mod error;
pub mod exchange;
pub mod model;
pub mod params;
pub mod query;
pub mod request;
pub mod status;
pub mod transport;

pub use call::{call_document, call_single};
pub use client::Client;
pub use decode::{decode, decode_single, first_of, value_of};
pub use error::ApiError;
pub use exchange::{authenticate, authenticate_request, authenticated_client, client_from_pairs};
pub use model::{Bookmark, Highlight, List, User};
pub use params::Params;
pub use request::{signed_request, Request, SERVICE_URL};
pub use status::is_success;
pub use transport::{received, round_trip, Response};
