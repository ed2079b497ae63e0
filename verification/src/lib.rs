//! # Swish
//!
//! Rust API bindings for the [Swish API](https://developer.getswish.se/merchants/),
//! without the transport.
//!
//! The library says what to send and reads what came back; sending is the
//! caller's. [`client::SwishClient`] gives the request for each of the four
//! calls: create a payment, get a payment, create a refund, get a refund.
//! The outcome of a call is read from the status, the headers and the body
//! of the response, by [`client::CreatedPayment`], [`client::Payment`],
//! [`client::CreatedRefund`] and [`client::Refund`]. Whatever goes wrong
//! comes back as one [`error::SwishClientError`].
//!
//! What the functions return is stated in their contracts and proved, up
//! to the calls into `serde_json` and `hyper`: parsing and writing JSON
//! text, checking a URI, looking up a header and printing a status. Each of
//! those stands in a function of its own whose contract is taken on trust.

pub mod client;
pub mod decode;
pub mod encode;
pub mod error;
pub mod headers;
pub mod json;
pub mod outcome;
pub mod request;
pub mod response;
pub mod status;
