//! The request-side vocabulary the broker client uses: the shapes of the
//! answers to account listings and the filters a trade listing accepts.
//! The client that sends the requests lives with the caller.

pub mod account_model;
pub mod trades_request;
