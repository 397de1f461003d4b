//! A client for the Sendflare service: sending email and keeping contacts.
//!
//! The crate holds what a call to the service consists of, and proves it:
//! the request that each operation sends, the layout of each record as a JSON
//! document, and the meaning of an answer. It performs no input or output.
//! A caller builds a request with a method of [`SendflareClient`], sends it
//! over the transport that the client holds, and hands the status and the
//! body of the answer to [`SendflareClient::handle_response`].
//!
//! The text of JSON documents is read and written by `serde_json`, and the
//! transport is a `reqwest::Client`. The module [`trusted`] holds all that is
//! assumed of the two.
pub mod attributes;
pub mod client;
pub mod codec;
pub mod decimal;
pub mod error;
pub mod json;
pub mod models;
pub mod request;
pub mod trusted;

pub use crate::attributes::Attributes;
pub use crate::client::SendflareClient;
pub use crate::codec::JsonCodec;
pub use crate::error::SendflareError;
pub use crate::json::Json;
pub use crate::models::{
    CommonResponse, ContactItem, DeleteContactReq, DeleteContactResp, ListContactReq,
    ListContactResp, PaginateReq, PaginateResp, SaveContactReq, SaveContactResp, SendEmailReq,
    SendEmailResp,
};
pub use crate::request::{HttpRequest, Method};
