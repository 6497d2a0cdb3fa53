//! Request classifier and session-token validator for an embedded admin app.
//!
//! The library inspects one HTTP-like request (method, headers, URL) and
//! decides how the host must respond: answer a CORS preflight, serve a
//! bootstrap page, redirect to re-establish the embedding handshake, reject
//! with an error, or accept the request with a verified identity token.

pub mod model;
pub mod outside;
pub mod patterns;
pub mod props;
pub mod respond;
pub mod text;
pub mod token;
pub mod validate;

pub use model::{Config, JwtPayload, JwtResult, ParsedUrl, Request, ResponseObject, Urls};
pub use validate::validate_admin_request;
