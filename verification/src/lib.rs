//! A minimal user-lookup service core: a verified request router, a canned
//! user record rendered as JSON, and a route-metadata table rendered as an
//! interactive API-reference page.
//!
//! All request handling is pure: every response is a function of the request
//! alone, so requests can be served concurrently without interference.
pub mod docs;
pub mod handler;
pub mod hexdigit;
pub mod json_text;
pub mod router;
pub mod user;
pub mod user_id;
