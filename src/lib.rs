//! Push notification dispatch and acknowledgment polling.
//!
//! The library builds the form fields of a notification, interprets the
//! service's answers and decides each step of the acknowledgment poll.
//! Network traffic, sleeping and JSON decoding are left to the caller.
pub mod decimal;
pub mod form;
pub mod poll;
pub mod request;
pub mod service;
