//! Credential lifecycle management for a song service backed by an external
//! music catalog.
//!
//! The heart of the crate is an OAuth credential cache: it holds at most one
//! bearer credential, tracks its expiry with a safety margin, decides when a
//! refresh is due, and installs the outcome of each acquisition so that every
//! concurrent caller of one refresh round observes the same result.  Around it
//! stand the token-endpoint request builders and response parsers, the catalog
//! search-response parser, and the plain data carried by the surrounding
//! service.
//!
//! Network transport, the HTTP routing layer and the relational persistence
//! are external collaborators: they hand this crate plain values (status
//! codes, response bodies, timestamps) and receive plain values back.

pub mod acquire;
pub mod args;
pub mod catalog;
pub mod credential;
pub mod json;
pub mod ql;
pub mod song;
pub mod store;
pub mod text;
