//! Session and key-share lifecycle of a statechain entity.
//!
//! A statechain entity co-signs for Bitcoin outputs that it holds together
//! with their owners. This crate is the part of the entity that opens a
//! deposit: it checks the client's request, draws a session identifier and an
//! authentication challenge, records the session together with its key-share
//! linkage as one unit, and answers queries for the operating policy (fees and
//! locktimes) that every later protocol message has to respect.

pub mod challenge;
pub mod endpoints;
pub mod error;
pub mod identifier;
pub mod server;
pub mod shared;
pub mod storage;

