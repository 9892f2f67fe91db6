//! A caching proxy core for a document-database wire protocol.
//!
//! The crate holds the parts of the proxy that decide: the wire codec
//! ([`wire`]), the document model ([`document`]), the cache table
//! ([`storage`]), and the command router with its cursor state machine
//! ([`handler`]). Sockets, TLS and threads belong to the program around it.
#![allow(non_camel_case_types)]

pub mod commands;
pub mod document;
pub mod handler;
pub mod nesting;
pub mod rd;
pub mod storage;
pub mod text;
pub mod wire;
