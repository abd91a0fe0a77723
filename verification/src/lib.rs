//! Client-side core for a local model-inference HTTP API.
//!
//! The server answers either with a single JSON document or with a
//! newline-delimited stream of partial JSON documents.  This crate holds the
//! verified core of a client for that wire format: the error taxonomy, the
//! JSON codec, the stream adapter that turns raw transport chunks into typed
//! partial responses, the aggregator that folds a stream into one terminal
//! response, and the response envelope that classifies transport status
//! before any decoding.  Network transport itself is left to the caller.

pub mod chat;
pub mod completion;
pub mod create;
pub mod decode;
pub mod errors;
pub mod generate;
pub mod json;
pub mod message;
pub mod options;
pub mod parser;
pub mod response;
pub mod ser;
pub mod stream;
pub mod text;
