//! The core of a client for streamed chat completions.
//!
//! - [`json`]: JSON documents as plain data, and their parser.
//! - [`text`]: the string operations that are taken from elsewhere.
//! - [`assembler`]: folding the fragments of a streamed response into one
//!   document, and the text that each fragment shows.
//! - [`keys`]: merging keeps the keys of every object distinct.
//! - [`network_client`]: what each event of a stream leads to, and how a
//!   refused request is reported.
//! - [`openai_network_types`]: the messages of a request and their order.
//! - [`openai_response_types`]: the parts of a response in the newer shape.
//! - [`types`]: inputs, log entries and settings.
//! - [`runner`]: what a conversation turn writes to its log, and how tool
//!   calls lead to further requests.
//! - [`cacher`]: the files of a conversation log and the reading of its
//!   lines.
//! - [`tools_definition`]: the names of the tools on offer.

pub mod json;
pub mod text;
pub mod assembler;
pub mod keys;
pub mod network_client;
pub mod openai_network_types;
pub mod openai_response_types;
pub mod types;
pub mod runner;
pub mod cacher;
pub mod tools_definition;
