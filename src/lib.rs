//! A typed client for the OpenAI web API: client configuration, endpoint
//! URLs and the decoding of response bodies, each with a checked contract.

pub mod headers;
pub mod cache;
pub mod json;
pub mod openai;
pub mod structure;
pub mod urls;
