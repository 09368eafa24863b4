//! Verified core of a client library for Langfuse, the LLM observability
//! service: configuration, prompt templates and caching, media references,
//! score batching, streaming and tool-call accumulation.

pub mod chars;
pub mod error;
pub mod template;
pub mod store;
pub mod types;
pub mod json;
pub mod prompts;
pub mod cache;
pub mod codec;
pub mod media;
pub mod config;
pub mod queue;
pub mod tool_calls;
pub mod observe;
pub mod experiment;
pub mod prompt_fetch;
pub mod propagation;
pub mod stream;
pub mod api;
pub mod exporter;
pub mod http;
