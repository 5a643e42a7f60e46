//! Client-side support core for a cloud-backed conversation-analysis
//! application: a concurrency-safe cache for short-lived proxy credentials
//! with a proactive staleness margin, and a tolerant extractor that turns
//! free-form model output into a structured evaluation record.

pub mod communication_types;
pub mod credential_cache;
pub mod evaluator;
pub mod finalize;
pub mod json;
pub mod score;
pub mod ws_url;
