//! Verified core of the retsu priority queue service: domain validation,
//! use-case decisions, cache and worker policies, and the decoding of
//! persisted rows.

pub mod ids;
pub mod text;
pub mod message;
pub mod queue;
pub mod summaries;
pub mod application;
pub mod api;
pub mod catalog;
pub mod memory_cache;
pub mod cache;
pub mod shared_cache;
pub mod rows;
pub mod metrics;
pub mod workers;
pub mod dto;
