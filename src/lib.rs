//! Save links for later and republish them as an Atom feed.
//!
//! The library holds the decision logic of the service: metadata extraction
//! with its fallback rules, video-platform detection, the entry store with its
//! ordering and eviction rules, the retention policy and the feed model.
//!
//! Choices made where deployments may differ: an entry keeps a rich body
//! (article markup before descriptions); title and body missing from a
//! request are both looked up on the page; the source type is the caller's,
//! or told from the link when the caller leaves it out.
pub mod auth;
pub mod cleanup;
pub mod config;
pub mod dto;
pub mod errors;
pub mod feed;
pub mod ingest;
pub mod metadata;
pub mod models;
pub mod seqs;
pub mod text;
