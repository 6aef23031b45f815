//! Criteria-based selection of a video rendition ("stream") and the
//! orchestration around it: resolving a user-supplied identifier, filtering
//! the renditions a video offers, picking the single best match under a
//! lexicographic priority order, and computing the download destination.
//!
//! Network fetching, descrambling and the byte transfer itself are outside
//! collaborators; the orchestrator models them as events and actions, and the
//! surrounding binary performs them.

pub mod errors;
pub mod filter;
pub mod identifier;
pub mod orchestrator;
pub mod path;
pub mod select;
pub mod stream;
