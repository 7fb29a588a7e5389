//! Retrieval-augmented-generation support: relevance thresholds on similarity
//! scores, merging of retrieval passes, ephemeral index bookkeeping and a
//! recovery parser for truncated JSON objects of label summaries.
pub mod collection;
pub mod error;
pub mod recovery;
pub mod relevance;
pub mod retrieval;
pub mod score;

pub use error::{MalformedReason, RagError};
pub use score::{exceeds_three_quarters, Score, THRESHOLD_BITS};
pub use recovery::{json_document, parse_issue_summary_advanced, process_json_object};
pub use retrieval::{
    accept_embedding, join_snippets, merge_passes, pass_snippets, rag_context, select_hits, PointRef, SearchHit,
};
pub use relevance::{embedding_pair_ready, relevance_verdict};
pub use collection::{next_point_id, reset_outcome, VECTOR_SIZE};
