use vstd::prelude::*;

verus! {

/// Why the recovery parser could not produce a mapping.
#[derive(Debug, Clone, Copy, PartialEq, Eq, Structural)]
pub enum MalformedReason {
    /// The text holds no `{` at all.
    MissingOpeningBrace,
    /// No comma followed by a double quote stands after the first `{`.
    NoJsonStructure,
    /// The text parsed, but not as a JSON object.
    NotAnObject,
    /// The repaired candidate still did not parse.
    RepairFailed,
}

/// Failures of the retrieval layer.
#[derive(Debug, Clone, Copy, PartialEq, Eq, Structural)]
pub enum RagError {
    /// The embedding backend failed or returned no vector.
    Embedding,
    /// A collection operation of the vector index failed.
    Index,
    /// Model output could not be recovered as a mapping.
    MalformedInput(MalformedReason),
}

} // verus!
