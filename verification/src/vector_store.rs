//! Errors of vector store queries.

use vstd::prelude::*;
use crate::embeddings::EmbeddingError;

verus! {

/// Why a vector store query failed.
#[derive(Debug)]
pub enum VectorStoreError {
    /// Embedding the query text failed.
    EmbeddingError(EmbeddingError),
    /// A stored record could not be read as the requested type.
    JsonError(serde_json::Error),
    /// The datastore reported an error, held as its message.
    DatastoreError(String),
}

} // verus!
