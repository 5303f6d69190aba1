//! Provider-independent embedding types.

use vstd::prelude::*;

verus! {

/// A document together with its embedding vector `vec`.
#[derive(Clone, Debug)]
pub struct Embedding<V> {
    pub document: String,
    pub vec: V,
}

/// Why embedding documents failed.
#[derive(Debug)]
pub enum EmbeddingError {
    /// The HTTP exchange failed.
    HttpError(reqwest::Error),
    /// JSON could not be read or written.
    JsonError(serde_json::Error),
    /// The provider's answer did not have the expected shape.
    ResponseError(String),
    /// The provider reported an error.
    ProviderError(String),
}

} // verus!
