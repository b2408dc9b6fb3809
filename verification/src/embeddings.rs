//! The provider-independent side of embeddings.

use vstd::prelude::*;

verus! {

/// A document together with its embedding vector. `V` is the vector type,
/// which this crate moves around and never looks into.
#[derive(Debug)]
pub struct Embedding<V> {
    pub document: String,
    pub vec: V,
}

/// Why an embedding call failed.
#[derive(Debug)]
pub enum EmbeddingError {
    /// The text names no known embedding model; holds the text.
    BadModel(String),
    /// The request did not reach the provider, or the provider answered with
    /// a failing HTTP status. Holds the transport's own description.
    HttpError(String),
    /// The provider returned another number of embeddings than documents
    /// were sent; holds a sentence with both counts.
    DocumentError(String),
    /// The body fitted neither the expected payload nor the provider's error
    /// object.
    ResponseError(String),
    /// The provider reported an error; holds its message unchanged.
    ProviderError(String),
}

} // verus!
