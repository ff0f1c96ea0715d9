//! Verified core of a row-to-vector indexing pipeline.
//!
//! Tabular rows are flattened into text documents, the documents are grouped
//! into fixed-size chunks, each chunk is embedded by a caller-supplied
//! backend, and the resulting (text, vector) records are appended to a
//! caller-supplied vector store. The flattening, chunking, batch validation
//! and record construction are verified; the embedding backend and the store
//! are capabilities that the caller implements.

pub mod batch;
pub mod chunker;
pub mod flatten;
pub mod indexer;
pub mod store;
pub mod text;

use vstd::prelude::*;

verus! {

/// Error raised when an embedding backend call or its construction fails.
#[derive(Debug)]
pub struct BackendError {
    pub message: String,
}

/// Error raised when the vector store rejects an append.
#[derive(Debug)]
pub struct StoreError {
    pub message: String,
}

} // verus!
