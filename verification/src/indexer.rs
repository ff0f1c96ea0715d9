//! The indexing pipeline: rows are flattened into documents, the documents
//! are chunked, each chunk is embedded by a backend instance owned by one of
//! the configured workers, and every valid reply is turned into records and
//! appended to the vector store. A failed chunk or a failed append is counted
//! and skipped; only invalid configuration or a backend that cannot be
//! constructed aborts the run before any processing.

use vstd::prelude::*;

use crate::batch::{make_records, validate_batch, VectorRecord};
use crate::chunker::{chunk_documents, lemma_chunks_correct, lemma_flatten_take_len, spec_chunks};
use crate::flatten::{spec_total_rows, transform_batches, RecordBatch, Schema};
use crate::{BackendError, StoreError};

verus! {

/// The embedding capability: one call turns a chunk's texts into one vector
/// per text. Implementations are constructed one per worker and never shared;
/// nothing is assumed of a reply, the pipeline checks each one.
pub trait EmbeddingBackend<E>: Sized {
    /// Computes one embedding vector per input text, in input order.
    fn embed_batch(&mut self, texts: &Vec<String>) -> Result<Vec<Vec<E>>, BackendError>;
}

/// Constructs embedding backends, one independent instance per worker. A
/// construction failure is fatal for the whole run.
pub trait BackendFactory<E, B: EmbeddingBackend<E>> {
    /// Constructs one backend instance.
    fn new_backend(&self) -> Result<B, BackendError>;
}

/// The vector store capability: appends one batch of records atomically.
/// A failed append is counted by the pipeline and the run continues.
pub trait VectorSink<E> {
    /// Appends the records as one atomic batch write.
    fn append(&mut self, records: Vec<VectorRecord<E>>) -> Result<(), StoreError>;
}

/// Why a run could not start.
#[derive(Debug)]
pub enum IndexError {
    /// The configured worker count was zero.
    ZeroWorkers,
    /// The configured embedding chunk size was zero.
    ZeroChunkSize,
    /// The configured vector dimension was zero.
    ZeroVectorDim,
    /// An embedding backend could not be constructed; reported before any
    /// processing begins.
    BackendInit(BackendError),
}

/// The success/failure summary of one completed run.
#[derive(Debug)]
pub struct RunSummary {
    /// Documents produced by the flattener: one per input row.
    pub documents: usize,
    /// Chunks the documents were grouped into.
    pub chunks_total: usize,
    /// Chunks whose embedding call returned a valid reply.
    pub chunks_embedded: usize,
    /// Chunks dropped because the embedding call failed or replied malformed.
    pub chunks_failed: usize,
    /// Documents carried by the dropped chunks.
    pub documents_in_failed_chunks: usize,
    /// Records persisted by the store.
    pub records_written: usize,
    /// Batches the store rejected.
    pub writes_failed: usize,
    /// Documents carried by the rejected batches.
    pub documents_in_failed_writes: usize,
}

/// One indexing run's input: the row batches and their schema, fixed for the
/// lifetime of the run and never mutated by it.
pub struct Indexer {
    pub batches: Vec<RecordBatch>,
    pub schema: Schema,
}

impl Indexer {
    /// Every batch matches the schema.
    pub open spec fn wf(self) -> bool {
        forall|i: int|
            0 <= i < self.batches.len() ==> (#[trigger] self.batches[i]).wf(self.schema)
    }

    /// Wraps the input of one run.
    pub fn new(batches: Vec<RecordBatch>, schema: Schema) -> (r: Self)
        ensures
            r.batches == batches,
            r.schema == schema,
    {
        Indexer { batches, schema }
    }

    /// Runs the pipeline to completion: flatten, chunk, embed chunk by chunk
    /// (chunk `i` on worker `i % num_workers`'s own backend), validate each
    /// reply, build records and append them to the sink. Configuration is
    /// validated and the backends are constructed before any processing, so a
    /// run either never starts or runs to natural completion. One append is
    /// issued per embedding batch; there is no separate write-buffering
    /// window. The summary accounts for every document: each is persisted,
    /// lost with its failed chunk, or lost with its rejected batch.
    pub fn run<E: Copy, B: EmbeddingBackend<E>, F: BackendFactory<E, B>, S: VectorSink<E>>(
        &self,
        num_workers: usize,
        embedding_chunk_size: usize,
        vector_dim: usize,
        factory: &F,
        sink: &mut S,
    ) -> (r: Result<RunSummary, IndexError>)
        requires
            self.wf(),
        ensures
            (r matches Err(IndexError::ZeroWorkers)) <==> num_workers == 0,
            (r matches Err(IndexError::ZeroChunkSize)) <==> (num_workers > 0
                && embedding_chunk_size == 0),
            (r matches Err(IndexError::ZeroVectorDim)) <==> (num_workers > 0
                && embedding_chunk_size > 0 && vector_dim == 0),
            r matches Err(e) ==> (e matches IndexError::BackendInit(_) ==> num_workers > 0
                && embedding_chunk_size > 0 && vector_dim > 0),
            r matches Ok(s) ==> {
                &&& num_workers > 0 && embedding_chunk_size > 0 && vector_dim > 0
                &&& s.documents == spec_total_rows(self.batches@)
                &&& s.chunks_total == (s.documents + embedding_chunk_size - 1) as int
                    / embedding_chunk_size as int
                &&& s.chunks_embedded + s.chunks_failed == s.chunks_total
                &&& s.writes_failed <= s.chunks_embedded
                &&& s.records_written + s.documents_in_failed_chunks
                    + s.documents_in_failed_writes == s.documents
                &&& s.chunks_failed == 0 ==> s.documents_in_failed_chunks == 0
                &&& s.writes_failed == 0 ==> s.documents_in_failed_writes == 0
                &&& s.writes_failed == 0 ==> s.records_written
                    + s.documents_in_failed_chunks == s.documents
                &&& (s.chunks_failed == 0 && s.writes_failed == 0) ==> s.records_written
                    == s.documents
            },
    {
        if num_workers == 0 {
            return Err(IndexError::ZeroWorkers);
        }
        if embedding_chunk_size == 0 {
            return Err(IndexError::ZeroChunkSize);
        }
        if vector_dim == 0 {
            return Err(IndexError::ZeroVectorDim);
        }
        // one private backend per worker, constructed before any processing
        let mut backends: Vec<B> = Vec::new();
        let mut w: usize = 0;
        while w < num_workers
            invariant
                num_workers > 0,
                embedding_chunk_size > 0,
                vector_dim > 0,
                w <= num_workers,
                backends.len() == w,
            decreases num_workers - w,
        {
            match factory.new_backend() {
                Ok(b) => backends.push(b),
                Err(e) => {
                    return Err(IndexError::BackendInit(e));
                },
            }
            w = w + 1;
        }

        let docs = transform_batches(&self.batches, &self.schema);
        let documents = docs.len();
        let chunks = chunk_documents(&docs, embedding_chunk_size);
        let ghost cs = spec_chunks(docs@, embedding_chunk_size as nat);
        proof {
            lemma_chunks_correct(docs@, embedding_chunk_size as nat);
            assert(chunks@.map_values(|c: Vec<String>| c@).len() == cs.len());
            assert(cs.take(0 as int) =~= Seq::<Seq<String>>::empty());
            assert(cs.take(0 as int).flatten() =~= Seq::<String>::empty());
        }

        let mut chunks_embedded: usize = 0;
        let mut chunks_failed: usize = 0;
        let mut documents_in_failed_chunks: usize = 0;
        let mut records_written: usize = 0;
        let mut writes_failed: usize = 0;
        let mut documents_in_failed_writes: usize = 0;
        let mut ci: usize = 0;
        while ci < chunks.len()
            invariant
                num_workers > 0,
                embedding_chunk_size > 0,
                backends.len() == num_workers,
                cs == spec_chunks(docs@, embedding_chunk_size as nat),
                chunks@.map_values(|c: Vec<String>| c@) == cs,
                cs.flatten() == docs@,
                documents == docs@.len(),
                ci <= chunks.len(),
                chunks.len() == cs.len(),
                chunks_embedded + chunks_failed == ci,
                writes_failed <= chunks_embedded,
                records_written + documents_in_failed_chunks + documents_in_failed_writes
                    == cs.take(ci as int).flatten().len(),
                chunks_failed == 0 ==> documents_in_failed_chunks == 0,
                writes_failed == 0 ==> documents_in_failed_writes == 0,
            decreases chunks.len() - ci,
        {
            let chunk = &chunks[ci];
            proof {
                assert(chunks@.map_values(|c: Vec<String>| c@)[ci as int] == chunks@[ci as int]@);
                assert(cs.take(ci + 1 as int) =~= cs.take(ci as int).push(cs[ci as int]));
                cs.take(ci as int).lemma_flatten_push(cs[ci as int]);
                lemma_flatten_take_len(cs, ci + 1 as int);
            }
            let n = chunk.len();
            let worker = ci % num_workers;
            let reply = backends[worker].embed_batch(chunk);
            match reply {
                Err(_) => {
                    // the chunk is dropped; the worker moves on
                    chunks_failed = chunks_failed + 1;
                    documents_in_failed_chunks = documents_in_failed_chunks + n;
                },
                Ok(embeddings) => {
                    match validate_batch(chunk, embeddings, vector_dim) {
                        None => {
                            // malformed reply: treated like a failed chunk
                            chunks_failed = chunks_failed + 1;
                            documents_in_failed_chunks = documents_in_failed_chunks + n;
                        },
                        Some(batch) => {
                            chunks_embedded = chunks_embedded + 1;
                            let records = make_records(&batch);
                            match sink.append(records) {
                                Ok(_) => {
                                    records_written = records_written + n;
                                },
                                Err(_) => {
                                    // the append is skipped; the run continues
                                    writes_failed = writes_failed + 1;
                                    documents_in_failed_writes = documents_in_failed_writes + n;
                                },
                            }
                        },
                    }
                },
            }
            ci = ci + 1;
        }
        proof {
            assert(cs.take(chunks.len() as int) =~= cs);
        }
        Ok(
            RunSummary {
                documents,
                chunks_total: chunks.len(),
                chunks_embedded,
                chunks_failed,
                documents_in_failed_chunks,
                records_written,
                writes_failed,
                documents_in_failed_writes,
            },
        )
    }
}

} // verus!
