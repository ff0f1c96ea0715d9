//! Embedding batches and the persisted records built from them. A batch pairs
//! a chunk's texts with the vectors the backend computed for them; a record
//! is the unit the vector store persists.

use vstd::prelude::*;

verus! {

/// Ordered texts paired with their computed vectors: the i-th embedding is
/// the vector of the i-th text. `E` is the vector's scalar type; the core
/// never reads inside a vector, only its width.
pub struct EmbeddingBatch<E> {
    pub texts: Vec<String>,
    pub embeddings: Vec<Vec<E>>,
}

impl<E> EmbeddingBatch<E> {
    /// Texts and embeddings correspond one to one, and every vector has
    /// width `dim`.
    pub open spec fn wf(self, dim: nat) -> bool {
        &&& self.embeddings.len() == self.texts.len()
        &&& forall|i: int|
            0 <= i < self.embeddings.len() ==> (#[trigger] self.embeddings[i]).len() == dim
    }
}

/// The persisted unit: a content key, the display text, and the embedding
/// vector. The text itself serves as the key when no distinct identifier is
/// supplied.
pub struct VectorRecord<E> {
    pub key: String,
    pub text: String,
    pub embedding: Vec<E>,
}

/// A backend reply is valid for a chunk exactly when it holds one vector per
/// text and every vector has width `dim`.
pub open spec fn spec_valid_reply<E>(
    texts: Seq<String>,
    embeddings: Seq<Vec<E>>,
    dim: nat,
) -> bool {
    &&& embeddings.len() == texts.len()
    &&& forall|i: int| 0 <= i < embeddings.len() ==> (#[trigger] embeddings[i]).len() == dim
}

fn clone_texts(texts: &Vec<String>) -> (r: Vec<String>)
    ensures
        r@ == texts@,
{
    let mut r: Vec<String> = Vec::new();
    let mut i: usize = 0;
    while i < texts.len()
        invariant
            i <= texts.len(),
            r@ =~= texts@.take(i as int),
        decreases texts.len() - i,
    {
        r.push(texts[i].clone());
        proof {
            assert(r@ =~= texts@.take(i + 1 as int));
        }
        i = i + 1;
    }
    proof {
        assert(texts@.take(texts.len() as int) =~= texts@);
    }
    r
}

/// Checks a backend reply against the chunk it was computed from. The reply
/// is accepted exactly when it is valid for the chunk: then it becomes the
/// chunk's `EmbeddingBatch`, texts in chunk order, embeddings untouched. A
/// malformed reply yields `None` and the chunk is treated as failed.
pub fn validate_batch<E>(texts: &Vec<String>, embeddings: Vec<Vec<E>>, vector_dim: usize) -> (r:
    Option<EmbeddingBatch<E>>)
    ensures
        r is Some <==> spec_valid_reply(texts@, embeddings@, vector_dim as nat),
        r matches Some(b) ==> {
            &&& b.texts@ == texts@
            &&& b.embeddings@ == embeddings@
            &&& b.wf(vector_dim as nat)
        },
{
    if embeddings.len() != texts.len() {
        return None;
    }
    let mut i: usize = 0;
    while i < embeddings.len()
        invariant
            i <= embeddings.len(),
            forall|j: int| 0 <= j < i ==> (#[trigger] embeddings[j]).len() == vector_dim,
        decreases embeddings.len() - i,
    {
        if embeddings[i].len() != vector_dim {
            return None;
        }
        i = i + 1;
    }
    Some(EmbeddingBatch { texts: clone_texts(texts), embeddings })
}

fn copy_vector<E: Copy>(v: &Vec<E>) -> (r: Vec<E>)
    ensures
        r@ == v@,
{
    let mut r: Vec<E> = Vec::new();
    let mut i: usize = 0;
    while i < v.len()
        invariant
            i <= v.len(),
            r@ =~= v@.take(i as int),
        decreases v.len() - i,
    {
        r.push(v[i]);
        proof {
            assert(r@ =~= v@.take(i + 1 as int));
        }
        i = i + 1;
    }
    proof {
        assert(v@.take(v.len() as int) =~= v@);
    }
    r
}

/// Builds one record per (text, embedding) pair of the batch, in order. This
/// is where the within-chunk correspondence is pinned down: the i-th record
/// carries the i-th text, as both key and display text, and the i-th
/// embedding, for every i.
pub fn make_records<E: Copy>(batch: &EmbeddingBatch<E>) -> (records: Vec<VectorRecord<E>>)
    requires
        batch.embeddings.len() == batch.texts.len(),
    ensures
        records.len() == batch.texts.len(),
        forall|i: int|
            0 <= i < records.len() ==> {
                &&& (#[trigger] records[i]).key@ == batch.texts[i]@
                &&& records[i].text@ == batch.texts[i]@
                &&& records[i].embedding@ == batch.embeddings[i]@
            },
{
    let mut records: Vec<VectorRecord<E>> = Vec::new();
    let mut i: usize = 0;
    while i < batch.texts.len()
        invariant
            batch.embeddings.len() == batch.texts.len(),
            i <= batch.texts.len(),
            records.len() == i,
            forall|j: int|
                0 <= j < i ==> {
                    &&& (#[trigger] records[j]).key@ == batch.texts[j]@
                    &&& records[j].text@ == batch.texts[j]@
                    &&& records[j].embedding@ == batch.embeddings[j]@
                },
        decreases batch.texts.len() - i,
    {
        records.push(
            VectorRecord {
                key: batch.texts[i].clone(),
                text: batch.texts[i].clone(),
                embedding: copy_vector(&batch.embeddings[i]),
            },
        );
        i = i + 1;
    }
    records
}

/// Order preservation within a chunk: when a backend computes each vector
/// from its own text alone — `embeddings[i] == f(texts[i])` for the reply —
/// then every record built from the validated batch pairs a text with the
/// vector of that text, never of a neighbour. The two `forall` premises are
/// exactly what `validate_batch` and `make_records` ensure.
pub proof fn lemma_order_preserved_within_chunk<E>(
    texts: Seq<String>,
    embeddings: Seq<Vec<E>>,
    records: Seq<VectorRecord<E>>,
    f: spec_fn(Seq<char>) -> Seq<E>,
)
    requires
        embeddings.len() == texts.len(),
        records.len() == texts.len(),
        forall|i: int| 0 <= i < texts.len() ==> (#[trigger] embeddings[i])@ == f(texts[i]@),
        forall|i: int|
            0 <= i < records.len() ==> (#[trigger] records[i]).text@ == texts[i]@
                && records[i].embedding@ == embeddings[i]@,
    ensures
        forall|i: int|
            0 <= i < records.len() ==> (#[trigger] records[i]).embedding@ == f(records[i].text@),
{
}

/// Builds one record per (key, text, vector) triple, in order: the i-th
/// record carries the i-th key, the i-th text and the i-th vector.
pub fn records_from_columns<E: Copy>(
    file_name: &Vec<String>,
    text: &Vec<String>,
    vectors: &Vec<Vec<E>>,
) -> (records: Vec<VectorRecord<E>>)
    requires
        file_name.len() == text.len(),
        vectors.len() == text.len(),
    ensures
        records.len() == text.len(),
        forall|i: int|
            0 <= i < records.len() ==> {
                &&& (#[trigger] records[i]).key@ == file_name[i]@
                &&& records[i].text@ == text[i]@
                &&& records[i].embedding@ == vectors[i]@
            },
{
    let mut records: Vec<VectorRecord<E>> = Vec::new();
    let mut i: usize = 0;
    while i < text.len()
        invariant
            file_name.len() == text.len(),
            vectors.len() == text.len(),
            i <= text.len(),
            records.len() == i,
            forall|j: int|
                0 <= j < i ==> {
                    &&& (#[trigger] records[j]).key@ == file_name[j]@
                    &&& records[j].text@ == text[j]@
                    &&& records[j].embedding@ == vectors[j]@
                },
        decreases text.len() - i,
    {
        records.push(
            VectorRecord {
                key: file_name[i].clone(),
                text: text[i].clone(),
                embedding: copy_vector(&vectors[i]),
            },
        );
        i = i + 1;
    }
    records
}

} // verus!
