//! The vector store descriptor: where a run's records land and with what
//! schema. The store itself is an external collaborator reached through the
//! `VectorSink` capability; this module only fixes the dataset path and the
//! record schema (key, text, fixed-width vector).

use vstd::prelude::*;
use vstd::string::StringExecFns;
use vstd::string::StrSliceExecFns;

use crate::batch::records_from_columns;
use crate::flatten::{DataType, Field, Schema};
use crate::indexer::VectorSink;
use crate::StoreError;

verus! {

/// Describes one store dataset: its record schema, its file path, and the
/// vector width that every record written into it must have.
pub struct LanceStore {
    pub schema: Schema,
    pub file_path: String,
    pub vec_dim: usize,
}

/// The dataset path for a table inside a database directory:
/// `<database>/<table>.lance`, with no separator doubled when the database
/// name already ends in one, and none added when it is empty.
pub open spec fn spec_store_path(database_name: Seq<char>, table_name: Seq<char>) -> Seq<char> {
    let dir = if database_name.len() == 0 || database_name.last() == '/' {
        database_name
    } else {
        database_name + "/"@
    };
    dir + table_name + ".lance"@
}

/// The default record schema: a string key column named "filename", a string
/// column named "text", and a fixed-width float vector column named "vector".
pub open spec fn spec_is_default_schema(s: Schema, vector_dim: usize) -> bool {
    &&& s.fields.len() == 3
    &&& s.fields[0].name@ == "filename"@
    &&& s.fields[0].data_type == DataType::Utf8
    &&& s.fields[1].name@ == "text"@
    &&& s.fields[1].data_type == DataType::Utf8
    &&& s.fields[2].name@ == "vector"@
    &&& s.fields[2].data_type == DataType::FixedSizeListFloat32(vector_dim)
}

impl LanceStore {
    /// Creates a store descriptor for the table `<table_name>.lance` inside
    /// the directory `database_name`, with the default schema and the given
    /// vector width.
    pub fn new_with_database(database_name: &str, table_name: &str, vector_dim: usize) -> (s:
        Self)
        ensures
            s.file_path@ == spec_store_path(database_name@, table_name@),
            spec_is_default_schema(s.schema, vector_dim),
            s.vec_dim == vector_dim,
    {
        let mut path = String::from_str(database_name);
        let n = database_name.unicode_len();
        if n > 0 {
            let last = database_name.get_char(n - 1);
            if last != '/' {
                path.append("/");
            }
        }
        path.append(table_name);
        path.append(".lance");
        proof {
            reveal_strlit("/");
            reveal_strlit(".lance");
            assert(path@ =~= spec_store_path(database_name@, table_name@));
        }
        LanceStore { schema: Self::get_default_schema(vector_dim), file_path: path, vec_dim: vector_dim }
    }

    /// Appends one batch of (key, text, vector) records to the sink, as one
    /// atomic batch write: one record per triple, in order, exactly as
    /// `records_from_columns` states. Every vector must have the store's
    /// configured width; whether the write succeeds is the sink's verdict,
    /// which is returned unchanged.
    pub fn add_vectors<E: Copy, S: VectorSink<E>>(
        &self,
        file_name: &Vec<String>,
        text: &Vec<String>,
        vectors: &Vec<Vec<E>>,
        sink: &mut S,
    ) -> Result<(), StoreError>
        requires
            file_name.len() == text.len(),
            vectors.len() == text.len(),
            forall|i: int| 0 <= i < vectors.len() ==> (#[trigger] vectors[i]).len() == self.vec_dim,
    {
        let records = records_from_columns(file_name, text, vectors);
        sink.append(records)
    }

    /// Builds the default record schema for a given vector width.
    pub fn get_default_schema(vector_dim: usize) -> (s: Schema)
        ensures
            spec_is_default_schema(s, vector_dim),
    {
        let mut fields: Vec<Field> = Vec::new();
        fields.push(Field { name: String::from_str("filename"), data_type: DataType::Utf8 });
        fields.push(Field { name: String::from_str("text"), data_type: DataType::Utf8 });
        fields.push(
            Field {
                name: String::from_str("vector"),
                data_type: DataType::FixedSizeListFloat32(vector_dim),
            },
        );
        Schema { fields }
    }
}

} // verus!
