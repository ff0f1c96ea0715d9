use std::path::PathBuf;

use dfembed::batch::VectorRecord;
use dfembed::flatten::DataType;
use dfembed::indexer::VectorSink;
use dfembed::store::LanceStore;
use dfembed::StoreError;

struct MemorySink {
    batches: Vec<Vec<VectorRecord<f32>>>,
}

impl VectorSink<f32> for MemorySink {
    fn append(&mut self, records: Vec<VectorRecord<f32>>) -> Result<(), StoreError> {
        self.batches.push(records);
        Ok(())
    }
}

#[test]
fn test_new_with_database_paths() {
    let table_name = "test_table";
    let vector_dim = 3;
    let lance_file_name = format!("{}.lance", table_name);

    // 1. Test with a simple directory name
    let simple_db_name = "my_db";
    let store1 = LanceStore::new_with_database(simple_db_name, table_name, vector_dim);
    let mut expected_path1_buf = PathBuf::from(simple_db_name);
    expected_path1_buf.push(&lance_file_name);
    assert_eq!(store1.file_path, expected_path1_buf.to_str().unwrap());

    // 2. Test with a path using OS-specific separators
    let temp_dir_os = tempfile::Builder::new()
        .prefix("test_os")
        .tempdir()
        .unwrap();
    let os_path_str = temp_dir_os.path().to_str().unwrap();
    let store2 = LanceStore::new_with_database(os_path_str, table_name, vector_dim);
    let mut expected_path2_buf = PathBuf::from(os_path_str);
    expected_path2_buf.push(&lance_file_name);
    assert_eq!(
        store2.file_path,
        expected_path2_buf.to_str().unwrap(),
        "Test failed for OS-specific path"
    );
}

#[test]
fn trailing_separator_is_not_doubled() {
    let store = LanceStore::new_with_database("my_db/", "t", 2);
    assert_eq!(store.file_path, "my_db/t.lance");
    let store = LanceStore::new_with_database("", "t", 2);
    assert_eq!(store.file_path, "t.lance");
}

#[test]
fn default_schema_shape() {
    let schema = LanceStore::get_default_schema(1024);
    assert_eq!(schema.fields.len(), 3);
    assert_eq!(schema.fields[0].name, "filename");
    assert!(matches!(schema.fields[0].data_type, DataType::Utf8));
    assert_eq!(schema.fields[1].name, "text");
    assert!(matches!(schema.fields[1].data_type, DataType::Utf8));
    assert_eq!(schema.fields[2].name, "vector");
    assert!(matches!(schema.fields[2].data_type, DataType::FixedSizeListFloat32(1024)));
}

#[test]
fn add_vectors_appends_ordered_records() {
    let test_db = "test_db_add_vectors";
    let test_table_name = "test_vectors";
    let filenames: Vec<String> =
        ["doc1.txt", "doc2.txt", "doc3.txt"].iter().map(|s| s.to_string()).collect();
    let texts: Vec<String> = ["This is document 1", "This is document 2", "This is document 3"]
        .iter()
        .map(|s| s.to_string())
        .collect();
    let vector_dim = 3;
    let vectors = vec![
        vec![1.0, 2.0, 3.0],
        vec![4.0, 5.0, 6.0],
        vec![7.0, 8.0, 9.0],
    ];

    let store = LanceStore::new_with_database(test_db, test_table_name, vector_dim);
    let mut sink = MemorySink { batches: Vec::new() };
    let result = store.add_vectors(&filenames, &texts, &vectors, &mut sink);
    assert!(result.is_ok(), "Failed to add vectors: {:?}", result.err());

    // one atomic batch, records in input order
    assert_eq!(sink.batches.len(), 1);
    let records = &sink.batches[0];
    assert_eq!(records.len(), 3);
    for i in 0..3 {
        assert_eq!(records[i].key, filenames[i]);
        assert_eq!(records[i].text, texts[i]);
        assert_eq!(records[i].embedding, vectors[i]);
    }
}

#[test]
fn store_keeps_vector_dim() {
    let store = LanceStore::new_with_database("db", "vectors", 512);
    assert_eq!(store.vec_dim, 512);
    assert!(matches!(store.schema.fields[2].data_type, DataType::FixedSizeListFloat32(512)));
}
