//! The row flattener: turns one typed row into one text document of the form
//! `"<field> is <value>; <field> is <value>; ..."`, one part per column in
//! schema order. A column of an unrecognized type renders as a visible
//! placeholder instead of failing the row.

use vstd::prelude::*;
use vstd::string::StringExecFns;

use crate::text::{bool_to_text, i32_to_text, i64_to_text, spec_bool_text, spec_dec};

verus! {

/// The type of one column, as the store and the schema describe it.
pub enum DataType {
    Utf8,
    LargeUtf8,
    Int32,
    Int64,
    Float64,
    Boolean,
    /// A fixed-width list of 32-bit floats; the width is the vector dimension.
    FixedSizeListFloat32(usize),
    /// Any type the flattener does not recognize, under its display name.
    Other(String),
}

/// One named, typed column of a schema.
pub struct Field {
    pub name: String,
    pub data_type: DataType,
}

/// An ordered list of named, typed columns, fixed for one indexing run.
pub struct Schema {
    pub fields: Vec<Field>,
}

/// The cell values of one column across the rows of a batch. Values of a
/// recognized type are held plainly; 64-bit float cells are carried as their
/// decimal text, since the core only ever reads their rendering; a column of
/// an unrecognized type carries only its type's display name and row count.
pub enum ColumnData {
    Utf8(Vec<String>),
    LargeUtf8(Vec<String>),
    Int32(Vec<i32>),
    Int64(Vec<i64>),
    Float64(Vec<String>),
    Boolean(Vec<bool>),
    Unsupported(String, usize),
}

impl ColumnData {
    /// The number of rows the column holds values for.
    pub open spec fn spec_len(self) -> nat {
        match self {
            ColumnData::Utf8(v) => v.len() as nat,
            ColumnData::LargeUtf8(v) => v.len() as nat,
            ColumnData::Int32(v) => v.len() as nat,
            ColumnData::Int64(v) => v.len() as nat,
            ColumnData::Float64(v) => v.len() as nat,
            ColumnData::Boolean(v) => v.len() as nat,
            ColumnData::Unsupported(_, n) => n as nat,
        }
    }

    /// Returns the number of rows the column holds values for.
    pub fn len(&self) -> (n: usize)
        ensures
            n as nat == self.spec_len(),
    {
        match self {
            ColumnData::Utf8(v) => v.len(),
            ColumnData::LargeUtf8(v) => v.len(),
            ColumnData::Int32(v) => v.len(),
            ColumnData::Int64(v) => v.len(),
            ColumnData::Float64(v) => v.len(),
            ColumnData::Boolean(v) => v.len(),
            ColumnData::Unsupported(_, n) => *n,
        }
    }
}

/// One batch of rows: one `ColumnData` per schema field, all of one length.
pub struct RecordBatch {
    pub columns: Vec<ColumnData>,
    pub num_rows: usize,
}

impl RecordBatch {
    /// The batch matches the schema: one column per field, and every column
    /// holds exactly `num_rows` values.
    pub open spec fn wf(self, schema: Schema) -> bool {
        &&& self.columns.len() == schema.fields.len()
        &&& forall|i: int|
            0 <= i < self.columns.len() ==> (#[trigger] self.columns[i]).spec_len()
                == self.num_rows
    }
}

/// The diagnostic text a cell of an unrecognized type renders as.
pub open spec fn spec_placeholder(ty_name: Seq<char>) -> Seq<char> {
    "[unhandled type: "@ + ty_name + "]"@
}

/// The text of the cell at `row` of `col`.
pub open spec fn spec_cell_text(col: ColumnData, row: int) -> Seq<char> {
    match col {
        ColumnData::Utf8(v) => v[row]@,
        ColumnData::LargeUtf8(v) => v[row]@,
        ColumnData::Int32(v) => spec_dec(v[row] as int),
        ColumnData::Int64(v) => spec_dec(v[row] as int),
        ColumnData::Float64(v) => v[row]@,
        ColumnData::Boolean(v) => spec_bool_text(v[row]),
        ColumnData::Unsupported(name, _) => spec_placeholder(name@),
    }
}

/// Renders the cell at `row_idx` of `array` as text: the value itself for a
/// recognized type, the diagnostic placeholder for an unrecognized one.
pub fn extract_value_from_array(array: &ColumnData, row_idx: usize) -> (r: String)
    requires
        row_idx < array.spec_len(),
    ensures
        r@ == spec_cell_text(*array, row_idx as int),
{
    match array {
        ColumnData::Utf8(v) => v[row_idx].clone(),
        ColumnData::LargeUtf8(v) => v[row_idx].clone(),
        ColumnData::Int32(v) => i32_to_text(v[row_idx]),
        ColumnData::Int64(v) => i64_to_text(v[row_idx]),
        ColumnData::Float64(v) => v[row_idx].clone(),
        ColumnData::Boolean(v) => bool_to_text(v[row_idx]),
        ColumnData::Unsupported(name, _) => {
            let mut s = String::from_str("[unhandled type: ");
            s.append(name.as_str());
            s.append("]");
            proof {
                assert(s@ =~= spec_placeholder(name@));
            }
            s
        },
    }
}

/// The `"<field> is <value>"` part for column `j` of the row.
pub open spec fn spec_field_text(schema: Schema, batch: RecordBatch, row: int, j: int) -> Seq<
    char,
> {
    schema.fields[j].name@ + " is "@ + spec_cell_text(batch.columns[j], row)
}

/// The document text of one row from column `j` onward: the per-column parts
/// joined by `"; "`.
pub open spec fn spec_row_text_from(schema: Schema, batch: RecordBatch, row: int, j: int) -> Seq<
    char,
>
    decreases schema.fields.len() - j,
{
    if j < 0 || j >= schema.fields.len() {
        Seq::empty()
    } else if j == schema.fields.len() - 1 {
        spec_field_text(schema, batch, row, j)
    } else {
        spec_field_text(schema, batch, row, j) + "; "@ + spec_row_text_from(
            schema,
            batch,
            row,
            j + 1,
        )
    }
}

/// The full document text of one row.
pub open spec fn spec_row_text(schema: Schema, batch: RecordBatch, row: int) -> Seq<char> {
    spec_row_text_from(schema, batch, row, 0)
}

fn append_row_text(
    schema: &Schema,
    batch: &RecordBatch,
    row: usize,
    j: usize,
    out: &mut String,
)
    requires
        batch.wf(*schema),
        row < batch.num_rows,
        j <= schema.fields.len(),
    ensures
        final(out)@ == old(out)@ + spec_row_text_from(*schema, *batch, row as int, j as int),
    decreases schema.fields.len() - j,
{
    if j >= schema.fields.len() {
        proof {
            assert(final(out)@ =~= old(out)@ + spec_row_text_from(
                *schema,
                *batch,
                row as int,
                j as int,
            ));
        }
        return ;
    }
    out.append(schema.fields[j].name.as_str());
    out.append(" is ");
    let value = extract_value_from_array(&batch.columns[j], row);
    out.append(value.as_str());
    if j + 1 < schema.fields.len() {
        out.append("; ");
        append_row_text(schema, batch, row, j + 1, out);
    }
    proof {
        reveal_strlit(" is ");
        reveal_strlit("; ");
        assert(final(out)@ =~= old(out)@ + spec_row_text_from(
            *schema,
            *batch,
            row as int,
            j as int,
        ));
    }
}

/// Flattens one row of a batch into its document text.
pub fn flatten_row(schema: &Schema, batch: &RecordBatch, row: usize) -> (r: String)
    requires
        batch.wf(*schema),
        row < batch.num_rows,
    ensures
        r@ == spec_row_text(*schema, *batch, row as int),
{
    let mut s = String::new();
    append_row_text(schema, batch, row, 0, &mut s);
    proof {
        assert(s@ =~= spec_row_text(*schema, *batch, row as int));
    }
    s
}

/// `needle` occurs in `hay` as a contiguous run of characters.
pub open spec fn spec_contains(hay: Seq<char>, needle: Seq<char>) -> bool {
    exists|k: int|
        0 <= k && k + needle.len() <= hay.len() && #[trigger] hay.subrange(k, k + needle.len())
            == needle
}

/// The display name of an unrecognized column's type.
pub open spec fn spec_column_ty_name(c: ColumnData) -> Seq<char> {
    match c {
        ColumnData::Unsupported(name, _) => name@,
        _ => Seq::empty(),
    }
}

proof fn lemma_contains_extend(a: Seq<char>, b: Seq<char>, needle: Seq<char>)
    requires
        spec_contains(a, needle) || spec_contains(b, needle),
    ensures
        spec_contains(a + b, needle),
{
    if spec_contains(a, needle) {
        let k = choose|k: int|
            0 <= k && k + needle.len() <= a.len() && #[trigger] a.subrange(k, k + needle.len()) == needle;
        assert((a + b).subrange(k, k + needle.len()) =~= needle);
    } else {
        let k = choose|k: int|
            0 <= k && k + needle.len() <= b.len() && #[trigger] b.subrange(k, k + needle.len()) == needle;
        assert((a + b).subrange(a.len() + k, a.len() + k + needle.len()) =~= needle);
    }
}

proof fn lemma_contains_trans(hay: Seq<char>, mid: Seq<char>, needle: Seq<char>)
    requires
        spec_contains(hay, mid),
        spec_contains(mid, needle),
    ensures
        spec_contains(hay, needle),
{
    let k1 = choose|k: int|
        0 <= k && k + mid.len() <= hay.len() && #[trigger] hay.subrange(k, k + mid.len()) == mid;
    let k2 = choose|k: int|
        0 <= k && k + needle.len() <= mid.len() && #[trigger] mid.subrange(k, k + needle.len()) == needle;
    assert(hay.subrange(k1 + k2, k1 + k2 + needle.len()) =~= needle);
}

proof fn lemma_field_contains_placeholder(schema: Schema, batch: RecordBatch, row: int, j: int)
    requires
        batch.columns[j] is Unsupported,
    ensures
        spec_contains(
            spec_field_text(schema, batch, row, j),
            spec_placeholder(spec_column_ty_name(batch.columns[j])),
        ),
{
    let pre = schema.fields[j].name@ + " is "@;
    let ph = spec_placeholder(spec_column_ty_name(batch.columns[j]));
    assert(spec_cell_text(batch.columns[j], row) == ph);
    assert(spec_field_text(schema, batch, row, j) == pre + ph);
    assert((pre + ph).subrange(pre.len() as int, pre.len() as int + ph.len() as int) =~= ph);
    assert(spec_contains(pre + ph, ph));
}

proof fn lemma_row_text_contains_field(
    schema: Schema,
    batch: RecordBatch,
    row: int,
    j0: int,
    j: int,
)
    requires
        0 <= j0 <= j < schema.fields.len(),
    ensures
        spec_contains(
            spec_row_text_from(schema, batch, row, j0),
            spec_field_text(schema, batch, row, j),
        ),
    decreases j - j0,
{
    let f = spec_field_text(schema, batch, row, j);
    let whole = spec_row_text_from(schema, batch, row, j0);
    if j0 == j {
        let k0: int = 0;
        assert(whole.subrange(k0, k0 + f.len() as int) =~= f);
        assert(spec_contains(whole, f));
    } else {
        lemma_row_text_contains_field(schema, batch, row, j0 + 1, j);
        let head = spec_field_text(schema, batch, row, j0) + "; "@;
        let rest = spec_row_text_from(schema, batch, row, j0 + 1);
        assert(whole == head + rest);
        lemma_contains_extend(head, rest, f);
    }
}

/// A row with a column of an unrecognized type yields a document whose text
/// contains the diagnostic placeholder for that column's type, wherever in
/// the schema the column stands.
pub proof fn lemma_unsupported_placeholder(schema: Schema, batch: RecordBatch, row: int, j: int)
    requires
        0 <= j < schema.fields.len(),
        batch.columns[j] is Unsupported,
    ensures
        spec_contains(
            spec_row_text(schema, batch, row),
            spec_placeholder(spec_column_ty_name(batch.columns[j])),
        ),
{
    lemma_row_text_contains_field(schema, batch, row, 0, j);
    lemma_field_contains_placeholder(schema, batch, row, j);
    lemma_contains_trans(
        spec_row_text(schema, batch, row),
        spec_field_text(schema, batch, row, j),
        spec_placeholder(spec_column_ty_name(batch.columns[j])),
    );
}

/// The documents of one batch, in row order.
pub open spec fn spec_batch_documents(batch: RecordBatch, schema: Schema) -> Seq<Seq<char>> {
    Seq::new(batch.num_rows as nat, |i: int| spec_row_text(schema, batch, i))
}

/// The documents of a run of batches, batch after batch, rows in order.
pub open spec fn spec_documents(batches: Seq<RecordBatch>, schema: Schema) -> Seq<Seq<char>>
    decreases batches.len(),
{
    if batches.len() == 0 {
        Seq::empty()
    } else {
        spec_batch_documents(batches[0], schema) + spec_documents(batches.drop_first(), schema)
    }
}

/// The total number of rows across a run of batches.
pub open spec fn spec_total_rows(batches: Seq<RecordBatch>) -> nat
    decreases batches.len(),
{
    if batches.len() == 0 {
        0
    } else {
        (batches[0].num_rows + spec_total_rows(batches.drop_first())) as nat
    }
}

/// Appending one batch to a run appends exactly that batch's documents.
proof fn lemma_documents_snoc(batches: Seq<RecordBatch>, schema: Schema, b: RecordBatch)
    ensures
        spec_documents(batches.push(b), schema) == spec_documents(batches, schema)
            + spec_batch_documents(b, schema),
    decreases batches.len(),
{
    let p = batches.push(b);
    if batches.len() == 0 {
        assert(p[0] == b);
        assert(p.drop_first() =~= Seq::<RecordBatch>::empty());
        assert(spec_documents(p, schema) == spec_batch_documents(b, schema) + spec_documents(
            Seq::<RecordBatch>::empty(),
            schema,
        ));
        assert(spec_documents(p, schema) =~= spec_documents(batches, schema)
            + spec_batch_documents(b, schema));
    } else {
        assert(p[0] == batches[0]);
        assert(p.drop_first() =~= batches.drop_first().push(b));
        lemma_documents_snoc(batches.drop_first(), schema, b);
        assert(spec_documents(p, schema) == spec_batch_documents(batches[0], schema)
            + spec_documents(batches.drop_first().push(b), schema));
        assert(spec_documents(p, schema) =~= spec_documents(batches, schema)
            + spec_batch_documents(b, schema));
    }
}

/// A run of batches yields one document per row.
pub proof fn lemma_documents_len(batches: Seq<RecordBatch>, schema: Schema)
    ensures
        spec_documents(batches, schema).len() == spec_total_rows(batches),
    decreases batches.len(),
{
    if batches.len() > 0 {
        lemma_documents_len(batches.drop_first(), schema);
    }
}

/// Flattens every row of every batch into one document, in row order: the
/// i-th document is the text of the i-th row of the run.
pub fn transform_batches(batches: &Vec<RecordBatch>, schema: &Schema) -> (docs: Vec<String>)
    requires
        forall|i: int| 0 <= i < batches.len() ==> (#[trigger] batches[i]).wf(*schema),
    ensures
        docs@.map_values(|d: String| d@) == spec_documents(batches@, *schema),
        docs@.len() == spec_total_rows(batches@),
{
    let mut docs: Vec<String> = Vec::new();
    let mut bi: usize = 0;
    while bi < batches.len()
        invariant
            forall|i: int| 0 <= i < batches.len() ==> (#[trigger] batches[i]).wf(*schema),
            bi <= batches.len(),
            docs@.map_values(|d: String| d@) == spec_documents(batches@.take(bi as int), *schema),
        decreases batches.len() - bi,
    {
        let batch = &batches[bi];
        let mut row: usize = 0;
        while row < batch.num_rows
            invariant
                batch == &batches[bi as int],
                bi < batches.len(),
                batch.wf(*schema),
                row <= batch.num_rows,
                docs@.map_values(|d: String| d@) == spec_documents(
                    batches@.take(bi as int),
                    *schema,
                ) + spec_batch_documents(*batch, *schema).take(row as int),
            decreases batch.num_rows - row,
        {
            let ghost pre = docs@;
            let doc = flatten_row(schema, batch, row);
            proof {
                assert(doc@ == spec_row_text(*schema, *batch, row as int));
            }
            docs.push(doc);
            proof {
                assert(docs@ == pre.push(doc));
                assert(docs@.map_values(|d: String| d@) =~= pre.map_values(|d: String| d@).push(
                    doc@,
                ));
                assert(spec_batch_documents(*batch, *schema).take(row + 1 as int)
                    =~= spec_batch_documents(*batch, *schema).take(row as int).push(
                    spec_row_text(*schema, *batch, row as int),
                ));
                assert(docs@.map_values(|d: String| d@) =~= spec_documents(
                    batches@.take(bi as int),
                    *schema,
                ) + spec_batch_documents(*batch, *schema).take(row + 1 as int));
            }
            row = row + 1;
        }
        proof {
            assert(spec_batch_documents(*batch, *schema).take(batch.num_rows as int)
                =~= spec_batch_documents(*batch, *schema));
            lemma_documents_snoc(batches@.take(bi as int), *schema, batches@[bi as int]);
            assert(batches@.take(bi as int).push(batches@[bi as int]) =~= batches@.take(
                bi + 1 as int,
            ));
        }
        bi = bi + 1;
    }
    proof {
        assert(batches@.take(batches.len() as int) =~= batches@);
        lemma_documents_len(batches@, *schema);
    }
    docs
}

} // verus!
