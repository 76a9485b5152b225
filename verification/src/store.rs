use vstd::prelude::*;
use vstd::string::StringExecFns;
use crate::embedding::{EmbeddingVector, VECTOR_DIM};

verus! {

/// The column types the store's fixed schema uses.
pub enum ColumnType {
    Utf8,
    /// A fixed-size list of 32-bit floats of the given width.
    FixedSizeListFloat32(u32),
}

/// One column of the table schema.
pub struct Column {
    pub name: String,
    pub dtype: ColumnType,
    pub nullable: bool,
}

/// The schema a table handle is bound to.
pub struct TableSchema {
    pub columns: Vec<Column>,
}

/// The fixed schema of the memory table: `id`, `timestamp` and `file_path`
/// as non-null strings, and `vector` as a nullable fixed-size list of 512
/// 32-bit floats. The schema is fixed for the process lifetime; there is
/// no migration path.
pub open spec fn is_memory_schema(s: &TableSchema) -> bool {
    &&& s.columns@.len() == 4
    &&& s.columns@[0].name@ == "id"@
    &&& s.columns@[0].dtype == ColumnType::Utf8
    &&& !s.columns@[0].nullable
    &&& s.columns@[1].name@ == "timestamp"@
    &&& s.columns@[1].dtype == ColumnType::Utf8
    &&& !s.columns@[1].nullable
    &&& s.columns@[2].name@ == "file_path"@
    &&& s.columns@[2].dtype == ColumnType::Utf8
    &&& !s.columns@[2].nullable
    &&& s.columns@[3].name@ == "vector"@
    &&& s.columns@[3].dtype == ColumnType::FixedSizeListFloat32(VECTOR_DIM as u32)
    &&& s.columns@[3].nullable
}

/// Builds the fixed memory-table schema.
pub fn memory_schema() -> (s: TableSchema)
    ensures
        is_memory_schema(&s),
{
    let mut columns: Vec<Column> = Vec::new();
    columns.push(Column {
        name: "id".to_string(),
        dtype: ColumnType::Utf8,
        nullable: false,
    });
    columns.push(Column {
        name: "timestamp".to_string(),
        dtype: ColumnType::Utf8,
        nullable: false,
    });
    columns.push(Column {
        name: "file_path".to_string(),
        dtype: ColumnType::Utf8,
        nullable: false,
    });
    columns.push(Column {
        name: "vector".to_string(),
        dtype: ColumnType::FixedSizeListFloat32(512),
        nullable: true,
    });
    TableSchema { columns }
}

/// One persisted memory: born when inference succeeds and the frame is
/// durably saved, immutable thereafter; its identity is `id`.
#[derive(Clone)]
pub struct MemoryRecord {
    pub id: String,
    pub timestamp: String,
    pub file_path: String,
    pub vector: EmbeddingVector,
}

/// Why an append was rejected.
pub enum StoreError {
    /// The record does not match the table's fixed schema: its vector is
    /// not exactly the fixed column width.
    SchemaMismatch,
}

/// A handle to the memory table: schema-bound and append-only. `rows` is
/// the exact sequence of records the table holds, in order - the rows the
/// backing store supplied at open followed by the rows this handle
/// accepted; no update or delete path exists. Writing the rows back to
/// the backing store is the shell's side of the open contract.
pub struct VectorStoreTable {
    pub schema: TableSchema,
    pub rows: Vec<MemoryRecord>,
}

impl VectorStoreTable {
    pub open spec fn wf(&self) -> bool {
        &&& is_memory_schema(&self.schema)
        &&& forall|i: int| 0 <= i < self.rows@.len() ==> self.rows@[i].vector.wf()
    }

    /// Opens the store against the backing directory's current contents,
    /// creating the memory table when none exists. `existing` is the
    /// sequence of rows the backing store already holds - empty on first
    /// creation. Whether the table was created or reopened, the handle is
    /// bound to the same fixed schema and holds exactly the existing rows:
    /// opening truncates, drops and migrates nothing, so a record appended
    /// through an earlier handle and handed back in `existing` is visible
    /// through this one.
    pub fn open_or_create(existing: Vec<MemoryRecord>) -> (t: VectorStoreTable)
        requires
            forall|i: int| 0 <= i < existing@.len() ==> existing@[i].vector.wf(),
        ensures
            t.wf(),
            is_memory_schema(&t.schema),
            t.rows@ == existing@,
    {
        VectorStoreTable { schema: memory_schema(), rows: existing }
    }

    /// Appends a single record. The record is accepted exactly when its
    /// vector has the fixed column width; any other width is rejected with
    /// a schema mismatch and leaves the table unchanged: the store never
    /// truncates or pads a vector.
    pub fn append(&mut self, rec: MemoryRecord) -> (r: Result<(), StoreError>)
        requires
            old(self).wf(),
        ensures
            final(self).wf(),
            final(self).schema == old(self).schema,
            rec.vector.wf() ==> r is Ok && final(self).rows@ == old(self).rows@.push(rec),
            !rec.vector.wf() ==> r == Err::<(), StoreError>(StoreError::SchemaMismatch)
                && final(self).rows@ == old(self).rows@,
    {
        if rec.vector.bits.len() != VECTOR_DIM {
            return Err(StoreError::SchemaMismatch);
        }
        self.rows.push(rec);
        Ok(())
    }

    pub fn row_count(&self) -> (n: usize)
        ensures
            n == self.rows@.len(),
    {
        self.rows.len()
    }
}

/// A record appended through one handle is visible through a handle
/// opened afterwards from the store's then-current contents: the second
/// handle holds the same rows, its last row the appended record.
pub proof fn lemma_append_visible_through_reopen(
    t1: &VectorStoreTable,
    rec: MemoryRecord,
    t2: &VectorStoreTable,
)
    requires
        t1.rows@.len() > 0,
        t1.rows@.last() == rec,
        t2.rows@ == t1.rows@,
    ensures
        t2.rows@.len() > 0,
        t2.rows@.last() == rec,
{
}

/// Two handles obtained by opening the store are bound to schemas that
/// agree column by column: same names, same types, same nullability.
pub proof fn lemma_open_or_create_idempotent(t1: &VectorStoreTable, t2: &VectorStoreTable)
    requires
        is_memory_schema(&t1.schema),
        is_memory_schema(&t2.schema),
    ensures
        t1.schema.columns@.len() == t2.schema.columns@.len(),
        forall|i: int| 0 <= i < t1.schema.columns@.len() ==> {
            &&& t1.schema.columns@[i].name@ == t2.schema.columns@[i].name@
            &&& t1.schema.columns@[i].dtype == t2.schema.columns@[i].dtype
            &&& t1.schema.columns@[i].nullable == t2.schema.columns@[i].nullable
        },
{
}

/// A lowercase hexadecimal digit.
pub open spec fn is_lower_hex_digit(c: char) -> bool {
    ('0' <= c && c <= '9') || ('a' <= c && c <= 'f')
}

/// A decimal digit.
pub open spec fn is_decimal_digit(c: char) -> bool {
    '0' <= c && c <= '9'
}

/// The hyphenated rendering of a random identifier: 36 characters, with
/// hyphens at positions 8, 13, 18 and 23 and lowercase hex digits
/// everywhere else.
pub open spec fn is_hyphenated_id(s: Seq<char>) -> bool {
    &&& s.len() == 36
    &&& s[8] == '-'
    &&& s[13] == '-'
    &&& s[18] == '-'
    &&& s[23] == '-'
    &&& forall|i: int|
        0 <= i < 36 && i != 8 && i != 13 && i != 18 && i != 23 ==> is_lower_hex_digit(s[i])
}

/// The shape of a local wall-clock time rendered as "%Y-%m-%d %H:%M:%S".
/// The year field is at least four digits and carries an explicit sign -
/// minus or plus - whenever the year lies outside 0..10000, so everything
/// after it is anchored to the end: the last 15 characters are
/// "-MM-DD HH:MM:SS" with decimal digits in each two-digit field, and the
/// year prefix is decimal digits after an optional leading sign.
pub open spec fn is_wall_clock_shape(s: Seq<char>) -> bool {
    let n = s.len() as int;
    &&& n >= 19
    &&& s[n - 15] == '-'
    &&& s[n - 12] == '-'
    &&& s[n - 9] == ' '
    &&& s[n - 6] == ':'
    &&& s[n - 3] == ':'
    &&& forall|i: int|
        n - 15 < i < n && i != n - 12 && i != n - 9 && i != n - 6 && i != n - 3
            ==> is_decimal_digit(s[i])
    &&& forall|i: int|
        0 <= i < n - 15 ==> is_decimal_digit(s[i]) || (i == 0 && (s[i] == '-' || s[i] == '+'))
}

/// Relies on uuid::Uuid::new_v4 and its Display form: whatever the random
/// bytes, the identifier renders as 36 characters in the hyphenated
/// 8-4-4-4-12 layout, lowercase hex digits between the hyphens. new_v4
/// aborts if the operating system's randomness source fails - an
/// environmental, input-independent failure akin to allocation failure.
#[verifier::external_body]
fn fresh_id() -> (r: String)
    ensures
        is_hyphenated_id(r@),
{
    uuid::Uuid::new_v4().to_string()
}

/// Relies on chrono::Local::now and DateTime::format with
/// "%Y-%m-%d %H:%M:%S": whatever the clock reads, every two-digit field
/// is zero-padded decimal with its fixed separator, and the year is at
/// least four digits, zero-padded, with an explicit minus or plus sign
/// exactly when the year lies outside 0..10000; so the result is at
/// least 19 characters with its tail in the fixed shape.
#[verifier::external_body]
fn local_timestamp() -> (r: String)
    ensures
        is_wall_clock_shape(r@),
{
    chrono::Local::now().format("%Y-%m-%d %H:%M:%S").to_string()
}

/// Creates the memory record for one successful cycle: a fresh random
/// identifier, the current local timestamp, and the snapshot path
/// `<dir>/<id>.png` the full-resolution frame is saved under.
pub fn fresh_record(snapshot_dir: &str, vector: EmbeddingVector) -> (rec: MemoryRecord)
    ensures
        is_hyphenated_id(rec.id@),
        is_wall_clock_shape(rec.timestamp@),
        rec.file_path@ == snapshot_dir@ + "/"@ + rec.id@ + ".png"@,
        rec.vector == vector,
{
    let id = fresh_id();
    let timestamp = local_timestamp();
    let mut file_path = String::new();
    file_path.append(snapshot_dir);
    file_path.append("/");
    file_path.append(id.as_str());
    file_path.append(".png");
    proof {
        assert(file_path@ =~= snapshot_dir@ + "/"@ + id@ + ".png"@);
    }
    MemoryRecord { id, timestamp, file_path, vector }
}

} // verus!
