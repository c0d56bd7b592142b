//! Dataset schemas as the catalog keeps them: Arrow IPC stream bytes,
//! written and read with the `arrow-ipc` crate. A schema is handled here as
//! its fields: name, data type (as Arrow writes its name, e.g. `Utf8`) and
//! whether the field may be null.

use vstd::prelude::*;
use arrow_ipc::reader::StreamReader;
use arrow_ipc::writer::StreamWriter;
use arrow_schema::{ArrowError, DataType, Field, Schema};

verus! {

/// A field of a schema.
#[derive(Debug, Clone)]
pub struct FieldInfo {
    pub name: String,
    pub data_type: String,
    pub nullable: bool,
}

/// A field taken by its values.
pub struct FieldView {
    pub name: Seq<char>,
    pub data_type: Seq<char>,
    pub nullable: bool,
}

/// The fields taken by their values.
pub open spec fn field_views(fields: Seq<FieldInfo>) -> Seq<FieldView> {
    fields.map_values(|f: FieldInfo| FieldView { name: f.name@, data_type: f.data_type@, nullable: f.nullable })
}

/// What reading an Arrow IPC stream's schema gives for `bytes`: its fields,
/// or the text of the error.
pub uninterp spec fn ipc_schema(bytes: Seq<u8>) -> Result<Seq<FieldView>, Seq<char>>;

/// What writing a schema of these fields as an Arrow IPC stream (with no
/// batch) gives: the bytes, or the text of the error (a data type name
/// Arrow does not know).
pub uninterp spec fn ipc_stream_of(fields: Seq<FieldView>) -> Result<Seq<u8>, Seq<char>>;

/// A schema reading taken by its values.
pub open spec fn fields_result_view(r: Result<Vec<FieldInfo>, String>) -> Result<Seq<FieldView>, Seq<char>> {
    match r {
        Ok(v) => Ok(field_views(v@)),
        Err(e) => Err(e@),
    }
}

/// A schema writing taken by its values.
pub open spec fn bytes_result_view(r: Result<Vec<u8>, String>) -> Result<Seq<u8>, Seq<char>> {
    match r {
        Ok(b) => Ok(b@),
        Err(e) => Err(e@),
    }
}

/// `arrow_ipc::reader::StreamReader::try_new(bytes, None)` and its
/// `schema()`, each field taken as its name, its data type's `Display` text
/// and its nullability. The contract names the result.
#[verifier::external_body]
fn read_ipc_schema(bytes: &[u8]) -> (r: Result<Vec<FieldInfo>, String>)
    ensures
        fields_result_view(r) == ipc_schema(bytes@),
{
    let reader = StreamReader::try_new(std::io::Cursor::new(bytes), None).map_err(|e| e.to_string())?;
    let schema = reader.schema();
    Ok(schema.fields().iter().map(|f| FieldInfo {
        name: f.name().clone(),
        data_type: f.data_type().to_string(),
        nullable: f.is_nullable(),
    }).collect())
}

/// `arrow_ipc::writer::StreamWriter::try_new` on an empty buffer with the
/// schema of these fields (each data type parsed by `DataType::from_str`),
/// then `into_inner`, which ends the stream. The contract names the result.
#[verifier::external_body]
pub(crate) fn write_ipc_schema(fields: &Vec<FieldInfo>) -> (r: Result<Vec<u8>, String>)
    ensures
        bytes_result_view(r) == ipc_stream_of(field_views(fields@)),
{
    let fs = fields.iter().map(|f| Ok(Field::new(f.name.clone(), f.data_type.parse::<DataType>()?, f.nullable)))
        .collect::<Result<Vec<Field>, ArrowError>>().map_err(|e| e.to_string())?;
    StreamWriter::try_new(Vec::new(), &Schema::new(fs)).and_then(|w| w.into_inner()).map_err(|e| e.to_string())
}

/// Schema bytes that hold no schema: empty, the four-byte end-of-stream
/// marker, or anything shorter than eight bytes.
pub open spec fn is_placeholder_schema(ipc: Seq<u8>) -> bool {
    ipc.len() == 0 || ipc == seq![0u8, 0u8, 0u8, 0u8] || ipc.len() < 8
}

/// Whether schema bytes hold no schema.
pub fn placeholder_schema(ipc: &[u8]) -> (r: bool)
    ensures
        r == is_placeholder_schema(ipc@),
{
    let n = ipc.len();
    if n == 0 {
        return true;
    }
    if n == 4 && ipc[0] == 0 && ipc[1] == 0 && ipc[2] == 0 && ipc[3] == 0 {
        assert(ipc@ =~= seq![0u8, 0u8, 0u8, 0u8]);
        return true;
    }
    n < 8
}

/// The fields of stored schema bytes: none for bytes that hold no schema,
/// else those the Arrow stream holds, or the reading error.
pub fn decode_schema(ipc: &[u8]) -> (r: Result<Vec<FieldInfo>, String>)
    ensures
        is_placeholder_schema(ipc@) ==> (r matches Ok(fs) && fs@.len() == 0),
        !is_placeholder_schema(ipc@) ==> fields_result_view(r) == ipc_schema(ipc@),
{
    if placeholder_schema(ipc) {
        Ok(Vec::new())
    } else {
        read_ipc_schema(ipc)
    }
}

/// The fields a decoding failure falls back to: none.
pub fn schema_or_empty(decoded: Result<Vec<FieldInfo>, String>) -> (r: Vec<FieldInfo>)
    ensures
        match decoded {
            Ok(fs) => r@ == fs@,
            Err(_) => r@.len() == 0,
        },
{
    match decoded {
        Ok(fs) => fs,
        Err(_) => Vec::new(),
    }
}

/// The schema a dataset is registered with when its fields cannot be found:
/// one nullable text column named `_placeholder`.
pub fn placeholder_fields() -> (r: Vec<FieldInfo>)
    ensures
        r@.len() == 1,
        r@[0].name@ == "_placeholder"@,
        r@[0].data_type@ == "Utf8"@,
        r@[0].nullable,
{
    proof {
        broadcast use vstd::string::group_string_axioms;
    }
    let mut r: Vec<FieldInfo> = Vec::new();
    r.push(FieldInfo { name: "_placeholder".to_string(), data_type: "Utf8".to_string(), nullable: true });
    r
}

/// The Arrow IPC stream holding a schema of these fields.
pub fn serialize_schema(fields: &Vec<FieldInfo>) -> (r: Result<Vec<u8>, String>)
    ensures
        bytes_result_view(r) == ipc_stream_of(field_views(fields@)),
{
    write_ipc_schema(fields)
}

/// The schema bytes a dataset is registered with: those of the inferred
/// fields, or of the placeholder schema where inference failed.
pub fn registration_schema(inferred: Result<Vec<FieldInfo>, String>) -> (r: Result<Vec<u8>, String>)
    ensures
        match inferred {
            Ok(fs) => bytes_result_view(r) == ipc_stream_of(field_views(fs@)),
            Err(_) => bytes_result_view(r) == ipc_stream_of(seq![FieldView { name: "_placeholder"@, data_type: "Utf8"@, nullable: true }]),
        },
{
    let fields = match inferred {
        Ok(fs) => fs,
        Err(_) => placeholder_fields(),
    };
    proof {
        assert(inferred is Err ==> field_views(fields@) =~= seq![FieldView { name: "_placeholder"@, data_type: "Utf8"@, nullable: true }]);
    }
    serialize_schema(&fields)
}

} // verus!
