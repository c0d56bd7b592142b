//! The executor's SQL service: `POST /sql` with plain-text SQL, answered by
//! the result as an Arrow IPC stream, or by a status and an error text.
//!
//! Running the SQL and writing the result batches are the caller's part; this
//! module decides what each outcome is answered with.

use vstd::prelude::*;
use crate::executor::config::ObjectStoreConfig;
use crate::schema::{field_views, ipc_stream_of, write_ipc_schema, FieldInfo};

verus! {

/// The body of a reply.
#[derive(Debug, Clone)]
pub enum ReplyBody {
    /// An error text.
    Text(String),
    /// Arrow IPC stream bytes, sent as `application/vnd.apache.arrow.stream`.
    ArrowStream(Vec<u8>),
}

/// A reply of the SQL service: HTTP status and body.
#[derive(Debug, Clone)]
pub struct SqlReply {
    pub status: u16,
    pub body: ReplyBody,
}

/// The content type of an Arrow IPC stream.
pub const ARROW_STREAM_CONTENT_TYPE: &'static str = "application/vnd.apache.arrow.stream";

/// What `core::str::from_utf8` yields for bytes: the text they encode in
/// UTF-8, or the text of the error.
pub uninterp spec fn utf8_decode(bytes: Seq<u8>) -> Result<Seq<char>, Seq<char>>;

/// ASCII bytes are the UTF-8 encoding of the characters with the same codes.
pub open spec fn ascii_reads_as_itself(bytes: Seq<u8>, r: Result<Seq<char>, Seq<char>>) -> bool {
    (forall|i: int| 0 <= i < bytes.len() ==> #[trigger] bytes[i] < 128)
        ==> r == Ok::<Seq<char>, Seq<char>>(bytes.map_values(|b: u8| b as char))
}

/// A decoding result taken by its views.
pub open spec fn decoded_view(r: Result<String, String>) -> Result<Seq<char>, Seq<char>> {
    match r {
        Ok(s) => Ok(s@),
        Err(e) => Err(e@),
    }
}

/// `core::str::from_utf8`, the text copied out and the error taken by its
/// `Display` text. The contract names the result and claims that ASCII bytes
/// read as the characters with the same codes, as UTF-8 defines.
#[verifier::external_body]
fn from_utf8(bytes: &[u8]) -> (r: Result<String, String>)
    ensures
        decoded_view(r) == utf8_decode(bytes@),
        ascii_reads_as_itself(bytes@, decoded_view(r)),
{
    core::str::from_utf8(bytes).map(|s| s.to_string()).map_err(|e| e.to_string())
}

/// The HTTP status of a request the service cannot serve.
pub const BAD_REQUEST: u16 = 400;

/// The HTTP status of a failure on the service's side.
pub const INTERNAL_SERVER_ERROR: u16 = 500;

/// A reply with an error text.
pub open spec fn text_reply(r: SqlReply, status: u16, text: Seq<char>) -> bool {
    r.status == status && (r.body matches ReplyBody::Text(t) && t@ == text)
}

/// The SQL of a request body: its UTF-8 text, or a 400 reply saying the
/// body is not UTF-8.
pub fn request_sql(body: &[u8]) -> (r: Result<String, SqlReply>)
    ensures
        match utf8_decode(body@) {
            Ok(s) => r matches Ok(sql) && sql@ == s,
            Err(m) => r matches Err(reply) && text_reply(reply, 400, "invalid UTF-8: "@ + m),
        },
{
    match from_utf8(body) {
        Ok(s) => Ok(s),
        Err(m) => {
            let mut t = String::new();
            t.append("invalid UTF-8: ");
            t.append(m.as_str());
            Err(SqlReply { status: BAD_REQUEST, body: ReplyBody::Text(t) })
        },
    }
}

/// The reply where no session could be set up: 500 with the error.
pub fn session_failed(message: String) -> (r: SqlReply)
    ensures
        text_reply(r, 500, message@),
{
    SqlReply { status: INTERNAL_SERVER_ERROR, body: ReplyBody::Text(message) }
}

/// The reply where the SQL could not be planned or run: 400 with the error.
pub fn execution_failed(message: String) -> (r: SqlReply)
    ensures
        text_reply(r, 400, message@),
{
    SqlReply { status: BAD_REQUEST, body: ReplyBody::Text(message) }
}

/// The reply where the result could not be written as an Arrow stream:
/// 500 with the error.
pub fn encoding_failed(message: String) -> (r: SqlReply)
    ensures
        text_reply(r, 500, message@),
{
    SqlReply { status: INTERNAL_SERVER_ERROR, body: ReplyBody::Text(message) }
}

/// The reply carrying a result: 200 with the Arrow IPC stream.
pub fn result_stream(ipc: Vec<u8>) -> (r: SqlReply)
    ensures
        r.status == 200,
        r.body matches ReplyBody::ArrowStream(b) && b == ipc,
{
    SqlReply { status: 200, body: ReplyBody::ArrowStream(ipc) }
}

/// The reply to a query that returned no batch: 200 with the Arrow IPC
/// stream of the empty schema and no batch; where that stream cannot be
/// written, 200 with no bytes.
pub fn empty_result() -> (r: SqlReply)
    ensures
        r.status == 200,
        r.body matches ReplyBody::ArrowStream(b) && match ipc_stream_of(Seq::empty()) {
            Ok(bytes) => b@ == bytes,
            Err(_) => b@.len() == 0,
        },
{
    let none: Vec<FieldInfo> = Vec::new();
    assert(field_views(none@) =~= Seq::empty());
    match write_ipc_schema(&none) {
        Ok(bytes) => result_stream(bytes),
        Err(_) => result_stream(Vec::new()),
    }
}

/// The URL an object store is registered under: `s3://{bucket}/`.
pub fn object_store_url(cfg: &ObjectStoreConfig) -> (r: String)
    ensures
        r@ == "s3://"@ + cfg.bucket@ + "/"@,
{
    let mut u = String::new();
    u.append("s3://");
    u.append(cfg.bucket.as_str());
    u.append("/");
    u
}

/// The region given to the S3 client; MinIO needs one and ignores it.
pub const OBJECT_STORE_REGION: &'static str = "us-east-1";

/// The URL an executor asks its coordinator whether `caller` may read `dataset`.
pub fn auth_check_url(coordinator_url: &str, dataset: &str, caller: &str) -> (r: String)
    ensures
        r@ == coordinator_url@ + "/auth/check?dataset="@ + dataset@ + "&caller="@ + caller@,
{
    let mut u = String::new();
    u.append(coordinator_url);
    u.append("/auth/check?dataset=");
    u.append(dataset);
    u.append("&caller=");
    u.append(caller);
    u
}

} // verus!
