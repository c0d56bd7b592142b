//! Unified error type for the elan system and its mapping onto gRPC statuses.

use vstd::prelude::*;

verus! {

/// gRPC status codes.
#[derive(Debug, Clone, Copy, PartialEq, Eq, Structural)]
pub enum GrpcCode {
    /// The code gRPC calls `Ok`.
    NoError,
    Cancelled,
    Unknown,
    InvalidArgument,
    DeadlineExceeded,
    NotFound,
    AlreadyExists,
    PermissionDenied,
    ResourceExhausted,
    FailedPrecondition,
    Aborted,
    OutOfRange,
    Unimplemented,
    Internal,
    Unavailable,
    DataLoss,
    Unauthenticated,
}

/// A gRPC status: its code and message.
#[derive(Debug, Clone)]
pub struct GrpcStatus {
    pub code: GrpcCode,
    pub message: String,
}

/// Top-level error type for all elan operations. Errors that come from
/// another library carry that library's rendering of them.
#[derive(Debug, Clone)]
pub enum ElanError {
    DatasetNotFound { namespace: String, name: String },
    AccessDenied { reason: String },
    CoordinatorNotFound { id: String },
    /// A gRPC status, with the text the status renders as.
    Grpc { status: GrpcStatus, text: String },
    Transport(String),
    Serde(String),
    Uuid(String),
    Kafka(String),
    Config(String),
    Io(String),
    Other(String),
}

/// The text an error renders as.
pub open spec fn error_text(e: ElanError) -> Seq<char> {
    match e {
        ElanError::DatasetNotFound { namespace, name } => "dataset not found: "@ + namespace@ + "."@ + name@,
        ElanError::AccessDenied { reason } => "access denied: "@ + reason@,
        ElanError::CoordinatorNotFound { id } => "coordinator not found: "@ + id@,
        ElanError::Grpc { text, .. } => "gRPC error: "@ + text@,
        ElanError::Transport(t) => "transport error: "@ + t@,
        ElanError::Serde(t) => "serialization error: "@ + t@,
        ElanError::Uuid(t) => "uuid parse error: "@ + t@,
        ElanError::Kafka(t) => "kafka error: "@ + t@,
        ElanError::Config(t) => "config error: "@ + t@,
        ElanError::Io(t) => "io error: "@ + t@,
        ElanError::Other(t) => t@,
    }
}

/// The gRPC status an error is reported as: not-found errors as `NotFound`,
/// access denials as `PermissionDenied`, a carried status as itself, and
/// anything else as `Internal`; the message is the error's text.
pub open spec fn status_of(e: ElanError) -> (GrpcCode, Seq<char>) {
    match e {
        ElanError::DatasetNotFound { .. } => (GrpcCode::NotFound, error_text(e)),
        ElanError::AccessDenied { .. } => (GrpcCode::PermissionDenied, error_text(e)),
        ElanError::CoordinatorNotFound { .. } => (GrpcCode::NotFound, error_text(e)),
        ElanError::Grpc { status, .. } => (status.code, status.message@),
        _ => (GrpcCode::Internal, error_text(e)),
    }
}

fn prefixed(prefix: &str, rest: &String) -> (r: String)
    ensures
        r@ == prefix@ + rest@,
{
    let mut r = String::new();
    r.append(prefix);
    r.append(rest.as_str());
    r
}

impl ElanError {
    /// The text the error renders as.
    pub fn to_string(&self) -> (r: String)
        ensures
            r@ == error_text(*self),
    {
        match self {
            ElanError::DatasetNotFound { namespace, name } => {
                let mut r = String::new();
                r.append("dataset not found: ");
                r.append(namespace.as_str());
                r.append(".");
                r.append(name.as_str());
                r
            },
            ElanError::AccessDenied { reason } => prefixed("access denied: ", reason),
            ElanError::CoordinatorNotFound { id } => prefixed("coordinator not found: ", id),
            ElanError::Grpc { text, .. } => prefixed("gRPC error: ", text),
            ElanError::Transport(t) => prefixed("transport error: ", t),
            ElanError::Serde(t) => prefixed("serialization error: ", t),
            ElanError::Uuid(t) => prefixed("uuid parse error: ", t),
            ElanError::Kafka(t) => prefixed("kafka error: ", t),
            ElanError::Config(t) => prefixed("config error: ", t),
            ElanError::Io(t) => prefixed("io error: ", t),
            ElanError::Other(t) => t.clone(),
        }
    }

    /// The gRPC status the error is reported as.
    pub fn to_status(&self) -> (r: GrpcStatus)
        ensures
            (r.code, r.message@) == status_of(*self),
    {
        match self {
            ElanError::DatasetNotFound { .. } => GrpcStatus { code: GrpcCode::NotFound, message: self.to_string() },
            ElanError::AccessDenied { .. } => GrpcStatus { code: GrpcCode::PermissionDenied, message: self.to_string() },
            ElanError::CoordinatorNotFound { .. } => GrpcStatus { code: GrpcCode::NotFound, message: self.to_string() },
            ElanError::Grpc { status, .. } => GrpcStatus { code: status.code, message: status.message.clone() },
            _ => GrpcStatus { code: GrpcCode::Internal, message: self.to_string() },
        }
    }
}

} // verus!
