use vstd::prelude::*;
use vstd::string::StringExecFns;

verus! {

/// The codes of a failed RPC, as the standard gRPC taxonomy names them.
#[derive(Clone, Copy, Debug, PartialEq, Eq, Structural)]
pub enum RpcCode {
    Cancelled,
    Unknown,
    InvalidArgument,
    DeadlineExceeded,
    NotFound,
    AlreadyExists,
    PermissionDenied,
    ResourceExhausted,
    FailedPrecondition,
    Aborted,
    OutOfRange,
    Unimplemented,
    Internal,
    Unavailable,
    DataLoss,
    Unauthenticated,
}

/// A failure as it is handed back to an RPC caller: a code and a message.
#[derive(Clone, Debug)]
pub struct RpcStatus {
    pub code: RpcCode,
    pub message: String,
}

/// The kinds of I/O failure that the listeners tell apart.
#[derive(Clone, Copy, Debug, PartialEq, Eq, Structural)]
pub enum IoKind {
    /// The call was interrupted before it completed.
    Interrupted,
    /// The socket had nothing to hand over yet.
    WouldBlock,
    /// A peer refused an earlier datagram: its address is unreachable.
    ConnectionRefused,
    /// A peer reset the exchange; on datagram sockets, an unreachable address.
    ConnectionReset,
    AddrInUse,
    AddrNotAvailable,
    PermissionDenied,
    Other,
}

/// An I/O failure: its kind and a description of the cause.
#[derive(Clone, Debug)]
pub struct IoFailure {
    pub kind: IoKind,
    pub detail: String,
}

/// The closed set of failures that every component reports through.
#[derive(Clone, Debug)]
pub enum ServiceError {
    /// A required setting is missing or a setting does not parse.
    ConfigError(String),
    /// The RPC transport could not be set up or broke down.
    GrpcTransportError(String),
    /// A status that an RPC handler produced, passed on as it is.
    GrpcStatus(RpcStatus),
    /// A signaling message or URI that could not be understood.
    SipParseError(String),
    /// A socket or other I/O failure.
    Io(IoFailure),
}

/// The status code that an error is reported under at the RPC boundary.
pub open spec fn status_code_of(e: ServiceError) -> RpcCode {
    match e {
        ServiceError::GrpcStatus(s) => s.code,
        ServiceError::SipParseError(_) => RpcCode::InvalidArgument,
        ServiceError::GrpcTransportError(_) => RpcCode::Unavailable,
        _ => RpcCode::Internal,
    }
}

impl IoKind {
    /// Whether a failure of this kind is transient: it concerns one exchange
    /// or one attempt, not the socket, and the operation may be retried.
    pub open spec fn spec_is_transient(self) -> bool {
        self == IoKind::Interrupted || self == IoKind::WouldBlock || self == IoKind::ConnectionRefused
            || self == IoKind::ConnectionReset
    }

    pub fn is_transient(&self) -> (r: bool)
        ensures
            r == self.spec_is_transient(),
    {
        matches!(
            self,
            IoKind::Interrupted | IoKind::WouldBlock | IoKind::ConnectionRefused | IoKind::ConnectionReset
        )
    }
}

impl ServiceError {
    /// The status handed back to an RPC caller for this error. A status is passed
    /// on unchanged; a parse failure becomes an invalid argument and a transport
    /// failure an unavailable service, each with a prefix that names the failure
    /// before its text; anything else becomes an internal error.
    pub fn to_status(self) -> (r: RpcStatus)
        ensures
            r.code == status_code_of(self),
            self matches ServiceError::GrpcStatus(s) ==> r == s,
            self matches ServiceError::SipParseError(m) ==> r.message@ == "Geçersiz SIP: "@ + m@,
            self matches ServiceError::GrpcTransportError(m) ==> r.message@ == "gRPC bağlantı hatası: "@
                + m@,
            self matches ServiceError::ConfigError(m) ==> r.message@ == m@,
            self matches ServiceError::Io(f) ==> r.message@ == f.detail@,
    {
        match self {
            ServiceError::GrpcStatus(s) => s,
            ServiceError::SipParseError(m) => RpcStatus {
                code: RpcCode::InvalidArgument,
                message: "Geçersiz SIP: ".to_owned().concat(m.as_str()),
            },
            ServiceError::GrpcTransportError(m) => RpcStatus {
                code: RpcCode::Unavailable,
                message: "gRPC bağlantı hatası: ".to_owned().concat(m.as_str()),
            },
            ServiceError::ConfigError(m) => RpcStatus { code: RpcCode::Internal, message: m },
            ServiceError::Io(f) => RpcStatus { code: RpcCode::Internal, message: f.detail },
        }
    }
}

} // verus!
