//! The errors that the client reports.

use vstd::prelude::*;
use crate::messaging::error::Exception;
use crate::messaging::error::ExceptionView;

verus! {

/// The ways in which bytes can break the wire protocol.
#[derive(Clone, Copy, Debug, PartialEq, Eq, Structural)]
pub enum Violation {
    /// Fewer bytes were left than a field needs.
    Truncated,
    /// The bytes of a string are not UTF-8.
    InvalidUtf8,
    /// A frame's data offset lies inside its fixed header.
    DataOffset,
    /// A message of a type that was not expected.
    UnexpectedMessageType,
    /// A length that does not fit the 32 bits the wire has for it.
    LengthOverflow,
    /// A favourable authentication that leaves out who the member is.
    MissingIdentity,
}

/// What can go wrong for the caller of a client operation.
#[derive(Debug, PartialEq, Eq)]
pub enum HazelcastClientError {
    /// The cluster refused the credentials; the status text is attached.
    AuthenticationFailure(String),
    /// The member asked for is not among the enabled ones.
    NodeNonOperational,
    /// No member is enabled.
    ClusterNonOperational,
    /// The connection failed; the cause is attached.
    CommunicationFailure(String),
    /// The server could not process the request; what it sent is attached.
    ServerFailure(Exception),
    /// Bytes or messages that break the wire protocol.
    ProtocolViolation(Violation),
}

/// What a `HazelcastClientError` holds.
pub enum ErrorView {
    AuthenticationFailure(Seq<char>),
    NodeNonOperational,
    ClusterNonOperational,
    CommunicationFailure(Seq<char>),
    ServerFailure(ExceptionView),
    ProtocolViolation(Violation),
}

impl DeepView for HazelcastClientError {
    type V = ErrorView;

    open spec fn deep_view(&self) -> ErrorView {
        match self {
            HazelcastClientError::AuthenticationFailure(status) => ErrorView::AuthenticationFailure(
                status@,
            ),
            HazelcastClientError::NodeNonOperational => ErrorView::NodeNonOperational,
            HazelcastClientError::ClusterNonOperational => ErrorView::ClusterNonOperational,
            HazelcastClientError::CommunicationFailure(cause) => ErrorView::CommunicationFailure(
                cause@,
            ),
            HazelcastClientError::ServerFailure(exception) => ErrorView::ServerFailure(
                exception.deep_view(),
            ),
            HazelcastClientError::ProtocolViolation(violation) => ErrorView::ProtocolViolation(
                *violation,
            ),
        }
    }
}

/// How a result answers to what was owed: a value with the view that was
/// owed, or an error with the view that was owed.
pub open spec fn answers<T: DeepView>(
    owed: Result<T::V, ErrorView>,
    result: Result<T, HazelcastClientError>,
) -> bool {
    match owed {
        Ok(value) => result is Ok && result->Ok_0.deep_view() == value,
        Err(error) => result is Err && result->Err_0.deep_view() == error,
    }
}

} // verus!
