use vstd::prelude::*;
use crate::greeting::GreetingError;

verus! {

/// The serving layer's task-error taxonomy, as far as this core
/// produces it.  Transport failures carry the transport's own message.
#[derive(Debug)]
pub enum ServerTaskError {
    /// An application-level exchange with the upstream hit a deadline.
    UpstreamAppTimeout(&'static str),
    /// The upstream spoke the application protocol wrongly.
    UpstreamAppError(&'static str),
    /// A write toward the client failed.
    ClientTcpWriteFailed(String),
    /// A read from the upstream failed.
    UpstreamReadFailed(String),
    /// The upstream closed the connection; an expected end of session.
    ClosedByUpstream,
    /// The connection was torn down by policy, not by a failure.
    InternalAdapterError(&'static str),
}

/// The task error each greeting failure converts into at the boundary
/// of this core.
pub open spec fn task_error_of(g: GreetingError) -> ServerTaskError {
    match g {
        GreetingError::Timeout => ServerTaskError::UpstreamAppTimeout("smtp greeting timeout"),
        GreetingError::InvalidResponseLine(_) => ServerTaskError::UpstreamAppError(
            "invalid greeting response line",
        ),
        GreetingError::TooLongResponseLine => ServerTaskError::UpstreamAppError(
            "response line too long",
        ),
        GreetingError::UnexpectedReplyCode(_) => ServerTaskError::UpstreamAppError(
            "unknown reply code in greeting stage",
        ),
        GreetingError::NoHostField => ServerTaskError::UpstreamAppError(
            "no host found in smtp greeting message",
        ),
        GreetingError::UnsupportedHostFormat => ServerTaskError::UpstreamAppError(
            "unsupported host in smtp greeting message",
        ),
        GreetingError::ClientWriteFailed(e) => ServerTaskError::ClientTcpWriteFailed(e),
        GreetingError::UpstreamReadFailed(e) => ServerTaskError::UpstreamReadFailed(e),
        GreetingError::UpstreamClosed => ServerTaskError::ClosedByUpstream,
    }
}

impl From<GreetingError> for ServerTaskError {
    /// Converts a greeting failure into the serving layer's taxonomy,
    /// keeping the transport messages of client-write and
    /// upstream-read failures.
    fn from(value: GreetingError) -> (r: Self)
        ensures
            r == task_error_of(value),
    {
        match value {
            GreetingError::Timeout => ServerTaskError::UpstreamAppTimeout("smtp greeting timeout"),
            GreetingError::InvalidResponseLine(_) => ServerTaskError::UpstreamAppError(
                "invalid greeting response line",
            ),
            GreetingError::TooLongResponseLine => ServerTaskError::UpstreamAppError(
                "response line too long",
            ),
            GreetingError::UnexpectedReplyCode(_) => ServerTaskError::UpstreamAppError(
                "unknown reply code in greeting stage",
            ),
            GreetingError::NoHostField => ServerTaskError::UpstreamAppError(
                "no host found in smtp greeting message",
            ),
            GreetingError::UnsupportedHostFormat => ServerTaskError::UpstreamAppError(
                "unsupported host in smtp greeting message",
            ),
            GreetingError::ClientWriteFailed(e) => ServerTaskError::ClientTcpWriteFailed(e),
            GreetingError::UpstreamReadFailed(e) => ServerTaskError::UpstreamReadFailed(e),
            GreetingError::UpstreamClosed => ServerTaskError::ClosedByUpstream,
        }
    }
}

impl vstd::std_specs::convert::FromSpecImpl<GreetingError> for ServerTaskError {
    open spec fn obeys_from_spec() -> bool {
        true
    }

    open spec fn from_spec(v: GreetingError) -> Self {
        task_error_of(v)
    }
}

} // verus!
