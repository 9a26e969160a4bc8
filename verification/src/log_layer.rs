//! The request-logging layer: classifies each response's status code into
//! the label the pipeline prints beside the request line.
//!
//! Classification checks success first, as the surrounding pipeline does, so
//! a code outside every standard range falls through to the internal-error
//! label; a response that never arrived is reported the same way.

use vstd::prelude::*;

verus! {

/// The family a response status code falls in.
#[derive(Clone, Copy, Debug, PartialEq, Eq, Structural)]
pub enum StatusClass {
    /// 200..=299.
    Success,
    /// 100..=199.
    Informational,
    /// 300..=399.
    Redirection,
    /// 400..=499.
    ClientError,
    /// 500..=599.
    ServerError,
    /// Anything else, and a call that produced no response at all.
    Internal,
}

/// The family of `code`, success checked first.
pub open spec fn classify_spec(code: u16) -> StatusClass {
    if 200 <= code && code < 300 {
        StatusClass::Success
    } else if 100 <= code && code < 200 {
        StatusClass::Informational
    } else if 300 <= code && code < 400 {
        StatusClass::Redirection
    } else if 400 <= code && code < 500 {
        StatusClass::ClientError
    } else if 500 <= code && code < 600 {
        StatusClass::ServerError
    } else {
        StatusClass::Internal
    }
}

/// The label printed for each status family.
pub open spec fn label_spec(class: StatusClass) -> Seq<char> {
    match class {
        StatusClass::Success => "SUCCESS"@,
        StatusClass::Informational => "INFORMATION"@,
        StatusClass::Redirection => "REDIRECTION"@,
        StatusClass::ClientError => "CLIENT ERROR"@,
        StatusClass::ServerError => "SERVER ERROR"@,
        StatusClass::Internal => "INTERNAL ERROR"@,
    }
}

/// Classifies a response status code.
pub fn classify_status(code: u16) -> (class: StatusClass)
    ensures
        class == classify_spec(code),
{
    if 200 <= code && code < 300 {
        StatusClass::Success
    } else if 100 <= code && code < 200 {
        StatusClass::Informational
    } else if 300 <= code && code < 400 {
        StatusClass::Redirection
    } else if 400 <= code && code < 500 {
        StatusClass::ClientError
    } else if 500 <= code && code < 600 {
        StatusClass::ServerError
    } else {
        StatusClass::Internal
    }
}

/// The label printed for `class`.
pub fn status_label(class: StatusClass) -> (label: &'static str)
    ensures
        label@ == label_spec(class),
{
    match class {
        StatusClass::Success => "SUCCESS",
        StatusClass::Informational => "INFORMATION",
        StatusClass::Redirection => "REDIRECTION",
        StatusClass::ClientError => "CLIENT ERROR",
        StatusClass::ServerError => "SERVER ERROR",
        StatusClass::Internal => "INTERNAL ERROR",
    }
}

/// The request-logging middleware: wraps a downstream handler and logs one
/// line per completed request.
#[derive(Clone)]
pub struct Log<T> {
    /// The wrapped downstream handler.
    pub inner: T,
}

impl<T> Log<T> {
    /// Wraps `inner`; every request and its response pass through unchanged.
    pub fn new(inner: T) -> (service: Self)
        ensures
            service.inner == inner,
    {
        Log { inner }
    }
}

/// Builds the logging middleware around a downstream handler.
#[derive(Clone)]
pub struct LogLayer;

impl LogLayer {
    /// Wraps `inner` in a [`Log`].
    pub fn layer<S>(&self, inner: S) -> (service: Log<S>)
        ensures
            service.inner == inner,
    {
        Log::new(inner)
    }
}

} // verus!
