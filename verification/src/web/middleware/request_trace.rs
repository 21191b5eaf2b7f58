//! Request tracing: a note on each request that says whether its route is to
//! be traced, handed on with the response.

use vstd::prelude::*;

verus! {

/// `http::Method`: the method of a request.
#[verifier::external_type_specification]
#[verifier::external_body]
pub struct ExMethod(http::Method);

/// `http::Uri`: the URI of a request.
#[verifier::external_type_specification]
#[verifier::external_body]
pub struct ExUri(http::Uri);

/// Decides which requests are traced.
pub trait RequestTrace {
    /// Whether requests to the route that matched, if one did, are traced.
    fn is_traced(&self, path: Option<&str>) -> bool;

    /// Whether tracing is on at all, which it is unless the tracer says
    /// otherwise.
    fn enabled(&self) -> (out: bool)
        default_ensures
            out,
    {
        true
    }
}

/// A struct contain Http request info.
#[derive(Debug)]
pub struct RequestTraceData {
    /// Indicate that request trace should be shown for route.
    pub trace: bool,
    /// Request method.
    pub method: http::Method,
    /// Request uri.
    pub uri: http::Uri,
}

/// Middleware that adds [`RequestTraceData`] to response extension.
pub struct RequestTraceService<S, F> {
    pub inner: S,
    pub make_tracer: F,
}

/// Layer that adds [`RequestTraceData`] to response extension.
pub struct RequestTraceLayer<F> {
    pub make_tracer: F,
}

/// Where the future of a traced request stands.
#[derive(Clone, Copy, Debug, PartialEq, Eq, Structural)]
pub enum FutureState {
    Polling,
    Finished,
}

impl<F> RequestTraceLayer<F> {
    pub fn new(make_tracer: F) -> (out: Self)
        ensures
            out.make_tracer == make_tracer,
    {
        Self { make_tracer }
    }

    /// The service that wraps `inner`, with a tracer factory of its own.
    pub fn layer<S>(&self, inner: S) -> (out: RequestTraceService<S, F>) where F: Clone
        ensures
            out.inner == inner,
    {
        RequestTraceService { inner, make_tracer: self.make_tracer.clone() }
    }
}

/// The note on a request, given what the tracer said. With tracing off there
/// is none, and the tracer is not asked about the route.
pub open spec fn note(enabled: bool, trace: bool, method: http::Method, uri: http::Uri) -> Option<
    RequestTraceData,
> {
    if enabled {
        Some(RequestTraceData { trace, method, uri })
    } else {
        None
    }
}

/// The note on a request to the route `matched_path`, by `tracer`.
pub fn request_trace<T: RequestTrace>(
    tracer: &T,
    matched_path: Option<&str>,
    method: http::Method,
    uri: http::Uri,
) -> (out: Option<RequestTraceData>)
    ensures
        exists|enabled: bool, trace: bool| out == note(enabled, trace, method, uri),
{
    let enabled = tracer.enabled();
    if enabled {
        let trace = tracer.is_traced(matched_path);
        assert(note(enabled, trace, method, uri) == Some(RequestTraceData { trace, method, uri }));
        Some(RequestTraceData { trace, method, uri })
    } else {
        assert(note(enabled, false, method, uri) is None);
        None
    }
}

/// What is attached to the response when the inner service is done: the
/// note, where there is one and the service succeeded. The note is attached
/// at most once, and the future is finished.
pub fn finish(
    state: &mut FutureState,
    request_trace: &mut Option<RequestTraceData>,
    succeeded: bool,
) -> (out: Option<RequestTraceData>)
    requires
        *old(state) == FutureState::Polling,
    ensures
        *final(state) == FutureState::Finished,
        out == if succeeded {
            *old(request_trace)
        } else {
            None
        },
        *final(request_trace) == if succeeded {
            None
        } else {
            *old(request_trace)
        },
{
    *state = FutureState::Finished;
    if succeeded {
        request_trace.take()
    } else {
        None
    }
}

} // verus!
