use core::marker::PhantomData;
use std::rc::Rc;
use vstd::prelude::*;
use vstd::string::StringSliceAdditionalSpecFns;

use crate::name::{has_no_nul, is_c_name, to_c_name};

verus! {

/// A per-thread span stack that spans are started on and finished from.
/// Opening a span hands back a token; dropping the token closes the most
/// recently opened span that is still open on the calling thread.
pub trait SpanSink {
    /// What keeps one span open; its drop finishes the span.
    type Span;

    /// Opens a span named `name`, a C string, and returns the token that
    /// finishes it when dropped.
    fn open_span(self, name: &[u8]) -> Self::Span
        requires
            is_c_name(name@),
    ;
}

/// The sink where the platform has no tracing: opening and dropping do
/// nothing.
pub struct NoSink;

impl SpanSink for NoSink {
    type Span = NoSink;

    fn open_span(self, _name: &[u8]) -> NoSink {
        self
    }
}

/// One open span: constructing it opens the span on `S` and keeps the
/// sink's token, so that dropping the guard finishes that span, on every way
/// out of the scope that holds it.
///
/// Spans form a stack per thread, and a finish closes the most recent one:
/// a guard should not be mixed with manual finishes nor be passed around.
/// It is neither `Send` nor `Sync`, so it is finished on the thread that
/// started it.
pub struct ScopedTrace<S: SpanSink> {
    span: Ghost<Seq<u8>>,
    token: S::Span,
    thread_bound: PhantomData<Rc<()>>,
}

impl<S: SpanSink> ScopedTrace<S> {
    /// The C name of the span that this guard keeps open.
    pub closed spec fn span_name(&self) -> Seq<u8> {
        self.span@
    }

    /// Starts a span named `name`, a C string, on `sink`; the span ends when
    /// the returned guard is dropped.
    #[must_use]
    pub fn start_trace(sink: S, name: &[u8]) -> (r: Self)
        requires
            is_c_name(name@),
        ensures
            r.span_name() == name@,
    {
        let token = sink.open_span(name);
        ScopedTrace { span: Ghost(name@), token, thread_bound: PhantomData }
    }

    /// Like `start_trace`, for a name without its terminator, which must hold
    /// no NUL byte.
    #[must_use]
    pub fn start_trace_str(sink: S, name: &str) -> (r: Self)
        requires
            has_no_nul(name.spec_bytes()),
        ensures
            r.span_name() == name.spec_bytes().push(0),
    {
        let c_name = to_c_name(name).unwrap();
        Self::start_trace(sink, c_name.as_slice())
    }

    /// Like `start_trace`, for a name that already ends in its terminator and
    /// holds no other NUL byte, such as one built at compile time.
    #[must_use]
    pub fn _start_trace_str_with_null(sink: S, name_with_null: &str) -> (r: Self)
        requires
            is_c_name(name_with_null.spec_bytes()),
        ensures
            r.span_name() == name_with_null.spec_bytes(),
    {
        Self::start_trace(sink, name_with_null.as_bytes())
    }
}

} // verus!
