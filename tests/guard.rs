use std::cell::RefCell;

use hitrace::trace::{NoSink, ScopedTrace, SpanSink};

/// Test double for the sink that writes down every start and finish.
struct Recorder<'a> {
    log: &'a RefCell<Vec<String>>,
}

impl SpanSink for Recorder<'_> {
    type Span = Self;

    fn open_span(self, name: &[u8]) -> Self {
        let text = String::from_utf8(name.to_vec()).expect("utf-8 name");
        self.log.borrow_mut().push(format!("start {:?}", text));
        self
    }
}

impl Drop for Recorder<'_> {
    fn drop(&mut self) {
        self.log.borrow_mut().push(String::from("finish"));
    }
}

#[test]
fn guard_starts_then_finishes_once() {
    let log = RefCell::new(Vec::new());
    {
        let _guard = ScopedTrace::start_trace_str(Recorder { log: &log }, "step1");
        assert_eq!(*log.borrow(), vec![String::from("start \"step1\\0\"")]);
    }
    assert_eq!(
        *log.borrow(),
        vec![String::from("start \"step1\\0\""), String::from("finish")]
    );
}

fn leave_early(log: &RefCell<Vec<String>>, early: bool) -> u32 {
    let _guard = ScopedTrace::start_trace_str(Recorder { log }, "work");
    if early {
        return 1;
    }
    log.borrow_mut().push(String::from("body"));
    2
}

#[test]
fn guard_finishes_on_early_return() {
    let log = RefCell::new(Vec::new());
    assert_eq!(leave_early(&log, true), 1);
    assert_eq!(
        *log.borrow(),
        vec![String::from("start \"work\\0\""), String::from("finish")]
    );
}

#[test]
fn guard_finishes_after_body() {
    let log = RefCell::new(Vec::new());
    assert_eq!(leave_early(&log, false), 2);
    assert_eq!(
        *log.borrow(),
        vec![
            String::from("start \"work\\0\""),
            String::from("body"),
            String::from("finish")
        ]
    );
}

#[test]
fn nested_guards_finish_in_reverse_order() {
    let log = RefCell::new(Vec::new());
    {
        let _outer = ScopedTrace::start_trace(Recorder { log: &log }, b"LoadingWebsite\0");
        {
            let _inner = ScopedTrace::start_trace(Recorder { log: &log }, b"step1\0");
        }
        let _second = ScopedTrace::start_trace_str(Recorder { log: &log }, "step2");
    }
    assert_eq!(
        *log.borrow(),
        vec![
            String::from("start \"LoadingWebsite\\0\""),
            String::from("start \"step1\\0\""),
            String::from("finish"),
            String::from("start \"step2\\0\""),
            String::from("finish"),
            String::from("finish")
        ]
    );
}

#[test]
fn name_with_terminator_is_passed_unchanged() {
    let log = RefCell::new(Vec::new());
    {
        let _guard = ScopedTrace::_start_trace_str_with_null(Recorder { log: &log }, "app::do_work\0");
    }
    assert_eq!(
        *log.borrow(),
        vec![String::from("start \"app::do_work\\0\""), String::from("finish")]
    );
}

#[test]
fn guard_over_no_sink() {
    let guard = ScopedTrace::start_trace_str(NoSink, "idle");
    drop(guard);
}

trait AmbiguousIfSend<A> {
    fn some_item() {}
}

impl<T: ?Sized> AmbiguousIfSend<()> for T {}

struct SendMarker;

impl<T: ?Sized + Send> AmbiguousIfSend<SendMarker> for T {}

trait AmbiguousIfSync<A> {
    fn some_item() {}
}

impl<T: ?Sized> AmbiguousIfSync<()> for T {}

struct SyncMarker;

impl<T: ?Sized + Sync> AmbiguousIfSync<SyncMarker> for T {}

#[test]
fn guard_is_neither_send_nor_sync() {
    // Each line names one impl only where the guard is not Send (not Sync);
    // otherwise the call is ambiguous and this file does not compile.
    let _ = <ScopedTrace<NoSink> as AmbiguousIfSend<_>>::some_item;
    let _ = <ScopedTrace<NoSink> as AmbiguousIfSync<_>>::some_item;
}
