use git2_filters::filter::attributes::{attr_values, requested};
use git2_filters::filter::custom::{
    filter_check_cb, filter_cleanup_cb, filter_init_cb, filter_shutdown_cb,
    filter_stream_cb, filter_stream_close_cb, filter_stream_write_cb, FilterRegistration,
    PayloadUpdate, RawFilter, RawFilterStream,
};
use git2_filters::filter::stream::{NextStreamWriter, WriteStreamCollector};
use git2_filters::{
    filter_priority, lookup_filter, register_filter, unregister_filter, CString, Downstream, Error,
    Filter, FilterSource, FilterStream, IoError, IoErrorKind, LastError, Reply,
};

/// The filters that libgit2 knows, each with its priority.
struct Registry {
    names: Vec<(Vec<u8>, i32)>,
}

impl Registry {
    fn new() -> Registry {
        Registry { names: vec![(b"crlf".to_vec(), 0), (b"ident".to_vec(), 100)] }
    }

    fn lookup(&self, name: CString) -> usize {
        let bytes = name.to_bytes();
        self.names.iter().position(|n| n.0 == bytes).map_or(0, |i| i + 1)
    }

    fn register<T>(&mut self, name: &CString, priority: i32, kept: T) -> Reply<T> {
        let bytes = name.to_bytes();
        if self.names.iter().any(|n| n.0 == bytes) {
            let message = "attempt to reregister existing filter".to_string();
            return Reply { rc: -4, last_error: Some(LastError { klass: 30, message }), out: kept };
        }
        self.names.push((bytes, priority));
        Reply { rc: 0, last_error: None, out: kept }
    }

    fn unregister(&mut self, name: CString) -> Reply<()> {
        match self.lookup(name) {
            0 => Reply { rc: -3, last_error: None, out: () },
            at => {
                self.names.remove(at - 1);
                Reply { rc: 0, last_error: None, out: () }
            }
        }
    }
}

/// A filter that turns text upper case.
struct Shout {
    attributes: &'static str,
    inits: u32,
}

struct ShoutStream {
    buffer: Vec<u8>,
}

impl Filter for Shout {
    type Payload = u32;
    type Stream = ShoutStream;

    fn attributes(&self) -> &str {
        self.attributes
    }

    fn initialize(&mut self) -> Result<(), Error> {
        self.inits += 1;
        if self.inits == 1 {
            Err(Error::from_str("not yet"))
        } else {
            Ok(())
        }
    }

    fn check(
        &mut self,
        source: &FilterSource,
        attr_values: &[CString],
    ) -> Result<Option<u32>, Error> {
        match source.path() {
            Some(path) if path.ends_with(b".txt") => Ok(Some(attr_values.len() as u32)),
            Some(_) => Ok(None),
            None => Err(Error::from_str("no path")),
        }
    }

    fn stream<N: Downstream>(
        &mut self,
        _source: &FilterSource,
        payload: &mut Option<u32>,
        _next: &mut N,
    ) -> Result<ShoutStream, Error> {
        *payload = payload.map(|p| p + 1);
        Ok(ShoutStream { buffer: Vec::new() })
    }
}

impl FilterStream for ShoutStream {
    fn write_with_next<N: Downstream>(
        &mut self,
        buf: &[u8],
        _next: &mut N,
    ) -> Result<usize, IoError> {
        self.buffer.extend_from_slice(buf);
        Ok(buf.len())
    }

    fn close_with_next<N: Downstream>(&mut self, next: &mut N) -> Result<(), Error> {
        let shouted = self.buffer.to_ascii_uppercase();
        match next.write(&shouted) {
            Ok(_) => Ok(()),
            Err(e) => Err(e.into_error()),
        }
    }
}

/// A stream that passes everything on at once and has nothing to do at the end.
struct Direct;

impl FilterStream for Direct {
    fn write_with_next<N: Downstream>(
        &mut self,
        buf: &[u8],
        next: &mut N,
    ) -> Result<usize, IoError> {
        next.write(buf)
    }
}

struct Memory {
    data: Vec<u8>,
}

impl Downstream for Memory {
    fn write(&mut self, buf: &[u8]) -> Result<usize, IoError> {
        self.data.extend_from_slice(buf);
        Ok(buf.len())
    }

    fn flush(&mut self) -> Result<(), IoError> {
        Ok(())
    }
}

/// The end of a chain: a collector, reached through its stream's callbacks.
struct Tail {
    collector: WriteStreamCollector,
}

impl Downstream for Tail {
    fn write(&mut self, buf: &[u8]) -> Result<usize, IoError> {
        NextStreamWriter::write(buf, Some(|buf: &[u8]| self.collector.write_callback(buf)))
    }

    fn flush(&mut self) -> Result<(), IoError> {
        NextStreamWriter::flush()
    }
}

fn shout() -> Shout {
    Shout { attributes: "shout text", inits: 0 }
}

fn source(path: &str) -> FilterSource {
    FilterSource::from_raw(Some(path.as_bytes().to_vec()), 0o644, None, 0, 0)
}

fn no_array() -> Option<fn(usize) -> Option<CString>> {
    None
}

fn raw_filter() -> RawFilter {
    RawFilter::new(CString::new(b"shout text").unwrap())
}

#[test]
fn test_lookup_builtin_filters() {
    let registry = Registry::new();
    // The crlf and ident filters should be registered by default
    assert!(lookup_filter("crlf", |name| registry.lookup(name)), "crlf filter should exist");
    assert!(lookup_filter("ident", |name| registry.lookup(name)), "ident filter should exist");
    assert!(
        !lookup_filter("nonexistent", |name| registry.lookup(name)),
        "nonexistent filter should not exist"
    );
}

#[test]
fn register_lookup_unregister_filter() {
    let mut registry = Registry::new();
    let kept = register_filter(
        "shout",
        shout(),
        filter_priority::DRIVER,
        |request: FilterRegistration, filter: Shout| {
            assert_eq!(request.filter.version, 1);
            assert_eq!(request.filter.attributes.as_bytes_with_nul(), b"shout text\0");
            assert!(!request.filter.initialized);
            registry.register(&request.name, request.priority, filter)
        },
    )
    .unwrap();
    assert_eq!(kept.inits, 0);
    assert_eq!(registry.names.last().unwrap(), &(b"shout".to_vec(), 200));
    assert!(lookup_filter("shout", |name| registry.lookup(name)));
    unregister_filter("shout", |name| registry.unregister(name)).unwrap();
    assert!(!lookup_filter("shout", |name| registry.lookup(name)));
    let e = unregister_filter("shout", |name| registry.unregister(name)).unwrap_err();
    assert_eq!((e.code, e.message()), (-3, "an unknown git error occurred"));
}

#[test]
fn register_existing_filter_fails() {
    let mut registry = Registry::new();
    let e = register_filter("crlf", shout(), 0, |request: FilterRegistration, _: Shout| {
        registry.register(&request.name, request.priority, ())
    })
    .unwrap_err();
    assert_eq!((e.code, e.klass), (-4, 30));
    assert_eq!(e.message(), "attempt to reregister existing filter");
}

#[test]
fn nul_in_names_and_attributes() {
    let refuse = |_: FilterRegistration, _: Shout| -> Reply<()> {
        panic!("the call must not be made")
    };
    let nul = "data contained a nul byte that could not be represented as a string";
    let e = register_filter("a\0b", shout(), 0, refuse).unwrap_err();
    assert_eq!(e.message(), nul);
    let odd = Shout { attributes: "a\0", inits: 0 };
    let e = register_filter("shout", odd, 0, refuse).unwrap_err();
    assert_eq!(e.message(), nul);
    let e = unregister_filter("a\0b", |_| panic!("the call must not be made")).unwrap_err();
    assert_eq!(e.message(), nul);
    assert!(!lookup_filter("a\0b", |_| panic!("the call must not be made")));
}

#[test]
fn initialize_until_it_succeeds() {
    let mut raw = raw_filter();
    let mut filter = shout();
    assert_eq!(filter_init_cb(&mut raw, || Some(filter.initialize())), -1);
    assert!(!raw.initialized);
    assert_eq!(filter_init_cb(&mut raw, || None), -1);
    assert!(!raw.initialized);
    assert_eq!(filter_init_cb(&mut raw, || Some(filter.initialize())), 0);
    assert!(raw.initialized);
    assert_eq!(filter_init_cb(&mut raw, || panic!("must not run again")), 0);
    assert_eq!(filter.inits, 2);
}

#[test]
fn shutdown_runs() {
    let mut ran = false;
    filter_shutdown_cb(raw_filter(), || {
        ran = true;
        None
    });
    assert!(ran);
}

#[test]
fn requested_attributes_are_counted() {
    let count = |text: &[u8]| requested(&CString::new(text).unwrap());
    assert_eq!(count(b""), 0);
    assert_eq!(count(b" \t\n\x0b\x0c\r"), 0);
    assert_eq!(count(b"shout"), 1);
    assert_eq!(count(b"a b"), 2);
    assert_eq!(count(b"  one\ttwo\n three "), 3);
    assert_eq!(count("\u{e9}t\u{e9} \u{a0}".as_bytes()), 2);
    // Two lists with white space between them hold the names of both.
    assert_eq!(count(b"a b \rc"), count(b"a b") + count(b"\rc"));
}

#[test]
fn attribute_values_are_those_of_all_requested_attributes() {
    let array = [Some("a"), Some("b"), None, Some("c")];
    let read = |i: usize| array[i].map(|s| CString::new(s.as_bytes()).unwrap());
    let bytes = |requested: usize| -> Vec<Vec<u8>> {
        attr_values(Some(read), requested).iter().map(|v| v.to_bytes()).collect()
    };
    assert_eq!(bytes(4), [b"a", b"b", b"c"]);
    assert_eq!(bytes(3), [b"a", b"b"]);
    assert!(bytes(0).is_empty());
    assert!(attr_values(no_array(), 4).is_empty());
}

#[test]
fn check_gets_a_value_behind_one_that_is_missing() {
    let filter = RawFilter::new(CString::new(b"a b").unwrap());
    let array = [None, Some("x")];
    let read = |i: usize| array[i].map(|s| CString::new(s.as_bytes()).unwrap());
    let reply = filter_check_cb(&filter, &source("a.txt"), Some(read), |_, values| {
        assert_eq!(values.len(), 1);
        assert_eq!(values[0].to_bytes(), b"x");
        Some(Ok(Some(())))
    });
    assert_eq!(reply.code, 0);
}

#[test]
fn check_decides() {
    let mut filter = shout();
    let array = [Some("x"), None];
    let read = |i: usize| array[i].map(|s| CString::new(s.as_bytes()).unwrap());
    let reply = filter_check_cb(&raw_filter(), &source("a.txt"), Some(read), |src, values| {
        Some(filter.check(src, values))
    });
    assert_eq!(reply.code, 0);
    assert!(matches!(reply.payload, PayloadUpdate::Store(Some(1))));
    let reply = filter_check_cb(&raw_filter(), &source("a.bin"), no_array(), |src, values| {
        Some(filter.check(src, values))
    });
    assert_eq!(reply.code, -30);
    assert!(matches!(reply.payload, PayloadUpdate::Store(None)));
    let bare = FilterSource::from_raw(None, 0, None, 0, 0);
    let reply = filter_check_cb(&raw_filter(), &bare, no_array(), |src, values| Some(filter.check(src, values)));
    assert_eq!(reply.code, -1);
    assert!(matches!(reply.payload, PayloadUpdate::Keep));
    let reply = filter_check_cb(&raw_filter(), &bare, no_array(), |_, _| -> Option<Result<Option<u32>, Error>> {
        None
    });
    assert_eq!(reply.code, -1);
    assert!(matches!(reply.payload, PayloadUpdate::Keep));
}

#[test]
fn payload_goes_from_check_to_stream_to_cleanup() {
    let mut filter = shout();
    let mut next = Memory { data: Vec::new() };
    let src = source("a.txt");
    let reply = filter_check_cb(&raw_filter(), &src, no_array(), |s, values| Some(filter.check(s, values)));
    let payload = match reply.payload {
        PayloadUpdate::Store(p) => p,
        PayloadUpdate::Keep => panic!("no payload"),
    };
    assert_eq!(payload, Some(0));
    let reply = filter_stream_cb(&src, payload, |s, p| {
        let mut p = p;
        let stream = filter.stream(s, &mut p, &mut next);
        (Some(stream), p)
    });
    assert_eq!(reply.code, 0);
    assert!(reply.stream.unwrap().1.last_error.is_none());
    assert_eq!(reply.payload, Some(1));
    let mut cleaned = None;
    filter_cleanup_cb(reply.payload, |p| {
        cleaned = p;
        Some(())
    });
    assert_eq!(cleaned, Some(1));
}

#[test]
fn stream_failure() {
    let src = source("a.txt");
    let reply = filter_stream_cb(&src, Some(1u32), |_, p| {
        (Some(Err::<(), Error>(Error::from_str("no"))), p)
    });
    assert_eq!(reply.code, -1);
    assert!(reply.stream.is_none());
    assert_eq!(reply.payload, None);
    let reply = filter_stream_cb(&src, Some(1u32), |_, p| (None::<Result<(), Error>>, p));
    assert_eq!((reply.code, reply.stream.is_none()), (-1, true));
}

#[test]
fn stream_write_and_close() {
    let mut state = RawFilterStream { last_error: None };
    let mut stream = ShoutStream { buffer: Vec::new() };
    let mut next = Memory { data: Vec::new() };
    for chunk in [b"Hello ".as_slice(), b"World".as_slice()] {
        let rc = filter_stream_write_cb(&mut state, chunk, |buf| {
            Some(stream.write_with_next(buf, &mut next))
        });
        assert_eq!(rc, 0);
    }
    let mut closed = false;
    let rc = filter_stream_close_cb(
        &mut state,
        || Some(stream.close_with_next(&mut next)),
        Some(|| {
            closed = true;
            0
        }),
    );
    assert_eq!(rc, 0);
    assert!(closed);
    assert_eq!(next.data, b"HELLO WORLD");
    assert!(state.last_error.is_none());
}

#[test]
fn chunks_go_down_the_chain() {
    let mut state = RawFilterStream { last_error: None };
    let mut stream = ShoutStream { buffer: Vec::new() };
    let mut tail = Tail { collector: WriteStreamCollector::new() };
    for chunk in [b"Hel".as_slice(), b"".as_slice(), b"lo\n".as_slice()] {
        let rc = filter_stream_write_cb(&mut state, chunk, |buf| {
            Some(stream.write_with_next(buf, &mut tail))
        });
        assert_eq!(rc, 0);
    }
    let outcome = stream.close_with_next(&mut tail);
    let rc = filter_stream_close_cb(
        &mut state,
        || Some(outcome),
        Some(|| tail.collector.close_callback()),
    );
    assert_eq!(rc, 0);
    assert!(tail.flush().is_ok());
    assert_eq!(tail.collector.into_data(), b"HELLO\n");
}

#[test]
fn default_close_does_nothing() {
    let mut next = Memory { data: Vec::new() };
    let mut stream = Direct;
    stream.write_with_next(b"abc", &mut next).unwrap();
    assert!(stream.close_with_next(&mut next).is_ok());
    assert_eq!(next.data, b"abc");
}

#[test]
fn write_errors_are_kept() {
    let mut state = RawFilterStream { last_error: None };
    let broken = IoError { kind: IoErrorKind::Writer, message: "broken".to_string() };
    assert_eq!(filter_stream_write_cb(&mut state, b"x", |_| Some(Err(broken))), -1);
    assert_eq!(state.last_error.as_ref().unwrap().message, "broken");
    assert_eq!(filter_stream_write_cb(&mut state, b"x", |_| Some(Ok(0))), 0);
    assert_eq!(state.last_error.as_ref().unwrap().message, "broken");
    assert_eq!(filter_stream_write_cb(&mut state, b"x", |_| None), -1);
    let e = state.last_error.unwrap();
    assert_eq!((e.kind, e.message.as_str()), (IoErrorKind::Other, "panic in filter"));
}

#[test]
fn close_errors() {
    let mut state = RawFilterStream { last_error: None };
    let rc = filter_stream_close_cb(
        &mut state,
        || Some(Err(Error::from_str("cannot flush"))),
        Some(|| panic!("the next stream must stay open")),
    );
    assert_eq!(rc, -1);
    let e = state.last_error.take().unwrap();
    assert_eq!((e.kind, e.message.as_str()), (IoErrorKind::Other, "cannot flush"));
    let rc = filter_stream_close_cb(
        &mut state,
        || None,
        Some(|| panic!("the next stream must stay open")),
    );
    assert_eq!(rc, -1);
    assert_eq!(state.last_error.take().unwrap().message, "panic in filter close");
    let rc = filter_stream_close_cb(&mut state, || Some(Ok(())), Some(|| -2));
    assert_eq!(rc, -1);
    assert_eq!(state.last_error.take().unwrap().message, "filter close failed");
    let none: Option<fn() -> i32> = None;
    assert_eq!(filter_stream_close_cb(&mut state, || Some(Ok(())), none), 0);
    assert!(state.last_error.is_none());
}
