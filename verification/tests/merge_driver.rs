use git2_filters::merge_driver::{
    merge_driver_apply_cb, merge_driver_init_cb, merge_driver_shutdown_cb, ApplyReply,
    MergeDriverRegistration, RawMergeDriver,
};
use git2_filters::{
    lookup_merge_driver, register_merge_driver, unregister_merge_driver, CString, Error,
    IndexEntry, IndexTime, LastError, MergeDriver, MergeDriverApplyResult, MergeDriverSource, Oid,
    Reply,
};

struct NoopDriver;

impl MergeDriver for NoopDriver {
    fn apply(
        &mut self,
        _filter_name: &str,
        _src: &MergeDriverSource,
    ) -> Result<MergeDriverApplyResult, Error> {
        Ok(MergeDriverApplyResult::Passthrough)
    }
}

/// The merge drivers that libgit2 knows.
struct Registry {
    names: Vec<Vec<u8>>,
}

impl Registry {
    fn new() -> Registry {
        Registry { names: vec![b"text".to_vec(), b"binary".to_vec(), b"union".to_vec()] }
    }

    fn lookup(&self, name: CString) -> usize {
        let bytes = name.to_bytes();
        self.names.iter().position(|n| *n == bytes).map_or(0, |i| i + 1)
    }

    fn register<D>(&mut self, request: MergeDriverRegistration, driver: D) -> Reply<D> {
        let bytes = request.name.to_bytes();
        if self.names.contains(&bytes) {
            let message = "attempt to reregister existing driver".to_string();
            let last = LastError { klass: 22, message };
            return Reply { rc: -4, last_error: Some(last), out: driver };
        }
        self.names.push(bytes);
        Reply { rc: 0, last_error: None, out: driver }
    }

    fn unregister(&mut self, name: CString) -> Reply<()> {
        match self.lookup(name) {
            0 => Reply { rc: -3, last_error: None, out: () },
            at => {
                self.names.remove(at - 1);
                Reply { rc: 0, last_error: None, out: () }
            }
        }
    }
}

fn entry(path: &[u8]) -> IndexEntry {
    let time = IndexTime { seconds: 1, nanoseconds: 2 };
    IndexEntry {
        ctime: time,
        mtime: time,
        dev: 3,
        ino: 4,
        mode: 0o100644,
        uid: 5,
        gid: 6,
        file_size: 7,
        id: Oid { id: [8; 20] },
        flags: 9,
        flags_extended: 10,
        path: path.to_vec(),
    }
}

fn nothing() -> MergeDriverSource {
    MergeDriverSource::from_raw(None, None, None)
}

fn applied(path: Option<&str>, mode: Option<u32>) -> MergeDriverApplyResult {
    MergeDriverApplyResult::Applied {
        content: b"merged by custom driver".to_vec(),
        path: path.map(|p| p.to_string()),
        mode,
    }
}

/// Runs the apply callback for a driver with this answer, and tells the reply and what
/// libgit2 got for the merged content.
fn run(
    driver: &mut RawMergeDriver,
    outcome: Option<Result<MergeDriverApplyResult, Error>>,
    rc: i32,
) -> (ApplyReply, Option<Vec<u8>>) {
    let mut merged = None;
    let reply = merge_driver_apply_cb(
        driver,
        b"mine",
        &nothing(),
        |name, _| {
            assert_eq!(name, "mine");
            outcome
        },
        |content| {
            merged = Some(content.to_vec());
            rc
        },
    );
    (reply, merged)
}

fn bare(code: i32) -> ApplyReply {
    ApplyReply { code, path_set: false, mode: None }
}

#[test]
fn test_register_unregister() {
    let mut registry = Registry::new();
    register_merge_driver("test-noop-register", NoopDriver, |request, driver| {
        registry.register(request, driver)
    })
    .unwrap();
    assert!(lookup_merge_driver("test-noop-register", |name| registry.lookup(name)));
    unregister_merge_driver("test-noop-register", |name| registry.unregister(name)).unwrap();
    assert!(!lookup_merge_driver("test-noop-register", |name| registry.lookup(name)));
}

#[test]
fn test_lookup_builtin_drivers() {
    let registry = Registry::new();
    let lookup = |name: CString| registry.lookup(name);
    assert!(lookup_merge_driver("text", lookup), "text merge driver should exist");
    assert!(lookup_merge_driver("binary", lookup), "binary merge driver should exist");
    assert!(lookup_merge_driver("union", lookup), "union merge driver should exist");
    assert!(
        !lookup_merge_driver("nonexistent", lookup),
        "nonexistent merge driver should not exist"
    );
}

#[test]
fn test_passthrough_result() {
    let mut registry = Registry::new();
    let mut driver = register_merge_driver("test-passthrough", NoopDriver, |request, driver| {
        registry.register(request, driver)
    })
    .unwrap();
    assert!(lookup_merge_driver("test-passthrough", |name| registry.lookup(name)));
    let mut raw = RawMergeDriver::new();
    let reply = merge_driver_apply_cb(
        &mut raw,
        b"test-passthrough",
        &nothing(),
        |name, src| Some(driver.apply(name, src)),
        |_| panic!("nothing was merged"),
    );
    assert_eq!(reply, bare(-30));
    unregister_merge_driver("test-passthrough", |name| registry.unregister(name)).unwrap();
}

#[test]
fn registration_request() {
    register_merge_driver("mine", NoopDriver, |request, _| {
        assert_eq!(request.name.as_bytes_with_nul(), b"mine\0");
        assert_eq!(request.driver.version, 1);
        assert!(!request.driver.initialized);
        assert!(request.driver.last_path.is_none());
        Reply { rc: 0, last_error: None, out: () }
    })
    .unwrap();
}

#[test]
fn registration_errors() {
    let mut registry = Registry::new();
    let e = register_merge_driver("text", NoopDriver, |request, _| registry.register(request, ()))
        .unwrap_err();
    assert_eq!((e.code, e.klass), (-4, 22));
    assert_eq!(e.message(), "attempt to reregister existing driver");
    let nul = "data contained a nul byte that could not be represented as a string";
    let e = register_merge_driver("a\0", NoopDriver, |_, _| -> Reply<()> {
        panic!("the call must not be made")
    })
    .unwrap_err();
    assert_eq!(e.message(), nul);
    let e = unregister_merge_driver("a\0", |_| panic!("the call must not be made")).unwrap_err();
    assert_eq!(e.message(), nul);
    assert!(!lookup_merge_driver("a\0", |_| panic!("the call must not be made")));
    let e = unregister_merge_driver("other", |name| registry.unregister(name)).unwrap_err();
    assert_eq!(e.code, -3);
}

#[test]
fn driver_defaults() {
    let mut driver = NoopDriver;
    assert!(driver.initialize().is_ok());
    driver.shutdown();
}

#[test]
fn driver_initialized_once() {
    let mut raw = RawMergeDriver::new();
    assert_eq!(merge_driver_init_cb(&mut raw, || None), -1);
    assert_eq!(merge_driver_init_cb(&mut raw, || Some(Err(Error::from_str("no")))), -1);
    assert!(!raw.initialized);
    assert_eq!(merge_driver_init_cb(&mut raw, || Some(Ok(()))), 0);
    assert!(raw.initialized);
    assert_eq!(merge_driver_init_cb(&mut raw, || panic!("must not run again")), 0);
}

#[test]
fn driver_shutdown_runs() {
    let mut ran = false;
    merge_driver_shutdown_cb(RawMergeDriver::new(), || {
        ran = true;
        Some(())
    });
    assert!(ran);
}

#[test]
fn apply_merged() {
    let mut raw = RawMergeDriver::new();
    let (reply, merged) = run(&mut raw, Some(Ok(applied(None, None))), 0);
    assert_eq!(reply, bare(0));
    assert_eq!(merged.unwrap(), b"merged by custom driver");
    assert!(raw.last_path.is_none());
}

#[test]
fn apply_merged_with_path_and_mode() {
    let mut raw = RawMergeDriver::new();
    let (reply, _) = run(&mut raw, Some(Ok(applied(Some("new.txt"), Some(0o100755)))), 0);
    assert_eq!(reply, ApplyReply { code: 0, path_set: true, mode: Some(0o100755) });
    assert_eq!(raw.last_path.as_ref().unwrap().as_bytes_with_nul(), b"new.txt\0");
    // A merge without a path leaves the one that libgit2 may still read.
    let (reply, _) = run(&mut raw, Some(Ok(applied(None, Some(1)))), 3);
    assert_eq!(reply, ApplyReply { code: 0, path_set: false, mode: Some(1) });
    assert_eq!(raw.last_path.as_ref().unwrap().to_bytes(), b"new.txt");
}

#[test]
fn apply_merged_with_nul_in_path() {
    let mut raw = RawMergeDriver::new();
    let (reply, merged) = run(&mut raw, Some(Ok(applied(Some("a\0b"), Some(1)))), 0);
    assert_eq!(reply, bare(-1));
    assert!(merged.is_some());
    assert!(raw.last_path.is_none());
}

#[test]
fn apply_content_refused() {
    let mut raw = RawMergeDriver::new();
    let (reply, _) = run(&mut raw, Some(Ok(applied(Some("a"), Some(1)))), -1);
    assert_eq!(reply, bare(-1));
    assert!(raw.last_path.is_none());
}

#[test]
fn apply_not_merged() {
    let mut raw = RawMergeDriver::new();
    let conflict = Some(Ok(MergeDriverApplyResult::Conflict));
    assert_eq!(run(&mut raw, conflict, 0), (bare(-24), None));
    let passthrough = Some(Ok(MergeDriverApplyResult::Passthrough));
    assert_eq!(run(&mut raw, passthrough, 0), (bare(-30), None));
    assert_eq!(run(&mut raw, Some(Err(Error::from_str("no"))), 0), (bare(-1), None));
    assert_eq!(run(&mut raw, None, 0), (bare(-1), None));
}

#[test]
fn apply_name_not_utf8() {
    let mut raw = RawMergeDriver::new();
    let reply = merge_driver_apply_cb(
        &mut raw,
        &[0x6d, 0xff],
        &nothing(),
        |_, _| panic!("the driver must not run"),
        |_| panic!("nothing was merged"),
    );
    assert_eq!(reply, bare(-1));
}

#[test]
fn apply_name_round_trip() {
    let name = "tr\u{fc}b \u{1F600}";
    let mut given = Vec::new();
    register_merge_driver(name, NoopDriver, |request, _| {
        given = request.name.to_bytes();
        Reply { rc: 0, last_error: None, out: () }
    })
    .unwrap();
    let mut raw = RawMergeDriver::new();
    let mut seen = String::new();
    merge_driver_apply_cb(
        &mut raw,
        &given,
        &nothing(),
        |n, _| {
            seen = n.to_string();
            None
        },
        |_| 0,
    );
    assert_eq!(seen, name);
}

#[test]
fn source_entries() {
    let source = MergeDriverSource::from_raw(None, Some(entry(b"ours")), Some(entry(b"theirs")));
    assert!(source.ancestor().is_none());
    let ours = source.ours().unwrap();
    assert_eq!(ours.path, b"ours");
    assert_eq!((ours.mode, ours.file_size, ours.flags), (0o100644, 7, 9));
    assert_eq!(ours.id, Oid { id: [8; 20] });
    assert_eq!(source.theirs().unwrap().path, b"theirs");
    let other = MergeDriverSource::from_raw(Some(entry(b"base")), None, None);
    assert_eq!(other.ancestor().unwrap().path, b"base");
    assert!(other.ours().is_none());
    assert!(other.theirs().is_none());
}
