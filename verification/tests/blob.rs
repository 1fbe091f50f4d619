use git2_filters::{
    Blob, BlobFilterCall, BlobFilterFlags, BlobFilterOptions, BlobWriter, IoErrorKind, LastError,
    Oid, Reply,
};

/// An object database in memory: the blob with the address `n + 1` is `blobs[n]`.
struct Database {
    blobs: Vec<(Oid, Vec<u8>)>,
}

impl Database {
    fn new() -> Database {
        Database { blobs: Vec::new() }
    }

    fn blob(&mut self, data: &[u8]) -> Oid {
        let mut id = [0u8; 20];
        id[0] = self.blobs.len() as u8 + 1;
        for (i, byte) in data.iter().enumerate() {
            id[1 + i % 19] ^= *byte;
        }
        let oid = Oid { id };
        self.blobs.push((oid, data.to_vec()));
        oid
    }

    fn find_blob(&self, id: Oid) -> Blob {
        let at = self.blobs.iter().position(|b| b.0 == id).unwrap();
        Blob::from_raw(at + 1)
    }

    fn id(&self, raw: usize) -> Oid {
        self.blobs[raw - 1].0
    }

    fn content(&self, raw: usize) -> &[u8] {
        &self.blobs[raw - 1].1
    }

    fn is_binary(&self, raw: usize) -> i32 {
        let text = |b: &u8| *b >= 0x20 || *b == b'\n' || *b == b'\r' || *b == b'\t';
        !self.content(raw).iter().all(text) as i32
    }

    fn filter(&self, call: BlobFilterCall) -> Reply<Vec<u8>> {
        Reply { rc: 0, last_error: None, out: self.content(call.blob).to_vec() }
    }
}

/// How libgit2 fills in new options.
fn init(zeroed: (i32, u32, Oid), version: i32) -> (i32, u32, Oid) {
    assert_eq!(zeroed, (0, 0, Oid { id: [0; 20] }));
    (version, 1, zeroed.2)
}

fn no_call(_: BlobFilterCall) -> Reply<Vec<u8>> {
    panic!("the call must not be made")
}

#[test]
fn buffer() {
    let mut db = Database::new();
    let id = db.blob(&[5, 4, 6]);
    let blob = db.find_blob(id);

    assert_eq!(blob.id(|raw| db.id(raw)), id);
    assert_eq!(blob.size(|raw| db.content(raw).len() as u64), 3);
    assert_eq!(blob.content(|raw| db.content(raw)), [5, 4, 6]);
    assert!(blob.is_binary(|raw| db.is_binary(raw)));

    assert_eq!(blob.as_object().raw(), blob.raw());
    let raw = blob.raw();
    assert_eq!(blob.into_object().raw(), raw);
}

#[test]
fn stream() {
    let mut db = Database::new();
    let mut written: Vec<u8> = Vec::new();
    let mut ws = BlobWriter::from_raw(7);
    let wl = ws
        .write(
            &[10, 11, 12],
            Some(|raw: usize, buf: &[u8]| {
                assert_eq!(raw, 7);
                written.extend_from_slice(buf);
                0
            }),
        )
        .unwrap();
    assert_eq!(wl, 3);
    let id = ws
        .commit(|raw| {
            assert_eq!(raw, 7);
            Reply { rc: 0, last_error: None, out: db.blob(&written) }
        })
        .unwrap();
    let blob = db.find_blob(id);
    assert_eq!(blob.content(|raw| db.content(raw)), [10, 11, 12]);
    blob.into_object();
}

#[test]
fn test_blob_filter_default() {
    let mut db = Database::new();

    // Create a blob with simple content
    let id = db.blob(b"Hello World\n");
    let blob = db.find_blob(id);

    // Filter without any .gitattributes (should return content unchanged)
    let filtered = blob.filter(b"test.txt", None, |call| db.filter(call)).unwrap();
    assert_eq!(filtered, b"Hello World\n");
}

#[test]
fn test_blob_filter_flags_default() {
    // Default flags should include CHECK_FOR_BINARY to skip binary files
    let flags = BlobFilterFlags::default();
    assert!(flags.contains(BlobFilterFlags::check_for_binary()));
}

#[test]
fn blob_text_is_not_binary() {
    let mut db = Database::new();
    let id = db.blob(b"text\n");
    let blob = db.find_blob(id);
    assert!(!blob.is_binary(|raw| db.is_binary(raw)));
    // Only one means yes.
    assert!(!blob.is_binary(|_| 2));
    assert!(!blob.is_binary(|_| -1));
}

#[test]
fn blob_flags_bits() {
    assert_eq!(BlobFilterFlags::check_for_binary().bits(), 1);
    assert_eq!(BlobFilterFlags::no_system_attributes().bits(), 2);
    assert_eq!(BlobFilterFlags::attributes_from_head().bits(), 4);
    assert_eq!(BlobFilterFlags::attributes_from_commit().bits(), 8);
    let both = BlobFilterFlags::check_for_binary() | BlobFilterFlags::attributes_from_commit();
    assert_eq!(both.bits(), 9);
    assert!(both.contains(BlobFilterFlags::attributes_from_commit()));
    assert!(!both.contains(BlobFilterFlags::attributes_from_head()));
    assert!(!BlobFilterFlags::check_for_binary().contains(both));
}

#[test]
fn blob_flags_without_a_meaning_are_dropped() {
    let flags = BlobFilterFlags::from_bits_truncate(0xffff_fff5);
    assert_eq!(flags.bits(), 5);
    assert_eq!(flags, BlobFilterFlags::check_for_binary() | BlobFilterFlags::attributes_from_head());
    assert_eq!(BlobFilterFlags::from_bits_truncate(flags.bits()), flags);
    assert_eq!(BlobFilterFlags::from_bits_truncate(0x10).bits(), 0);
}

#[test]
fn blob_options_new() {
    assert_eq!(BlobFilterOptions::new(init).raw(), (1, 1, Oid { id: [0; 20] }));
    // The options are what libgit2 makes of them.
    let other = (3, 0, Oid { id: [7; 20] });
    assert_eq!(BlobFilterOptions::new(|_, _| other).raw(), other);
    assert_eq!(BlobFilterOptions::from_raw(other).raw(), other);
}

#[test]
fn blob_options_setters() {
    let commit = Oid { id: [9; 20] };
    let mut one = BlobFilterOptions::new(init);
    one.flags(BlobFilterFlags::attributes_from_commit()).attr_commit(commit);
    let mut two = BlobFilterOptions::new(init);
    two.attr_commit(Oid { id: [8; 20] })
        .attr_commit(commit)
        .flags(BlobFilterFlags::attributes_from_head())
        .flags(BlobFilterFlags::attributes_from_commit());
    assert_eq!(one.raw(), (1, 8, commit));
    assert_eq!(two.raw(), one.raw());
}

#[test]
fn blob_filter_hands_over_its_arguments() {
    let blob = Blob::from_raw(42);
    let mut opts = BlobFilterOptions::new(init);
    opts.flags(BlobFilterFlags::check_for_binary() | BlobFilterFlags::no_system_attributes());
    let filtered = blob
        .filter(b"dir/test.txt", Some(&mut opts), |call| {
            assert_eq!(call.blob, 42);
            assert_eq!(call.as_path.to_bytes(), b"dir/test.txt");
            assert_eq!(call.as_path.as_bytes_with_nul(), b"dir/test.txt\0");
            assert_eq!(call.opts.unwrap().raw(), (1, 3, Oid { id: [0; 20] }));
            Reply { rc: 0, last_error: None, out: b"filtered".to_vec() }
        })
        .unwrap();
    assert_eq!(filtered, b"filtered");
    blob.filter(b"x", None, |call| {
        assert!(call.opts.is_none());
        Reply { rc: 0, last_error: None, out: Vec::new() }
    })
    .unwrap();
}

#[test]
fn blob_filter_rejects_nul_in_path() {
    let e = Blob::from_raw(1).filter(b"a\0b", None, no_call).unwrap_err();
    assert_eq!(e.code, -1);
    assert_eq!(e.klass, 0);
    assert_eq!(
        e.message(),
        "data contained a nul byte that could not be represented as a string"
    );
}

#[test]
fn blob_filter_failure_told_by_libgit2() {
    let e = Blob::from_raw(1)
        .filter(b"a", None, |_| Reply {
            rc: -3,
            last_error: Some(LastError { klass: 6, message: "no such thing".to_string() }),
            out: b"left over".to_vec(),
        })
        .unwrap_err();
    assert_eq!((e.code, e.klass, e.message()), (-3, 6, "no such thing"));
}

#[test]
fn blob_filter_failure_without_words() {
    let e = Blob::from_raw(1)
        .filter(b"a", None, |_| Reply { rc: -5, last_error: None, out: Vec::new() })
        .unwrap_err();
    assert_eq!((e.code, e.klass, e.message()), (-5, 0, "an unknown git error occurred"));
}

#[test]
fn writer_reports_failed_write() {
    let mut ws = BlobWriter::from_raw(7);
    let e = ws.write(&[1], Some(|_: usize, _: &[u8]| -1)).unwrap_err();
    assert_eq!(e.kind, IoErrorKind::Other);
    assert_eq!(e.message, "Write error");
    assert!(ws.flush().is_ok());
}

#[test]
fn writer_without_write_callback() {
    let mut ws = BlobWriter::from_raw(7);
    let none: Option<fn(usize, &[u8]) -> i32> = None;
    let e = ws.write(&[1], none).unwrap_err();
    assert_eq!(e.kind, IoErrorKind::Other);
    assert_eq!(e.message, "no write callback");
}

#[test]
fn writer_write_of_nothing_and_positive_code() {
    let mut ws = BlobWriter::from_raw(7);
    assert_eq!(ws.write(&[], Some(|_: usize, _: &[u8]| 0)).unwrap(), 0);
    assert_eq!(ws.write(&[1, 2], Some(|_: usize, _: &[u8]| 5)).unwrap(), 2);
}

#[test]
fn writer_dropped_uncommitted_is_freed_once() {
    let mut ws = BlobWriter::from_raw(7);
    let mut freed = Vec::new();
    assert!(ws.cleanup(Some(|raw: usize| freed.push(raw))));
    assert!(!ws.cleanup(Some(|raw: usize| freed.push(raw))));
    assert_eq!(freed, [7]);
}

#[test]
fn writer_without_free_callback() {
    let mut ws = BlobWriter::from_raw(7);
    let none: Option<fn(usize)> = None;
    assert!(!ws.cleanup(none));
}

#[test]
fn writer_committed_is_not_freed() {
    let mut ws = BlobWriter::from_raw(7);
    let failed = ws.commit(|_| Reply { rc: -1, last_error: None, out: Oid { id: [0; 20] } });
    assert!(failed.is_err());
    let mut freed = Vec::new();
    assert!(!ws.cleanup(Some(|raw: usize| freed.push(raw))));
    assert!(freed.is_empty());
}
