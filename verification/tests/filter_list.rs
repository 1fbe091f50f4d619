use git2_filters::filter::stream::{NextStreamWriter, WriteStreamAdapter, WriteStreamCollector};
use git2_filters::{
    filter_priority, Blob, CString, FileCall, FilterFlags, FilterList, FilterMode, FilterOptions,
    FilterSource, IoError, IoErrorKind, LastError, LoadCall, LoadExtCall, Oid, Reply, Repository,
};

/// A repository without attributes: no path has filters.
fn load_none(_: LoadCall) -> Reply<usize> {
    Reply { rc: 0, last_error: None, out: 0 }
}

fn no_load(_: LoadCall) -> Reply<usize> {
    panic!("the call must not be made")
}

fn done<T>(out: T) -> Reply<T> {
    Reply { rc: 0, last_error: None, out }
}

fn failed<T>(out: T) -> Reply<T> {
    let last = LastError { klass: 30, message: "filter broke".to_string() };
    Reply { rc: -1, last_error: Some(last), out }
}

fn writer_error(text: &str) -> IoError {
    IoError { kind: IoErrorKind::Writer, message: text.to_string() }
}

/// What the ident filter makes of a buffer on its way to the object database.
fn collapse_ident(input: &[u8]) -> Vec<u8> {
    let text = std::str::from_utf8(input).unwrap();
    let start = text.find("$Id:").unwrap();
    let end = start + 4 + text[start + 4..].find('$').unwrap();
    format!("{}$Id${}", &text[..start], &text[end + 1..]).into_bytes()
}

#[test]
fn test_filter_list_load_empty() {
    let repo = Repository::from_raw(1);
    // No .gitattributes, so no filters should be loaded
    let filters = FilterList::load(
        &repo,
        None,
        "test.txt",
        FilterMode::ToWorktree,
        FilterFlags::default(),
        load_none,
    )
    .unwrap();
    assert!(filters.is_none(), "Expected no filters without .gitattributes");
}

#[test]
fn test_filter_options() {
    let repo = Repository::from_raw(1);
    let mut opts = FilterOptions::new();
    opts.flags(FilterFlags::no_system_attributes());

    let result = FilterList::load_ext(
        &repo,
        None,
        "test.txt",
        FilterMode::ToWorktree,
        &mut opts,
        |call: LoadExtCall| {
            assert_eq!(call.opts.raw(), (1, 2, Oid { id: [0; 20] }));
            done(0)
        },
    );
    assert!(result.is_ok(), "load_ext should succeed");
}

#[test]
fn load_hands_over_its_arguments() {
    let repo = Repository::from_raw(3);
    let blob = Blob::from_raw(4);
    let list = FilterList::load(
        &repo,
        Some(&blob),
        "dir/test.txt",
        FilterMode::ToOdb,
        FilterFlags::allow_unsafe() | FilterFlags::attributes_from_head(),
        |call: LoadCall| {
            assert_eq!((call.repo, call.blob, call.mode, call.flags), (3, 4, 1, 5));
            assert_eq!(call.path.as_bytes_with_nul(), b"dir/test.txt\0");
            done(99)
        },
    )
    .unwrap()
    .unwrap();
    assert_eq!(list.raw(), 99);
    FilterList::load(
        &repo,
        None,
        "x",
        FilterMode::ToWorktree,
        FilterFlags::default(),
        |call: LoadCall| {
            assert_eq!((call.blob, call.mode, call.flags), (0, 0, 0));
            done(0)
        },
    )
    .unwrap();
}

#[test]
fn load_rejects_nul_in_path() {
    let repo = Repository::from_raw(1);
    let e = FilterList::load(
        &repo,
        None,
        "a\0b",
        FilterMode::ToOdb,
        FilterFlags::default(),
        no_load,
    )
    .unwrap_err();
    assert_eq!(
        e.message(),
        "data contained a nul byte that could not be represented as a string"
    );
    let mut opts = FilterOptions::new();
    let ext = FilterList::load_ext(
        &repo,
        None,
        "\0",
        FilterMode::ToOdb,
        &mut opts,
        |_: LoadExtCall| -> Reply<usize> { panic!("the call must not be made") },
    );
    assert_eq!(ext.unwrap_err().code, -1);
}

#[test]
fn load_failure() {
    let repo = Repository::from_raw(1);
    let flags = FilterFlags::default();
    let e = FilterList::load(&repo, None, "x", FilterMode::ToOdb, flags, |_| failed(12))
        .unwrap_err();
    assert_eq!((e.code, e.klass, e.message()), (-1, 30, "filter broke"));
}

#[test]
fn list_contains_len_is_empty() {
    let list = FilterList::from_raw(5);
    let ident = |raw: usize, name: CString| {
        assert_eq!(raw, 5);
        (name.to_bytes() == b"ident") as i32
    };
    assert!(list.contains("ident", ident).unwrap());
    assert!(!list.contains("crlf", ident).unwrap());
    assert!(list.contains("any", |_, _| -1).unwrap());
    assert!(list.contains("id\0ent", ident).is_err());
    assert_eq!(list.len(|raw| raw - 4), 1);
    assert!(!list.is_empty(|_| 1));
    assert!(list.is_empty(|_| 0));
}

#[test]
fn apply_to_buffer() {
    let list = FilterList::from_raw(5);
    let input = b"$Id: abc123 $\nHello World\n";
    let result = list
        .apply_to_buffer(input, |raw, bytes| {
            assert_eq!(raw, 5);
            done(collapse_ident(bytes))
        })
        .unwrap();
    assert_eq!(result, b"$Id$\nHello World\n");
    assert_eq!(
        list.apply_to_buffer(input, |_, _| failed(Vec::new())).unwrap_err().message(),
        "filter broke"
    );
}

#[test]
fn apply_to_file_and_blob() {
    let list = FilterList::from_raw(5);
    let repo = Repository::from_raw(6);
    let data = list
        .apply_to_file(&repo, b"a/b", |call: FileCall| {
            assert_eq!((call.list, call.repo), (5, 6));
            assert_eq!(call.path.to_bytes(), b"a/b");
            done(vec![1, 2])
        })
        .unwrap();
    assert_eq!(data, [1, 2]);
    let refused = list.apply_to_file(&repo, b"a\0", |_: FileCall| -> Reply<Vec<u8>> {
        panic!("the call must not be made")
    });
    assert!(refused.is_err());
    let blob = Blob::from_raw(8);
    assert_eq!(list.apply_to_blob(&blob, |l, b| done(vec![l as u8, b as u8])).unwrap(), [5, 8]);
}

#[test]
fn stream_buffer_collects_chunks() {
    let list = FilterList::from_raw(5);
    let data = list
        .stream_buffer(b"abcdef", |raw, input, mut target| {
            assert_eq!(raw, 5);
            for chunk in input.chunks(4) {
                assert_eq!(target.write_callback(chunk), 0);
            }
            assert_eq!(target.close_callback(), 0);
            (done(()), target)
        })
        .unwrap();
    assert_eq!(data, b"abcdef");
    let e = list.stream_buffer(b"abc", |_, _, target| (failed(()), target)).unwrap_err();
    assert_eq!(e.message(), "filter broke");
}

#[test]
fn stream_buffer_to_writer() {
    let list = FilterList::from_raw(5);
    let mut output: Vec<u8> = Vec::new();
    list.stream_buffer_to_writer(b"$Id: abc123 $\nContent\n", |_, input, mut target| {
        let rc = target.write_callback(&collapse_ident(input), |bytes| {
            output.extend_from_slice(bytes);
            Ok(())
        });
        assert_eq!(rc, 0);
        assert_eq!(target.close_callback(|| Ok(())), 0);
        (done(()), target)
    })
    .unwrap();
    let content = String::from_utf8(output).unwrap();
    assert_eq!(content, "$Id$\nContent\n");
}

#[test]
fn writer_gets_what_is_collected() {
    let list = FilterList::from_raw(5);
    let collected = list
        .stream_buffer(b"abcdefg", |_, input, mut target| {
            for chunk in input.chunks(3) {
                target.write_callback(chunk);
            }
            (done(()), target)
        })
        .unwrap();
    let mut output: Vec<u8> = b"before ".to_vec();
    list.stream_buffer_to_writer(b"abcdefg", |_, input, mut target| {
        for chunk in input.chunks(3) {
            let rc = target.write_callback(chunk, |bytes| {
                output.extend_from_slice(bytes);
                Ok(())
            });
            assert_eq!(rc, 0);
        }
        assert_eq!(target.close_callback(|| Ok(())), 0);
        (done(()), target)
    })
    .unwrap();
    assert_eq!(output, [b"before ".as_slice(), collected.as_slice()].concat());
}

#[test]
fn load_ext_agrees_with_load() {
    let repo = Repository::from_raw(3);
    let flags = FilterFlags::allow_unsafe() | FilterFlags::attributes_from_head();
    let mut opts = FilterOptions::new();
    opts.flags(flags);
    let mode = FilterMode::ToOdb;
    for answer in [0, 9] {
        let mut asked = None;
        let list = FilterList::load(&repo, None, "a", mode, flags, |call: LoadCall| {
            asked = Some((call.repo, call.blob, call.path.to_bytes(), call.mode, call.flags));
            done(answer)
        })
        .unwrap();
        let ext = FilterList::load_ext(&repo, None, "a", mode, &mut opts, |call: LoadExtCall| {
            let flags = call.opts.raw().1;
            let again = (call.repo, call.blob, call.path.to_bytes(), call.mode, flags);
            assert_eq!(asked, Some(again));
            done(answer)
        })
        .unwrap();
        assert_eq!(list.map(|l| l.raw()), ext.map(|l| l.raw()));
    }
}

#[test]
fn stream_to_writer_errors() {
    let list = FilterList::from_raw(5);
    // libgit2 does not notice: the writer's own error comes out.
    let e = list
        .stream_buffer_to_writer(b"x", |_, input, mut target| {
            assert_eq!(target.write_callback(input, |_| Err(writer_error("disk full"))), -1);
            assert_eq!(target.close_callback(|| Ok(())), 0);
            (done(()), target)
        })
        .unwrap_err();
    assert_eq!((e.code, e.klass, e.message()), (-1, 0, "disk full"));
    // libgit2 notices: its error comes out.
    let e = list
        .stream_buffer_to_writer(b"x", |_, input, mut target| {
            assert_eq!(target.write_callback(input, |_| Err(writer_error("disk full"))), -1);
            (failed(()), target)
        })
        .unwrap_err();
    assert_eq!(e.message(), "filter broke");
}

#[test]
fn stream_file_and_blob() {
    let list = FilterList::from_raw(5);
    let repo = Repository::from_raw(6);
    let blob = Blob::from_raw(8);
    let data = list
        .stream_file(&repo, b"a", |call, mut target| {
            assert_eq!((call.list, call.repo), (5, 6));
            target.write_callback(&call.path.to_bytes());
            (done(()), target)
        })
        .unwrap();
    assert_eq!(data, b"a");
    assert!(list.stream_file(&repo, b"\0", |_, target| (done(()), target)).is_err());
    assert!(list.stream_file_to_writer(&repo, b"a", |_, target| (done(()), target)).is_ok());
    assert!(list.stream_file_to_writer(&repo, b"\0", |_, target| (done(()), target)).is_err());
    let data = list
        .stream_blob(&blob, |l, b, mut target| {
            target.write_callback(&[l as u8]);
            target.write_callback(&[b as u8]);
            (done(()), target)
        })
        .unwrap();
    assert_eq!(data, [5, 8]);
    let e = list
        .stream_blob_to_writer(&blob, |_, _, mut target| {
            target.close_callback(|| Err(writer_error("flush")));
            (done(()), target)
        })
        .unwrap_err();
    assert_eq!(e.message(), "flush");
}

#[test]
fn collector_does_not_mind_the_cuts() {
    let mut whole = WriteStreamCollector::new();
    whole.write_callback(b"abcd");
    let mut cut = WriteStreamCollector::new();
    cut.write_callback(b"a");
    cut.write_callback(b"");
    cut.write_callback(b"bcd");
    assert_eq!(whole.into_data(), cut.into_data());
}

#[test]
fn adapter_keeps_the_latest_error() {
    let mut adapter = WriteStreamAdapter::new();
    assert_eq!(adapter.answered(Err(writer_error("first"))), -1);
    assert_eq!(adapter.answered(Ok(())), 0);
    assert_eq!(adapter.answered(Err(writer_error("second"))), -1);
    let e = adapter.finish().unwrap_err();
    assert_eq!(e.kind, IoErrorKind::Writer);
    assert_eq!(e.message, "second");
    assert!(WriteStreamAdapter::new().finish().is_ok());
}

#[test]
fn next_stream_write_and_close() {
    let mut seen = Vec::new();
    let n = NextStreamWriter::write(
        b"abc",
        Some(|buf: &[u8]| {
            seen.extend_from_slice(buf);
            0
        }),
    )
    .unwrap();
    assert_eq!((n, seen.as_slice()), (3, b"abc".as_slice()));
    let e = NextStreamWriter::write(b"abc", Some(|_: &[u8]| -7)).unwrap_err();
    assert_eq!((e.kind, e.message.as_str()), (IoErrorKind::Other, "filter write failed"));
    let none: Option<fn(&[u8]) -> i32> = None;
    let e = NextStreamWriter::write(b"abc", none).unwrap_err();
    assert_eq!((e.kind, e.message.as_str()), (IoErrorKind::Other, "no write function on stream"));
    assert!(NextStreamWriter::close(Some(|| 0)).is_ok());
    let e = NextStreamWriter::close(Some(|| -1)).unwrap_err();
    assert_eq!((e.kind, e.message.as_str()), (IoErrorKind::Other, "filter close failed"));
    let none: Option<fn() -> i32> = None;
    assert!(NextStreamWriter::close(none).is_ok());
    assert!(NextStreamWriter::flush().is_ok());
}

#[test]
fn mode_numbers() {
    assert_eq!(FilterMode::from_raw(0), FilterMode::ToWorktree);
    assert_eq!(FilterMode::from_raw(1), FilterMode::ToOdb);
    assert_eq!(FilterMode::from_raw(2), FilterMode::ToWorktree);
    assert_eq!(FilterMode::from_raw(u32::MAX), FilterMode::ToWorktree);
    for mode in [FilterMode::ToWorktree, FilterMode::ToOdb] {
        assert_eq!(FilterMode::from_raw(mode.raw()), mode);
    }
}

#[test]
fn flags_bits() {
    assert_eq!(FilterFlags::default().bits(), 0);
    assert_eq!(FilterFlags::allow_unsafe().bits(), 1);
    assert_eq!(FilterFlags::no_system_attributes().bits(), 2);
    assert_eq!(FilterFlags::attributes_from_head().bits(), 4);
    assert_eq!(FilterFlags::attributes_from_commit().bits(), 8);
    assert_eq!(FilterFlags::from_bits_truncate(0xffff_fff5).bits(), 5);
    let twice = FilterFlags::from_bits_truncate(FilterFlags::from_bits_truncate(0x1e).bits());
    assert_eq!(twice, FilterFlags::from_bits_truncate(0x1e));
    let both = FilterFlags::allow_unsafe() | FilterFlags::attributes_from_head();
    assert!(both.contains(FilterFlags::allow_unsafe()));
    assert!(both.contains(FilterFlags::default()));
    assert!(!both.contains(FilterFlags::no_system_attributes()));
}

#[test]
fn options_setters() {
    let commit = Oid { id: [3; 20] };
    let mut one = FilterOptions::default();
    one.flags(FilterFlags::attributes_from_commit()).attr_commit(commit);
    let mut two = FilterOptions::new();
    two.attr_commit(commit).flags(FilterFlags::allow_unsafe());
    two.flags(FilterFlags::attributes_from_commit());
    assert_eq!(one.raw(), (1, 8, commit));
    assert_eq!(two.raw(), one.raw());
    assert_eq!(FilterOptions::new().raw(), (1, 0, Oid { id: [0; 20] }));
}

#[test]
fn source_accessors() {
    let id = Oid { id: [7; 20] };
    let source = FilterSource::from_raw(Some(b"a.txt".to_vec()), 0o644, Some(id), 1, 0xf2);
    assert_eq!(source.path(), Some(b"a.txt".as_slice()));
    assert_eq!(source.filemode(), 0o644);
    assert_eq!(source.id(), Some(id));
    assert_eq!(source.mode(), FilterMode::ToOdb);
    assert_eq!(source.flags(), FilterFlags::no_system_attributes());
    let bare = FilterSource::from_raw(None, 0, None, 9, 0);
    assert_eq!(bare.path(), None);
    assert_eq!(bare.id(), None);
    assert_eq!(bare.mode(), FilterMode::ToWorktree);
    assert_eq!(bare.flags(), FilterFlags::default());
}

#[test]
fn priorities() {
    assert_eq!(filter_priority::CRLF, 0);
    assert_eq!(filter_priority::IDENT, 100);
    assert_eq!(filter_priority::DRIVER, 200);
}

#[test]
fn c_strings() {
    let c = CString::new(b"abc").unwrap();
    assert_eq!(c.to_bytes(), b"abc");
    assert_eq!(c.as_bytes_with_nul(), b"abc\0");
    assert_eq!(CString::new(b"").unwrap().as_bytes_with_nul(), b"\0");
    assert_eq!(CString::new(b"a\0b\0").err().unwrap().position, 1);
    // A text is refused for its zero characters, and for no other.
    assert!(CString::from_bytes("\u{100}\u{4000}\u{10000}".as_bytes()).is_ok());
    assert!(CString::from_bytes("\u{100}\0".as_bytes()).is_err());
}

#[test]
fn one_text_one_c_string() {
    let bytes = |text: &str| CString::from_bytes(text.as_bytes()).ok().unwrap().to_bytes();
    assert_eq!(bytes("ident"), bytes("ident"));
    assert_ne!(bytes("ident"), bytes("Ident"));
    assert_ne!(bytes("\u{e9}"), bytes("e\u{301}"));
}

#[test]
fn list_at_the_null_address() {
    let list = FilterList::from_raw(0);
    assert_eq!(list.raw(), 0);
    assert!(list.is_empty(|raw| raw));
}
