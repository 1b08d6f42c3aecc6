use archive::digest::DigestAcc;
use archive::entries::entry_digest_line;
use archive::entries::append_run;
use archive::entries::strip_path_prefix;
use archive::entries::Entry;
use archive::manifest::hex_encode;
use archive::manifest::manifest_line;
use archive::manifest::Manifest;
use archive::sink::HashSink;

fn entry(path: &str, data: &[u8]) -> Entry {
    Entry {
        path: String::from(path),
        data: data.to_vec(),
    }
}

#[test]
fn success() {
    // The archive bytes themselves stand in for the encoder's output here;
    // the sink digests whatever the file accepted.
    let mut sink = HashSink::new(String::from("archive.tar.gz")).unwrap();
    sink.record_written(b"foo\n").unwrap();
    let archive_line = sink.finish().unwrap();
    assert_eq!(
        archive_line,
        b"d3b07384d113edec49eaa6238ad5ff00  archive.tar.gz\n".to_vec()
    );

    let entries = vec![
        entry("src/foo", b"foo\n"),
        entry("src/bar", b"bar\n"),
        entry("src/baz", b"baz\n"),
    ];
    let mut manifest = Manifest::new();
    append_run(&mut manifest, archive_line.clone(), &entries).unwrap();

    assert_eq!(manifest.len(), 4);
    assert_eq!(manifest.line(0), &archive_line);
    assert_eq!(
        manifest.line(1),
        &b"d3b07384d113edec49eaa6238ad5ff00  src/foo\n".to_vec()
    );
    assert_eq!(
        manifest.line(2),
        &b"c157a79031e1c40f85931829bc5fc552  src/bar\n".to_vec()
    );
    assert_eq!(
        manifest.line(3),
        &b"258622b1688250cb619f3c9ccaefb7eb  src/baz\n".to_vec()
    );
}

#[test]
fn digest_streams_across_chunks() {
    // A short write followed by a retry of the remainder digests the same
    // bytes as one full write.
    let mut whole = HashSink::new(String::from("a.tar.gz")).unwrap();
    whole.record_written(b"foobar").unwrap();
    let whole_line = whole.finish().unwrap();

    let mut split = HashSink::new(String::from("a.tar.gz")).unwrap();
    split.record_written(b"foo").unwrap();
    split.record_written(b"bar").unwrap();
    let split_line = split.finish().unwrap();

    assert_eq!(whole_line, split_line);
}

#[test]
fn entry_line_has_exact_digest() {
    let line = entry_digest_line("src/foo", b"foo\n").unwrap();
    assert_eq!(line, b"d3b07384d113edec49eaa6238ad5ff00  src/foo\n".to_vec());
    let empty = entry_digest_line("empty", b"").unwrap();
    assert_eq!(empty, b"d41d8cd98f00b204e9800998ecf8427e  empty\n".to_vec());
}

#[test]
fn accumulator_digests_fed_bytes() {
    let mut acc = DigestAcc::new().unwrap();
    acc.update(b"foo\n").unwrap();
    let digest = acc.finalize().unwrap();
    assert_eq!(hex_encode(&digest), b"d3b07384d113edec49eaa6238ad5ff00".to_vec());
}

#[test]
fn line_format_is_hex_spaces_label_newline() {
    assert_eq!(manifest_line(&[0u8, 255u8], "x"), b"00ff  x\n".to_vec());
    assert_eq!(hex_encode(&[0xd3u8, 0x07u8]), b"d307".to_vec());
    assert_eq!(hex_encode(&[]), Vec::<u8>::new());
}

#[test]
fn manifest_only_accumulates() {
    let mut manifest = Manifest::new();
    let first = vec![entry("src/foo", b"foo\n")];
    let second = vec![entry("src/bar", b"bar\n")];

    let sink1 = HashSink::new(String::from("a.tar.gz")).unwrap();
    let line1 = sink1.finish().unwrap();
    append_run(&mut manifest, line1.clone(), &first).unwrap();
    let after_first: Vec<Vec<u8>> = (0..manifest.len())
        .map(|i| manifest.line(i).clone())
        .collect();

    let sink2 = HashSink::new(String::from("a.tar.gz")).unwrap();
    let line2 = sink2.finish().unwrap();
    append_run(&mut manifest, line2, &second).unwrap();

    assert_eq!(manifest.len(), 4);
    for (i, line) in after_first.iter().enumerate() {
        assert_eq!(manifest.line(i), line);
    }
    assert_eq!(
        manifest.line(3),
        &b"c157a79031e1c40f85931829bc5fc552  src/bar\n".to_vec()
    );
}

#[test]
fn archive_line_precedes_entry_lines() {
    let mut manifest = Manifest::new();
    let sink = HashSink::new(String::from("a.tar.gz")).unwrap();
    let archive_line = sink.finish().unwrap();
    let entries = vec![entry("src/foo", b"foo\n"), entry("src/bar", b"bar\n")];
    append_run(&mut manifest, archive_line.clone(), &entries).unwrap();
    assert_eq!(manifest.line(0), &archive_line);
    assert!(manifest.line(1).ends_with(b"  src/foo\n"));
    assert!(manifest.line(2).ends_with(b"  src/bar\n"));
}

#[test]
fn prefix_stripping() {
    assert_eq!(strip_path_prefix("tmp/src/foo", "tmp"), String::from("src/foo"));
    assert_eq!(strip_path_prefix("src/foo", "/abs"), String::from("src/foo"));
    assert_eq!(strip_path_prefix("src/foo", ""), String::from("src/foo"));
    assert_eq!(strip_path_prefix("src/foo", "src/foo"), String::from("src/foo"));
    assert_eq!(strip_path_prefix("srcx/foo", "src"), String::from("srcx/foo"));
}
