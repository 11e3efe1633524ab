use vow::{Error, Format, Io, JsonCategory, MemFile, Vow, VowBuilder, VowFile};

/// The stored type the tests use, encoded through the real JSON and TOML
/// libraries: as JSON it is the object with keys "a" and "b".
#[derive(Debug, Clone, PartialEq)]
struct TestDoc {
    a: i64,
    b: String,
}

fn json_err(e: &serde_json::Error) -> Error {
    let cat = match e.classify() {
        serde_json::error::Category::Io => JsonCategory::Io,
        serde_json::error::Category::Syntax => JsonCategory::Syntax,
        serde_json::error::Category::Data => JsonCategory::Data,
        serde_json::error::Category::Eof => JsonCategory::Eof,
    };
    Error::Json(cat)
}

fn shape_err(format: Format) -> Error {
    match format {
        Format::Json { .. } => Error::Json(JsonCategory::Data),
        Format::Toml => Error::Toml,
    }
}

impl vow::Data for TestDoc {
    // The specification members exist only for verified callers; nothing
    // calls them at run time.
    fn encode_spec(&self, _format: Format) -> Result<vow::Bytes, Error> {
        panic!("specification member")
    }

    fn decode_spec(_bytes: vow::Bytes, _format: Format) -> Result<Self, Error> {
        panic!("specification member")
    }

    fn lemma_roundtrip(&self, _format: Format) {}

    fn encode(&self, format: Format) -> Result<Vec<u8>, Error> {
        let mut m = serde_json::Map::new();
        m.insert("a".to_string(), serde_json::Value::from(self.a));
        m.insert("b".to_string(), serde_json::Value::from(self.b.clone()));
        let v = serde_json::Value::Object(m);
        match format {
            Format::Json { pretty } => {
                let r = if pretty {
                    serde_json::to_vec_pretty(&v)
                } else {
                    serde_json::to_vec(&v)
                };
                r.map_err(|e| json_err(&e))
            }
            Format::Toml => basic_toml::to_string(&v)
                .map(|s| s.into_bytes())
                .map_err(|_| Error::Toml),
        }
    }

    fn decode(bytes: &[u8], format: Format) -> Result<Self, Error> {
        let v: serde_json::Value = match format {
            Format::Json { .. } => serde_json::from_slice(bytes).map_err(|e| json_err(&e))?,
            Format::Toml => basic_toml::from_slice(bytes).map_err(|_| Error::Toml)?,
        };
        let obj = v.as_object().ok_or(shape_err(format))?;
        let a = obj
            .get("a")
            .and_then(|x| x.as_i64())
            .ok_or(shape_err(format))?;
        let b = obj
            .get("b")
            .and_then(|x| x.as_str())
            .ok_or(shape_err(format))?
            .to_string();
        Ok(TestDoc { a, b })
    }
}

/// A backing store whose every operation fails, to observe storage
/// failures.
struct FailFile;

impl VowFile for FailFile {
    fn contents(&self) -> vow::Bytes {
        panic!("specification member")
    }

    fn open(_path: &str) -> Result<Self, Error> {
        Err(Error::Io)
    }
    fn read_to_end(&mut self, _buf: &mut Vec<u8>) -> Result<(), Error> {
        Err(Error::Io)
    }
    fn write_all(&mut self, _buf: &[u8]) -> Result<(), Error> {
        Err(Error::Io)
    }
    fn set_len(&mut self, _len: u64) -> Result<(), Error> {
        Err(Error::Io)
    }
    fn flush(&mut self) -> Result<(), Error> {
        Err(Error::Io)
    }
}

fn doc(a: i64, b: &str) -> TestDoc {
    TestDoc {
        a,
        b: b.to_string(),
    }
}

fn fmt_json() -> Format {
    Format::Json { pretty: false }
}

#[test]
fn default_on_missing_yields_default_and_writes_it() {
    // A nonexistent path opens as an empty file.
    let file = MemFile::new();
    let vw = Vow::<TestDoc, MemFile>::builder(file)
        .default(doc(42, "hello"))
        .keep_local()
        .build()
        .unwrap();
    assert_eq!(*vw.get(), doc(42, "hello"));
    assert_eq!(vw.io.file.bytes().as_slice(), b"{\"a\":42,\"b\":\"hello\"}");
}

#[test]
fn keep_local_keeps_valid_content_without_rewriting() {
    let file = MemFile::from_vec(b"{\"a\":7,\"b\":\"kept\"}".to_vec());
    let before = file.bytes().clone();
    let vw = Vow::<TestDoc, MemFile>::builder(file)
        .default(doc(42, "hello"))
        .build()
        .unwrap();
    assert_eq!(*vw.get(), doc(7, "kept"));
    assert_eq!(vw.io.file.bytes(), &before);
}

#[test]
fn invalid_data_is_repaired_from_default() {
    let file = MemFile::from_vec(b"{{{ not json".to_vec());
    let vw = Vow::<TestDoc, MemFile>::builder(file)
        .default(doc(42, "hello"))
        .build()
        .unwrap();
    assert_eq!(*vw.get(), doc(42, "hello"));
    assert_eq!(vw.io.file.bytes().as_slice(), b"{\"a\":42,\"b\":\"hello\"}");
}

#[test]
fn deny_invalid_fails_build_and_leaves_file_alone() {
    let file = MemFile::from_vec(b"{{{ not json".to_vec());
    let r = Vow::<TestDoc, MemFile>::builder(file)
        .default(doc(42, "hello"))
        .deny_invalid()
        .build();
    let e = r.err().unwrap();
    assert!(e.is_invalid_data());
}

#[test]
fn deny_invalid_sync_leaves_file_unmodified() {
    let bad = b"{{{ not json".to_vec();
    let mut io = Io::new(MemFile::from_vec(bad.clone()), fmt_json(), true);
    let r = io.sync(Some(doc(42, "hello")), false);
    let e = r.err().unwrap();
    assert!(e.is_invalid_data());
    assert_eq!(io.file.bytes(), &bad);
}

#[test]
fn overwrite_local_discards_valid_content() {
    let file = MemFile::from_vec(b"{\"a\":7,\"b\":\"kept\"}".to_vec());
    let vw = Vow::<TestDoc, MemFile>::builder(file)
        .default(doc(42, "hello"))
        .overwrite_local()
        .build()
        .unwrap();
    assert_eq!(*vw.get(), doc(42, "hello"));
    assert_eq!(vw.io.file.bytes().as_slice(), b"{\"a\":42,\"b\":\"hello\"}");
}

#[test]
fn set_then_reopen_roundtrips() {
    let mut vw = Vow::<TestDoc, MemFile>::builder(MemFile::new())
        .default(doc(0, ""))
        .build()
        .unwrap();
    vw.set(doc(-5, "quoted \"text\" and \\slash")).unwrap();

    // Reopen a handle on the same contents, with no default at hand.
    let file2 = vw.io.file.clone();
    let vw2 = Vow::<TestDoc, MemFile>::builder(file2)
        .with_type::<TestDoc>()
        .keep_local()
        .build()
        .unwrap();
    assert_eq!(*vw2.get(), doc(-5, "quoted \"text\" and \\slash"));
}

#[test]
fn update_persists_before_returning() {
    let mut vw = Vow::<TestDoc, MemFile>::builder(MemFile::new())
        .default(doc(1, "x"))
        .build()
        .unwrap();
    vw.update(|mut d: TestDoc| {
        d.a += 1;
        d
    })
    .unwrap();
    vw.force_reload().unwrap();
    assert_eq!(*vw.get(), doc(2, "x"));
}

#[test]
fn map_replaces_value_and_file() {
    let mut vw = Vow::<TestDoc, MemFile>::builder(MemFile::new())
        .default(doc(1, "x"))
        .build()
        .unwrap();
    vw.map(|d: TestDoc| doc(d.a * 10, "mapped")).unwrap();
    assert_eq!(*vw.get(), doc(10, "mapped"));
    assert_eq!(vw.io.file.bytes().as_slice(), b"{\"a\":10,\"b\":\"mapped\"}");
}

#[test]
fn concrete_scenario_overwrite_then_update() {
    let mut vw = Vow::<TestDoc, MemFile>::builder(MemFile::new())
        .default(doc(42, "hello"))
        .overwrite_local()
        .build()
        .unwrap();
    vw.update(|mut d: TestDoc| {
        d.a += 1;
        d
    })
    .unwrap();
    assert_eq!(*vw.get(), doc(43, "hello"));
    assert_eq!(vw.io.file.bytes().as_slice(), b"{\"a\":43,\"b\":\"hello\"}");
}

#[test]
fn force_reload_propagates_invalid_data() {
    let mut vw = Vow::<TestDoc, MemFile>::builder(MemFile::new())
        .default(doc(1, "x"))
        .build()
        .unwrap();
    // Corrupt the backing file behind the handle's back.
    vw.io.file.data = b"]oops".to_vec();
    let e = vw.force_reload().err().unwrap();
    assert!(e.is_invalid_data());
    assert!(vw.value.is_none());
}

#[test]
fn vow_new_fails_on_empty_file() {
    let r = Vow::<TestDoc, MemFile>::new(MemFile::new());
    let e = r.err().unwrap();
    assert_eq!(e, Error::Json(JsonCategory::Eof));
}

#[test]
fn vow_new_reads_valid_file() {
    let file = MemFile::from_vec(b"{\"a\":3,\"b\":\"ok\"}".to_vec());
    let vw = Vow::<TestDoc, MemFile>::new(file).unwrap();
    assert_eq!(*vw.get(), doc(3, "ok"));
}

#[test]
fn io_errors_propagate_and_are_not_invalid_data() {
    let mut io = Io::new(FailFile, fmt_json(), false);
    let r = io.sync(Some(doc(1, "x")), false);
    assert_eq!(r.err().unwrap(), Error::Io);
    assert!(!Error::Io.is_invalid_data());
}

#[test]
fn error_classification_matches_categories() {
    assert!(Error::Json(JsonCategory::Syntax).is_invalid_data());
    assert!(Error::Json(JsonCategory::Data).is_invalid_data());
    assert!(Error::Json(JsonCategory::Eof).is_invalid_data());
    assert!(!Error::Json(JsonCategory::Io).is_invalid_data());
    assert!(Error::Toml.is_invalid_data());
    assert!(!Error::Io.is_invalid_data());
}

#[test]
fn pretty_json_roundtrips() {
    let mut f = fmt_json();
    f.set_pretty();
    assert_eq!(f, Format::Json { pretty: true });
    let mut io = Io::new(MemFile::new(), f, false);
    let r = io.sync(Some(doc(42, "hello")), true);
    assert_eq!(r.unwrap(), doc(42, "hello"));
    let bytes = io.file.bytes().clone();
    assert!(bytes.as_slice() != b"{\"a\":42,\"b\":\"hello\"}".as_slice());
    let back: serde_json::Value = serde_json::from_slice(bytes.as_slice()).unwrap();
    assert_eq!(back.get("a").and_then(|x| x.as_i64()), Some(42));
    assert_eq!(back.get("b").and_then(|x| x.as_str()), Some("hello"));
}

#[test]
fn builder_json_selector_controls_pretty() {
    let vw = Vow::<TestDoc, MemFile>::builder(MemFile::new())
        .json(true)
        .default(doc(42, "hello"))
        .build()
        .unwrap();
    let bytes = vw.io.file.bytes();
    assert!(bytes.as_slice().contains(&b'\n'));
}

#[test]
fn toml_format_repairs_and_roundtrips() {
    let mut io = Io::new(MemFile::new(), Format::Toml, false);
    let r = io.sync(Some(doc(42, "hello")), false);
    assert_eq!(r.unwrap(), doc(42, "hello"));
    let text = String::from_utf8(io.file.bytes().clone()).unwrap();
    assert_eq!(text, "a = 42\nb = \"hello\"\n");
    let r2 = io.sync(None::<TestDoc>, false);
    assert_eq!(r2.unwrap(), doc(42, "hello"));
}

#[test]
fn memfile_set_len_truncates_and_zero_pads() {
    let mut f = MemFile::from_vec(b"12345678".to_vec());
    f.set_len(4).unwrap();
    assert_eq!(f.bytes().as_slice(), b"1234");
    f.set_len(8).unwrap();
    assert_eq!(f.bytes().as_slice(), b"1234\0\0\0\0");
}

#[test]
fn take_buf_hands_back_an_empty_buffer() {
    let mut io = Io::new(MemFile::new(), fmt_json(), false);
    io.sync(Some(doc(1, "x")), true).unwrap();
    let buf = io.take_buf();
    assert!(buf.is_empty());
    assert!(io.buf.is_empty());
}

#[test]
fn flush_changes_nothing() {
    let mut vw = Vow::<TestDoc, MemFile>::builder(MemFile::new())
        .default(doc(9, "z"))
        .build()
        .unwrap();
    let before = vw.io.file.bytes().clone();
    vw.flush().unwrap();
    assert_eq!(*vw.get(), doc(9, "z"));
    assert_eq!(vw.io.file.bytes(), &before);
}

#[test]
fn set_failure_leaves_value_absent() {
    let mut vw = Vow::<TestDoc, MemFile> {
        value: Some(doc(1, "x")),
        io: Io::new(MemFile::new(), fmt_json(), false),
    };
    // Swap in a store that fails every write.
    let mut vw_bad = Vow::<TestDoc, FailFile> {
        value: Some(doc(1, "x")),
        io: Io::new(FailFile, fmt_json(), false),
    };
    assert_eq!(vw_bad.set(doc(2, "y")).err().unwrap(), Error::Io);
    assert!(vw_bad.value.is_none());
    // The well-backed handle still works.
    vw.set(doc(2, "y")).unwrap();
    assert_eq!(*vw.get(), doc(2, "y"));
}

#[test]
fn bool_codec_persists_the_json_literals() {
    let mut vw = Vow::<bool, MemFile>::builder(MemFile::new())
        .default(false)
        .build()
        .unwrap();
    assert_eq!(vw.io.file.bytes().as_slice(), b"false");
    vw.set(true).unwrap();
    assert_eq!(vw.io.file.bytes().as_slice(), b"true");

    let reopened = Vow::<bool, MemFile>::new(vw.io.file.clone()).unwrap();
    assert_eq!(*reopened.get(), true);
}

#[test]
fn bool_codec_rejects_other_bytes() {
    let mut io = Io::new(MemFile::from_vec(b"maybe".to_vec()), fmt_json(), true);
    let e = io.sync(Some(true), false).err().unwrap();
    assert_eq!(e, Error::Json(JsonCategory::Syntax));
    assert_eq!(io.file.bytes().as_slice(), b"maybe");
}

#[test]
fn bool_codec_cannot_encode_toml() {
    let mut vw = Vow::<bool, MemFile> {
        value: Some(true),
        io: Io::new(MemFile::new(), Format::Toml, false),
    };
    assert_eq!(vw.set(false).err().unwrap(), Error::Toml);
    assert!(vw.value.is_none());
    assert!(vw.io.file.bytes().is_empty());
}
