use maya_umbrella::{
    FileLoader, FileRead, FileSpecimen, FileType, LoadError, Loader, Specimen, TextSpecimen,
};

#[test]
fn new_keeps_the_text() {
    let specimen = TextSpecimen::new("import vaccine");
    assert_eq!(specimen.to_string(), "import vaccine");
    assert_eq!(&*specimen, "import vaccine");
    assert_eq!(specimen.data(), b"import vaccine");
}

#[test]
fn default_is_empty() {
    let specimen = TextSpecimen::default();
    assert_eq!(specimen.to_string(), "");
    assert!(specimen.data().is_empty());
}

#[test]
fn data_is_the_utf8_encoding() {
    let specimen = TextSpecimen::new("h\u{e9}llo \u{4e2d}\u{6587}");
    assert_eq!(
        specimen.data(),
        &[0x68, 0xc3, 0xa9, 0x6c, 0x6c, 0x6f, 0x20, 0xe4, 0xb8, 0xad, 0xe6, 0x96, 0x87]
    );
}

#[test]
fn utf8_bytes_load_as_they_are() {
    let file: FileRead = Ok("h\u{e9}llo \u{4e2d}\u{6587}".as_bytes().to_vec());
    let loaded: Result<TextSpecimen, LoadError> = FileLoader.load(&file);
    assert_eq!(loaded.unwrap().to_string(), "h\u{e9}llo \u{4e2d}\u{6587}");
}

#[test]
fn empty_file_loads_as_empty_text() {
    let file: FileRead = Ok(Vec::new());
    let loaded: Result<TextSpecimen, LoadError> = FileLoader.load(&file);
    assert_eq!(loaded.unwrap().to_string(), "");
}

#[test]
fn gbk_bytes_load_through_the_fallback() {
    // "中文" in GBK, which is not valid UTF-8.
    let file: FileRead = Ok(vec![0xd6, 0xd0, 0xce, 0xc4]);
    let loaded: Result<TextSpecimen, LoadError> = FileLoader.load(&file);
    assert_eq!(loaded.unwrap().to_string(), "\u{4e2d}\u{6587}");
}

#[test]
fn gbk_script_is_still_searched() {
    // "import vaccine # 病毒" with the comment in GBK.
    let mut bytes = b"import vaccine # ".to_vec();
    bytes.extend_from_slice(&[0xb2, 0xa1, 0xb6, 0xbe]);
    let file: FileRead = Ok(bytes);
    let loaded: Result<TextSpecimen, LoadError> = FileLoader.load(&file);
    let specimen = loaded.unwrap();
    assert_eq!(specimen.to_string(), "import vaccine # \u{75c5}\u{6bd2}");
    assert_eq!(
        maya_umbrella::check_virus_from_file(&file, &["\u{75c5}\u{6bd2}$"]),
        true
    );
}

#[test]
fn malformed_bytes_are_replaced_not_refused() {
    // 0xff is neither UTF-8 nor a GBK lead byte.
    let file: FileRead = Ok(vec![0x61, 0xff, 0x62]);
    let loaded: Result<TextSpecimen, LoadError> = FileLoader.load(&file);
    assert_eq!(loaded.unwrap().to_string(), "a\u{fffd}b");
}

#[test]
fn failed_read_is_handed_back() {
    for e in [LoadError::NotFound, LoadError::PermissionDenied, LoadError::Io, LoadError::Undecodable]
    {
        let file: FileRead = Err(e);
        let loaded: Result<TextSpecimen, LoadError> = FileLoader.load(&file);
        assert_eq!(loaded.err(), Some(e));
    }
}

#[test]
fn read_file_replaces_the_text() {
    let mut specimen = TextSpecimen::new("old");
    assert_eq!(specimen.read_file(&Ok(b"new text".to_vec())), Ok(()));
    assert_eq!(specimen.to_string(), "new text");
}

#[test]
fn read_file_leaves_the_specimen_alone_on_failure() {
    let mut specimen = TextSpecimen::new("old");
    assert_eq!(specimen.read_file(&Err(LoadError::NotFound)), Err(LoadError::NotFound));
    assert_eq!(specimen.to_string(), "old");
}

#[test]
fn typed_loader_gives_text_files() {
    let file: FileRead = Ok(b"import vaccine".to_vec());
    let loaded: Result<FileType, LoadError> = FileLoader.load(&file);
    match loaded {
        Ok(FileType::TextFile(specimen)) => assert_eq!(specimen.to_string(), "import vaccine"),
        Err(e) => panic!("{:?}", e),
    }
    let missing: FileRead = Err(LoadError::NotFound);
    let loaded: Result<FileType, LoadError> = FileLoader.load(&missing);
    assert!(matches!(loaded, Err(LoadError::NotFound)));
}

#[test]
fn multiple_load_keeps_length_and_order() {
    let files: Vec<FileRead> = vec![
        Ok(b"first".to_vec()),
        Err(LoadError::NotFound),
        Ok(vec![0xd6, 0xd0]),
        Err(LoadError::Io),
        Ok(b"last".to_vec()),
    ];
    let loaded: Vec<Result<TextSpecimen, LoadError>> = FileLoader.multiple_load(&files);
    let seen: Vec<Result<String, LoadError>> =
        loaded.into_iter().map(|r| r.map(|s| s.to_string())).collect();
    assert_eq!(
        seen,
        vec![
            Ok("first".to_string()),
            Err(LoadError::NotFound),
            Ok("\u{4e2d}".to_string()),
            Err(LoadError::Io),
            Ok("last".to_string()),
        ]
    );
}

#[test]
fn multiple_load_of_nothing_is_empty() {
    let loaded: Vec<Result<TextSpecimen, LoadError>> = FileLoader.multiple_load(&[]);
    assert!(loaded.is_empty());
}
