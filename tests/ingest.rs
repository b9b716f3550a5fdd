use vector_db_proxy::{
    build_points, classify, data_source_id, file_extension, plan_message, plan_upload,
    ChunkingStrategy,
    settle_chunks, settle_extraction, trim_quotes, Chunk, ExtractedDocument, Extraction, FileType,
    MessagePlan, PathKind, StringMap, UploadAction, UploadEvent, UploadPlan, UploadState,
};

fn headers(pairs: &[(&str, &str)]) -> StringMap {
    let mut h = StringMap::new();
    for (k, v) in pairs {
        h.insert(k.to_string(), v.to_string());
    }
    h
}

fn upload_of(plan: MessagePlan) -> UploadPlan {
    match plan {
        MessagePlan::Upload(u) => u,
        MessagePlan::Drop => panic!("dropped"),
        MessagePlan::Forward { .. } => panic!("forwarded"),
    }
}

fn chunk(text: &str, meta: &[(&str, &str)], embedding: Option<Vec<f32>>) -> Chunk {
    Chunk {
        text: text.to_string(),
        metadata: headers(meta),
        embedding: embedding.map(|v| v.iter().map(|x| x.to_bits()).collect()),
    }
}

#[test]
fn stream_prefix_is_data_source() {
    assert_eq!(data_source_id("ds123_abc"), Some("ds123".to_string()));
    assert_eq!(data_source_id("ds9_x"), Some("ds9".to_string()));
    assert_eq!(data_source_id("tenant_a_b_c"), Some("tenant".to_string()));
    assert_eq!(data_source_id("plain"), Some("plain".to_string()));
}

#[test]
fn stream_suffix_does_not_matter() {
    for suffix in ["abc", "", "x_y", "-x-", "123"] {
        let stream = format!("ds123_{}", suffix);
        assert_eq!(data_source_id(&stream), Some("ds123".to_string()));
    }
}

#[test]
fn empty_stream_prefix_has_no_source() {
    assert_eq!(data_source_id("_abc"), None);
    assert_eq!(data_source_id(""), None);
}

#[test]
fn extension_is_after_last_dot() {
    assert_eq!(file_extension("doc.txt"), Some("txt".to_string()));
    assert_eq!(file_extension("a.b.pdf"), Some("pdf".to_string()));
    assert_eq!(file_extension("trailing."), Some("".to_string()));
    assert_eq!(file_extension("noext"), None);
}

#[test]
fn quotes_are_trimmed_at_both_ends() {
    assert_eq!(trim_quotes("\"doc.txt\""), "doc.txt");
    assert_eq!(trim_quotes("\"\"a\"b\""), "a\"b");
    assert_eq!(trim_quotes("\"\""), "");
    assert_eq!(trim_quotes("plain"), "plain");
}

#[test]
fn file_types_by_extension() {
    assert_eq!(FileType::from_file_name("r.pdf"), FileType::PDF);
    assert_eq!(FileType::from_file_name("r.docx"), FileType::DOCX);
    assert_eq!(FileType::from_file_name("r.txt"), FileType::TXT);
    assert_eq!(FileType::from_file_name("r.doc"), FileType::DOC);
    assert_eq!(FileType::from_file_name("r.csv"), FileType::UNKNOWN);
    assert_eq!(FileType::from_file_name("archive.tar.pdf"), FileType::PDF);
    assert_eq!(FileType::from_file_name("README"), FileType::UNKNOWN);
}

#[test]
fn string_map_later_entry_wins() {
    let mut m = StringMap::new();
    assert_eq!(m.get("a"), None);
    m.insert("a".to_string(), "1".to_string());
    m.insert("b".to_string(), "2".to_string());
    m.insert("a".to_string(), "3".to_string());
    assert_eq!(m.get("a"), Some("3".to_string()));
    assert_eq!(m.get("b"), Some("2".to_string()));
    let copy = m.duplicate();
    assert_eq!(copy.get("a"), Some("3".to_string()));
    let from = StringMap::from_entries(vec![("k".to_string(), "v".to_string())]);
    assert_eq!(from.get("k"), Some("v".to_string()));
}

#[test]
fn classify_by_headers() {
    let up = classify(&headers(&[("stream", "ds123_abc"), ("type", "file")]));
    assert_eq!(up, Some(("ds123".to_string(), PathKind::Upload)));
    let fwd = classify(&headers(&[("stream", "ds9_x")]));
    assert_eq!(fwd, Some(("ds9".to_string(), PathKind::Forward)));
    assert_eq!(classify(&headers(&[("type", "file")])), None);
    assert_eq!(classify(&headers(&[("stream", "_x"), ("type", "file")])), None);
}

#[test]
fn scenario_upload_plan() {
    let h = headers(&[("stream", "ds123_abc"), ("type", "file")]);
    let body = br#"{"bucket":"b1","filename":"doc.txt"}"#;
    let u = upload_of(plan_message(&h, body));
    assert_eq!(u.data_source_id, "ds123");
    assert_eq!(u.bucket, "b1");
    assert_eq!(u.filename, "doc.txt");
    assert_eq!(u.file_type, FileType::TXT);
    assert_eq!(u.staging_path, "doc.txt");
}

#[test]
fn scenario_upload_points() {
    let doc = settle_extraction(
        FileType::TXT,
        Some(ExtractedDocument { text: "hello world".to_string(), metadata: StringMap::new() }),
    );
    assert_eq!(doc.text, "hello world");
    let chunks = settle_chunks(
        FileType::TXT,
        Some(vec![chunk(&doc.text, &[], Some(vec![0.1, 0.2]))]),
    );
    let points = build_points(&chunks);
    assert_eq!(points.len(), 1);
    let p = &points[0];
    let vector: Vec<f32> = p.vector.iter().map(|b| f32::from_bits(*b)).collect();
    assert_eq!(vector, vec![0.1f32, 0.2f32]);
    assert_eq!(p.payload.entries().len(), 1);
    assert_eq!(p.payload.get("text"), Some("hello world".to_string()));
}

#[test]
fn scenario_forward() {
    let h = headers(&[("stream", "ds9_x")]);
    match plan_message(&h, b"{\"foo\":1}") {
        MessagePlan::Forward { data_source_id, payload } => {
            assert_eq!(data_source_id, "ds9");
            assert_eq!(payload, "{\"foo\":1}");
        }
        _ => panic!("not forwarded"),
    }
}

#[test]
fn malformed_upload_bodies_are_dropped() {
    let h = headers(&[("stream", "ds1_a"), ("type", "file")]);
    for body in [
        &b"not json"[..],
        &br#"{"bucket":"b1"}"#[..],
        &br#"{"filename":"f.txt"}"#[..],
        &br#"{"bucket":"b1","filename":7}"#[..],
        &br#"["b1","f.txt"]"#[..],
        &[0xff, 0xfe, 0x00][..],
    ] {
        assert!(matches!(plan_message(&h, body), MessagePlan::Drop));
    }
    let next = plan_message(&h, br#"{"bucket":"b2","filename":"n.pdf"}"#);
    assert_eq!(upload_of(next).file_type, FileType::PDF);
}

#[test]
fn message_without_stream_is_dropped() {
    let h = headers(&[("type", "file")]);
    let body = br#"{"bucket":"b1","filename":"doc.txt"}"#;
    assert!(matches!(plan_message(&h, body), MessagePlan::Drop));
    let fwd = headers(&[("other", "ds9_x")]);
    assert!(matches!(plan_message(&fwd, b"x"), MessagePlan::Drop));
}

#[test]
fn non_utf8_forward_body_is_dropped() {
    let h = headers(&[("stream", "ds9_x")]);
    assert!(matches!(plan_message(&h, &[0xc3, 0x28]), MessagePlan::Drop));
}

#[test]
fn quoted_filename_is_staged_without_quotes() {
    let u = upload_of(plan_upload(
        "ds".to_string(),
        r#"{"bucket":"b","filename":"\"report.docx\""}"#,
    ));
    assert_eq!(u.filename, "\"report.docx\"");
    assert_eq!(u.staging_path, "report.docx");
    assert_eq!(u.file_type, FileType::DOCX);
}

#[test]
fn same_object_gives_same_plan_and_points() {
    let h = headers(&[("stream", "ds123_abc"), ("type", "file")]);
    let body = br#"{"bucket":"b1","filename":"doc.txt"}"#;
    let a = upload_of(plan_message(&h, body));
    let b = upload_of(plan_message(&h, body));
    assert_eq!(
        (a.data_source_id, a.bucket, a.filename, a.file_type, a.staging_path),
        (b.data_source_id, b.bucket, b.filename, b.file_type, b.staging_path)
    );
    let make = || vec![chunk("one", &[], Some(vec![1.0])), chunk("two", &[], Some(vec![2.0]))];
    let pa = build_points(&make());
    let pb = build_points(&make());
    let texts = |ps: &Vec<vector_db_proxy::VectorPoint>| {
        ps.iter().map(|p| p.payload.get("text")).collect::<Vec<_>>()
    };
    assert_eq!(texts(&pa), texts(&pb));
    assert_eq!(texts(&pa), vec![Some("one".to_string()), Some("two".to_string())]);
}

#[test]
fn point_payload_keeps_metadata_and_text() {
    let chunks = vec![
        chunk("alpha", &[("page", "1"), ("source", "a.pdf")], Some(vec![0.5])),
        chunk("skipped", &[("page", "2")], None),
        chunk("beta", &[("text", "old"), ("page", "3")], Some(vec![0.25, 0.75])),
    ];
    let points = build_points(&chunks);
    assert_eq!(points.len(), 2);
    assert_eq!(points[0].payload.get("text"), Some("alpha".to_string()));
    assert_eq!(points[0].payload.get("page"), Some("1".to_string()));
    assert_eq!(points[0].payload.get("source"), Some("a.pdf".to_string()));
    assert_eq!(points[0].vector, vec![0.5f32.to_bits()]);
    assert_eq!(points[1].payload.get("text"), Some("beta".to_string()));
    assert_eq!(points[1].payload.get("page"), Some("3".to_string()));
    assert_eq!(points[1].vector, vec![0.25f32.to_bits(), 0.75f32.to_bits()]);
}

#[test]
fn no_chunks_no_points() {
    assert!(build_points(&Vec::new()).is_empty());
    let none = vec![chunk("a", &[], None)];
    assert!(build_points(&none).is_empty());
}

#[test]
fn extraction_by_file_type() {
    assert_eq!(FileType::PDF.extraction(), Extraction::PdfReader);
    assert_eq!(FileType::DOCX.extraction(), Extraction::DocxReader);
    assert_eq!(FileType::TXT.extraction(), Extraction::ReadVerbatim);
    assert_eq!(FileType::DOC.extraction(), Extraction::Nothing);
    assert_eq!(FileType::UNKNOWN.extraction(), Extraction::Nothing);
}

#[test]
fn settled_extraction_outcomes() {
    let doc = || {
        let mut m = StringMap::new();
        m.insert("author".to_string(), "x".to_string());
        ExtractedDocument { text: "body".to_string(), metadata: m }
    };
    let pdf = settle_extraction(FileType::PDF, Some(doc()));
    assert_eq!(pdf.text, "body");
    assert_eq!(pdf.metadata.get("author"), Some("x".to_string()));
    let txt = settle_extraction(FileType::TXT, Some(doc()));
    assert_eq!(txt.text, "body");
    assert_eq!(txt.metadata.get("author"), None);
    for t in [FileType::DOC, FileType::UNKNOWN] {
        let d = settle_extraction(t, Some(doc()));
        assert_eq!(d.text, "");
        assert!(d.metadata.entries().is_empty());
    }
    let failed = settle_extraction(FileType::DOCX, None);
    assert_eq!(failed.text, "");
    assert!(failed.metadata.entries().is_empty());
}

#[test]
fn settled_chunk_outcomes() {
    let some = || Some(vec![chunk("c", &[], Some(vec![1.0]))]);
    assert_eq!(settle_chunks(FileType::PDF, some()).len(), 1);
    assert_eq!(settle_chunks(FileType::DOCX, some()).len(), 1);
    assert_eq!(settle_chunks(FileType::TXT, some()).len(), 1);
    assert!(settle_chunks(FileType::DOC, some()).is_empty());
    assert!(settle_chunks(FileType::UNKNOWN, some()).is_empty());
    assert!(settle_chunks(FileType::PDF, None).is_empty());
    assert!(FileType::TXT.is_chunked());
    assert!(!FileType::DOC.is_chunked());
}

fn txt_plan() -> UploadPlan {
    let h = headers(&[("stream", "ds123_abc"), ("type", "file")]);
    upload_of(plan_message(&h, br#"{"bucket":"b1","filename":"doc.txt"}"#))
}

#[test]
fn upload_session_runs_scenario_to_one_write() {
    let (state, action) = UploadState::start(txt_plan());
    match action {
        UploadAction::Fetch { bucket, filename } => {
            assert_eq!(bucket, "b1");
            assert_eq!(filename, "doc.txt");
        }
        _ => panic!("expected a fetch"),
    }
    let (state, action) = state.step(UploadEvent::Fetched(Some(b"hello world".to_vec())));
    match action {
        UploadAction::Stage { path, bytes } => {
            assert_eq!(path, "doc.txt");
            assert_eq!(bytes, b"hello world".to_vec());
        }
        _ => panic!("expected staging"),
    }
    let (state, action) = state.step(UploadEvent::Staged(true));
    match action {
        UploadAction::Extract { method, path } => {
            assert_eq!(method, Extraction::ReadVerbatim);
            assert_eq!(path, "doc.txt");
        }
        _ => panic!("expected extraction"),
    }
    let doc = ExtractedDocument { text: "hello world".to_string(), metadata: StringMap::new() };
    let (state, action) = state.step(UploadEvent::Extracted(Some(doc)));
    assert!(matches!(action, UploadAction::RemoveStaged { ref path } if path == "doc.txt"));
    let (state, action) = state.step(UploadEvent::Removed);
    match action {
        UploadAction::Chunk { text, metadata, strategy } => {
            assert_eq!(text, "hello world");
            assert!(metadata.entries().is_empty());
            assert_eq!(strategy, ChunkingStrategy::SEMANTIC_CHUNKING);
        }
        _ => panic!("expected chunking"),
    }
    let chunks = vec![chunk("hello world", &[], Some(vec![0.1, 0.2]))];
    let (state, action) = state.step(UploadEvent::Chunked(Some(chunks)));
    match action {
        UploadAction::Write { collection, points } => {
            assert_eq!(collection, "ds123");
            assert_eq!(points.len(), 1);
            assert_eq!(points[0].vector, vec![0.1f32.to_bits(), 0.2f32.to_bits()]);
            assert_eq!(points[0].payload.entries().len(), 1);
            assert_eq!(points[0].payload.get("text"), Some("hello world".to_string()));
        }
        _ => panic!("expected a write"),
    }
    let (state, action) = state.step(UploadEvent::Written(true));
    assert!(matches!(action, UploadAction::Finish));
    assert!(matches!(state, UploadState::Done));
}

#[test]
fn staged_file_removed_after_failed_extraction() {
    let (state, _) = UploadState::start(txt_plan());
    let (state, _) = state.step(UploadEvent::Fetched(Some(b"x".to_vec())));
    let (state, _) = state.step(UploadEvent::Staged(true));
    let (state, action) = state.step(UploadEvent::Extracted(None));
    assert!(matches!(action, UploadAction::RemoveStaged { ref path } if path == "doc.txt"));
    let (_, action) = state.step(UploadEvent::Removed);
    match action {
        UploadAction::Chunk { text, .. } => assert_eq!(text, ""),
        _ => panic!("expected chunking of the empty document"),
    }
}

#[test]
fn unread_file_type_is_removed_without_extraction() {
    let h = headers(&[("stream", "ds1_a"), ("type", "file")]);
    let plan = upload_of(plan_message(&h, br#"{"bucket":"b","filename":"old.doc"}"#));
    let (state, _) = UploadState::start(plan);
    let (state, _) = state.step(UploadEvent::Fetched(Some(b"x".to_vec())));
    let (state, action) = state.step(UploadEvent::Staged(true));
    assert!(matches!(action, UploadAction::RemoveStaged { ref path } if path == "old.doc"));
    let (state, action) = state.step(UploadEvent::Removed);
    assert!(matches!(action, UploadAction::Finish));
    assert!(matches!(state, UploadState::Done));
}

#[test]
fn upload_session_failures() {
    let (state, _) = UploadState::start(txt_plan());
    let (_, action) = state.step(UploadEvent::Fetched(None));
    assert!(matches!(action, UploadAction::Finish));

    let (state, _) = UploadState::start(txt_plan());
    let (state, _) = state.step(UploadEvent::Fetched(Some(vec![1])));
    let (_, action) = state.step(UploadEvent::Staged(false));
    assert!(matches!(action, UploadAction::Finish));

    let (state, _) = UploadState::start(txt_plan());
    let (state, _) = state.step(UploadEvent::Fetched(Some(vec![1])));
    let (state, _) = state.step(UploadEvent::Staged(true));
    let (state, _) = state.step(UploadEvent::Extracted(None));
    let (state, _) = state.step(UploadEvent::Removed);
    let (_, action) = state.step(UploadEvent::Chunked(None));
    assert!(matches!(action, UploadAction::Finish));

    let (state, _) = UploadState::start(txt_plan());
    let (state, _) = state.step(UploadEvent::Fetched(Some(vec![1])));
    let (state, _) = state.step(UploadEvent::Staged(true));
    let (state, _) = state.step(UploadEvent::Extracted(None));
    let (state, _) = state.step(UploadEvent::Removed);
    let (state, _) = state.step(UploadEvent::Chunked(Some(vec![chunk("t", &[], Some(vec![1.0]))])));
    let (_, action) = state.step(UploadEvent::Written(false));
    assert!(matches!(action, UploadAction::Stop));
}

#[test]
fn unexpected_event_finishes_message() {
    let (state, _) = UploadState::start(txt_plan());
    let (state, action) = state.step(UploadEvent::Removed);
    assert!(matches!(action, UploadAction::Finish));
    assert!(matches!(state, UploadState::Done));
}
