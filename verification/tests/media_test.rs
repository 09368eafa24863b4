use base64::Engine as _;
use langfuse::api::{download_target, media_upload_request, upload_target, MediaRecord, MediaUploadTicket};
use langfuse::error::LangfuseError;
use langfuse::media::{parse_media_references, split_data_uri, LangfuseMedia};

#[test]
fn data_uri_decodes_to_bytes() {
    let media = LangfuseMedia::from_data_uri("data:image/png;base64,aGVsbG8=").unwrap();
    assert_eq!(media.content_type, "image/png");
    assert_eq!(media.data, b"hello".to_vec());
    assert_eq!(media.size(), 5);
}

#[test]
fn data_uri_errors() {
    match LangfuseMedia::from_data_uri("no comma here") {
        Err(LangfuseError::Media(m)) => assert_eq!(m, "Invalid data URI"),
        other => panic!("unexpected {other:?}"),
    }
    match LangfuseMedia::from_data_uri("image/png;base64,aGVsbG8=") {
        Err(LangfuseError::Media(m)) => assert_eq!(m, "Invalid data URI format"),
        other => panic!("unexpected {other:?}"),
    }
    match LangfuseMedia::from_data_uri("data:image/png,aGVsbG8=") {
        Err(LangfuseError::Media(m)) => assert_eq!(m, "Invalid data URI format"),
        other => panic!("unexpected {other:?}"),
    }
    match LangfuseMedia::from_data_uri("data:text/plain;base64,!!!") {
        Err(LangfuseError::Media(m)) => assert!(m.starts_with("Base64 decode error: ")),
        other => panic!("unexpected {other:?}"),
    }
}

#[test]
fn data_uri_splits_at_the_first_comma() {
    let (ct, payload) = split_data_uri("data:;base64,a,b").unwrap();
    assert_eq!(ct, "");
    assert_eq!(payload, "a,b");
}

#[test]
fn from_bytes_keeps_type_and_data() {
    let media = LangfuseMedia::from_bytes("audio/wav", vec![1, 2, 3]);
    assert_eq!(media.content_type, "audio/wav");
    assert_eq!(media.data, vec![1, 2, 3]);
    assert_eq!(media.size(), 3);
}

#[test]
fn media_references_are_parsed_in_order() {
    let text = "a @@@langfuseMedia:type=image/png|id=m-1|source=base64_data_uri@@@ b \
                @@@langfuseMedia:type=audio/wav|id=m-2|source=bytes@@@";
    let refs = parse_media_references(text);
    assert_eq!(refs.len(), 2);
    assert_eq!(refs[0].content_type, "image/png");
    assert_eq!(refs[0].media_id, "m-1");
    assert_eq!(refs[0].source, "base64_data_uri");
    assert_eq!(refs[1].content_type, "audio/wav");
    assert_eq!(refs[1].media_id, "m-2");
    assert_eq!(refs[1].source, "bytes");
}

#[test]
fn incomplete_media_references_are_skipped() {
    let refs = parse_media_references("@@@langfuseMedia:type=a|id=b@@@ @@@langfuseMedia:type=x|id=y|source=z");
    assert!(refs.is_empty());
    assert!(parse_media_references("no tokens").is_empty());
}

#[test]
fn media_references_follow_the_documented_pattern() {
    // Every field must be non-empty.
    assert!(parse_media_references("@@@langfuseMedia:type=|id=m-1|source=bytes@@@").is_empty());
    assert!(parse_media_references("@@@langfuseMedia:type=a|id=|source=bytes@@@").is_empty());
    assert!(parse_media_references("@@@langfuseMedia:type=a|id=m|source=@@@").is_empty());
    // The fields come in the documented order.
    assert!(parse_media_references("@@@langfuseMedia:source=s|id=m|type=t@@@").is_empty());
    // The source runs to the first `@`, and may hold a `|`.
    let refs = parse_media_references("@@@langfuseMedia:type=t|id=m|source=a|b@@@");
    assert_eq!(refs.len(), 1);
    assert_eq!(refs[0].source, "a|b");
    assert!(parse_media_references("@@@langfuseMedia:type=t|id=m|source=a@b@@@").is_empty());
    // A match may begin inside a longer run of `@`.
    let refs = parse_media_references("@@@@langfuseMedia:type=t|id=m|source=s@@@");
    assert_eq!(refs.len(), 1);
    assert_eq!(refs[0].media_id, "m");
}

#[test]
fn a_formatted_media_reference_round_trips() {
    for (ct, id, src) in [("image/png", "m-1", "base64_data_uri"), ("a@b", "x", "bytes|raw")] {
        let text = format!("@@@langfuseMedia:type={ct}|id={id}|source={src}@@@");
        let refs = parse_media_references(&text);
        assert_eq!(refs.len(), 1);
        assert_eq!(refs[0].content_type, ct);
        assert_eq!(refs[0].media_id, id);
        assert_eq!(refs[0].source, src);
    }
}

#[test]
fn upload_request_carries_the_media_size() {
    let media = LangfuseMedia::from_bytes("image/png", vec![0; 42]);
    let req = media_upload_request("t-1", Some("o-1"), "input", &media);
    assert_eq!(req.trace_id, "t-1");
    assert_eq!(req.observation_id.as_deref(), Some("o-1"));
    assert_eq!(req.field, "input");
    assert_eq!(req.content_type, "image/png");
    assert_eq!(req.content_length, 42);
}

#[test]
fn upload_answers() {
    let ok = upload_target(MediaUploadTicket {
        media_id: Some("m".to_string()),
        upload_url: Some("https://u".to_string()),
    })
    .unwrap();
    assert_eq!(ok, ("m".to_string(), "https://u".to_string()));
    match upload_target(MediaUploadTicket { media_id: None, upload_url: None }) {
        Err(LangfuseError::Media(m)) => assert_eq!(m, "Missing mediaId in response"),
        other => panic!("unexpected {other:?}"),
    }
    match upload_target(MediaUploadTicket { media_id: Some("m".to_string()), upload_url: None }) {
        Err(LangfuseError::Media(m)) => assert_eq!(m, "Missing uploadUrl in response"),
        other => panic!("unexpected {other:?}"),
    }
}

#[test]
fn download_answers() {
    let (ct, url) = download_target(MediaRecord { content_type: None, url: Some("https://d".to_string()) }).unwrap();
    assert_eq!(ct, "application/octet-stream");
    assert_eq!(url, "https://d");
    let (ct, _) = download_target(MediaRecord {
        content_type: Some("image/gif".to_string()),
        url: Some("https://d".to_string()),
    })
    .unwrap();
    assert_eq!(ct, "image/gif");
    match download_target(MediaRecord { content_type: Some("x".to_string()), url: None }) {
        Err(LangfuseError::Media(m)) => assert_eq!(m, "Missing url in response"),
        other => panic!("unexpected {other:?}"),
    }
}

#[test]
fn a_built_data_uri_round_trips() {
    for data in [vec![], vec![0u8], vec![1, 2], vec![255, 0, 7, 9, 44, 200, 13]] {
        let uri = format!(
            "data:text/plain;charset=utf-8;base64,{}",
            base64::engine::general_purpose::STANDARD.encode(&data)
        );
        let m = LangfuseMedia::from_data_uri(&uri).expect("round trip");
        assert_eq!(m.content_type, "text/plain;charset=utf-8");
        assert_eq!(m.data, data);
        assert_eq!(m.size(), data.len());
    }
}
