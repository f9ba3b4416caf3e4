use crosspost::{
    header_text, is_visible_ascii, media_type_of, Action, AttachmentRequest, Description, Event,
    NewStatus, Phase, Pipeline, Platform, Stage,
};

fn attachment(url: &str, alt: Option<&str>) -> AttachmentRequest {
    AttachmentRequest { attachment_url: url.to_string(), alt_text: alt.map(|a| a.to_string()) }
}

fn request(text: &str, attachments: Vec<AttachmentRequest>) -> NewStatus {
    NewStatus { text: text.to_string(), attachments }
}

fn expect_submit(a: Action, text: &str, ids: &[&str]) {
    match a {
        Action::Submit { text: t, media_ids } => {
            assert_eq!(t, text);
            let want: Vec<String> = ids.iter().map(|s| s.to_string()).collect();
            assert_eq!(media_ids, want);
        }
        other => panic!("expected a submission, got {:?}", other),
    }
}

fn expect_download(a: Action, url: &str) {
    match a {
        Action::Download { url: u } => assert_eq!(u, url),
        other => panic!("expected a download, got {:?}", other),
    }
}

#[test]
fn text_only_status_is_submitted_at_once() {
    for platform in [Platform::Mastodon, Platform::Twitter] {
        let mut p = Pipeline::new(platform, request("hello", vec![]));
        assert_eq!(p.phase(), Phase::Ready);
        expect_submit(p.begin(), "hello", &[]);
        assert_eq!(p.phase(), Phase::Submitting);
        assert!(matches!(p.step(Event::Submitted), Action::Stop));
        assert_eq!(p.phase(), Phase::Done);
        assert!(p.media_ids().is_empty());
        assert!(p.error().is_none());
    }
}

#[test]
fn mastodon_attachment_with_alt_text() {
    let mut p = Pipeline::new(
        Platform::Mastodon,
        request("pic", vec![attachment("http://x/a.png", Some("a cat"))]),
    );
    expect_download(p.begin(), "http://x/a.png");
    assert!(matches!(p.step(Event::Downloaded { content_type: None }), Action::Stage));
    match p.step(Event::Staged) {
        Action::UploadStaged { description } => {
            assert_eq!(description, Description::WithDescription("a cat".to_string()))
        }
        other => panic!("expected an upload, got {:?}", other),
    }
    assert!(matches!(p.step(Event::Uploaded { media_id: "m1".to_string() }), Action::Release));
    expect_submit(p.step(Event::Released), "pic", &["m1"]);
    assert!(matches!(p.step(Event::Submitted), Action::Stop));
    assert_eq!(p.phase(), Phase::Done);
    assert_eq!(p.media_ids().len(), 1);
}

#[test]
fn mastodon_attachment_without_alt_text_has_no_description() {
    let mut p = Pipeline::new(Platform::Mastodon, request("pic", vec![attachment("http://x/b.png", None)]));
    p.begin();
    p.step(Event::Downloaded { content_type: None });
    match p.step(Event::Staged) {
        Action::UploadStaged { description } => assert_eq!(description, Description::NoDescription),
        other => panic!("expected an upload, got {:?}", other),
    }
}

#[test]
fn twitter_attachment_with_alt_text_sets_metadata() {
    let mut p = Pipeline::new(
        Platform::Twitter,
        request("pic", vec![attachment("http://x/a.png", Some("a cat"))]),
    );
    expect_download(p.begin(), "http://x/a.png");
    match p.step(Event::Downloaded { content_type: Some(b"image/png".to_vec()) }) {
        Action::UploadBytes { media_type } => assert_eq!(media_type, mime::IMAGE_PNG),
        other => panic!("expected an upload, got {:?}", other),
    }
    match p.step(Event::Uploaded { media_id: "77".to_string() }) {
        Action::SetMetadata { media_id, alt_text } => {
            assert_eq!(media_id, "77");
            assert_eq!(alt_text, "a cat");
        }
        other => panic!("expected a metadata call, got {:?}", other),
    }
    expect_submit(p.step(Event::MetadataSet), "pic", &["77"]);
}

#[test]
fn twitter_attachment_without_alt_text_skips_metadata() {
    let mut p = Pipeline::new(
        Platform::Twitter,
        request("t", vec![attachment("http://x/1", None), attachment("http://x/2", None)]),
    );
    p.begin();
    p.step(Event::Downloaded { content_type: Some(b"image/gif".to_vec()) });
    expect_download(p.step(Event::Uploaded { media_id: "a".to_string() }), "http://x/2");
    p.step(Event::Downloaded { content_type: Some(b"video/mp4".to_vec()) });
    expect_submit(p.step(Event::Uploaded { media_id: "b".to_string() }), "t", &["a", "b"]);
}

#[test]
fn media_ids_keep_the_order_of_attachments() {
    let urls = ["http://x/1", "http://x/2", "http://x/3"];
    let mut p = Pipeline::new(
        Platform::Mastodon,
        request("three", urls.iter().map(|u| attachment(u, None)).collect()),
    );
    let mut a = p.begin();
    for (i, url) in urls.iter().enumerate() {
        expect_download(a, url);
        p.step(Event::Downloaded { content_type: None });
        p.step(Event::Staged);
        p.step(Event::Uploaded { media_id: format!("id{}", i) });
        a = p.step(Event::Released);
    }
    expect_submit(a, "three", &["id0", "id1", "id2"]);
}

#[test]
fn failed_first_download_stops_the_pipeline() {
    let mut p = Pipeline::new(
        Platform::Mastodon,
        request("two", vec![attachment("http://x/first", None), attachment("http://x/second", None)]),
    );
    expect_download(p.begin(), "http://x/first");
    let a = p.step(Event::DownloadFailed { reason: "connection refused".to_string() });
    assert!(matches!(a, Action::Stop));
    assert_eq!(p.phase(), Phase::Failed);
    let e = p.error().clone().unwrap();
    assert_eq!(e.stage, Stage::Fetch);
    assert_eq!(e.url, Some("http://x/first".to_string()));
    assert_eq!(e.reason, "connection refused");
    assert!(p.media_ids().is_empty());
    assert!(!p.awaits(&Event::Uploaded { media_id: "x".to_string() }));
    assert!(!p.awaits(&Event::Submitted));
    assert!(!p.awaits(&Event::Downloaded { content_type: None }));
}

#[test]
fn missing_content_type_is_an_error() {
    let mut p = Pipeline::new(Platform::Twitter, request("t", vec![attachment("http://x/1", None)]));
    p.begin();
    assert!(matches!(p.step(Event::Downloaded { content_type: None }), Action::Stop));
    let e = p.error().clone().unwrap();
    assert_eq!(e.stage, Stage::ContentType);
    assert_eq!(e.url, Some("http://x/1".to_string()));
}

#[test]
fn unparseable_content_type_is_an_error() {
    let mut p = Pipeline::new(Platform::Twitter, request("t", vec![attachment("http://x/1", None)]));
    p.begin();
    let a = p.step(Event::Downloaded { content_type: Some(b"not a media type".to_vec()) });
    assert!(matches!(a, Action::Stop));
    assert_eq!(p.error().clone().unwrap().stage, Stage::ContentType);
}

#[test]
fn unreadable_content_type_is_an_error() {
    let mut p = Pipeline::new(Platform::Twitter, request("t", vec![attachment("http://x/1", None)]));
    p.begin();
    let a = p.step(Event::Downloaded { content_type: Some(vec![b'i', 0x01, b'/', b'p']) });
    assert!(matches!(a, Action::Stop));
    assert_eq!(p.error().clone().unwrap().stage, Stage::ContentType);
}

#[test]
fn staging_failure_is_an_error() {
    let mut p = Pipeline::new(Platform::Mastodon, request("t", vec![attachment("http://x/1", None)]));
    p.begin();
    p.step(Event::Downloaded { content_type: None });
    assert!(matches!(p.step(Event::StagingFailed { reason: "disk full".to_string() }), Action::Stop));
    let e = p.error().clone().unwrap();
    assert_eq!(e.stage, Stage::Staging);
    assert_eq!(e.reason, "disk full");
}

#[test]
fn failed_upload_still_deletes_the_staged_file() {
    let mut p = Pipeline::new(
        Platform::Mastodon,
        request("t", vec![attachment("http://x/1", None), attachment("http://x/2", None)]),
    );
    p.begin();
    p.step(Event::Downloaded { content_type: None });
    p.step(Event::Staged);
    let a = p.step(Event::UploadFailed { reason: "too large".to_string() });
    assert!(matches!(a, Action::Release));
    assert_eq!(p.phase(), Phase::Releasing);
    assert!(matches!(p.step(Event::Released), Action::Stop));
    assert_eq!(p.phase(), Phase::Failed);
    let e = p.error().clone().unwrap();
    assert_eq!(e.stage, Stage::Upload);
    assert_eq!(e.url, Some("http://x/1".to_string()));
    assert_eq!(e.reason, "too large");
}

#[test]
fn failed_deletion_after_a_failed_upload_keeps_the_upload_error() {
    let mut p = Pipeline::new(Platform::Mastodon, request("t", vec![attachment("http://x/1", None)]));
    p.begin();
    p.step(Event::Downloaded { content_type: None });
    p.step(Event::Staged);
    p.step(Event::UploadFailed { reason: "rejected".to_string() });
    assert!(matches!(p.step(Event::ReleaseFailed { reason: "busy".to_string() }), Action::Stop));
    assert_eq!(p.error().clone().unwrap().stage, Stage::Upload);
}

#[test]
fn failed_deletion_after_an_upload_is_an_error() {
    let mut p = Pipeline::new(Platform::Mastodon, request("t", vec![attachment("http://x/1", None)]));
    p.begin();
    p.step(Event::Downloaded { content_type: None });
    p.step(Event::Staged);
    p.step(Event::Uploaded { media_id: "m".to_string() });
    assert!(matches!(p.step(Event::ReleaseFailed { reason: "busy".to_string() }), Action::Stop));
    let e = p.error().clone().unwrap();
    assert_eq!(e.stage, Stage::Release);
    assert_eq!(e.reason, "busy");
    assert_eq!(p.phase(), Phase::Failed);
}

#[test]
fn failed_metadata_call_stops_before_submission() {
    let mut p = Pipeline::new(
        Platform::Twitter,
        request("t", vec![attachment("http://x/1", Some("d")), attachment("http://x/2", None)]),
    );
    p.begin();
    p.step(Event::Downloaded { content_type: Some(b"image/jpeg".to_vec()) });
    p.step(Event::Uploaded { media_id: "9".to_string() });
    assert!(matches!(p.step(Event::MetadataFailed { reason: "nope".to_string() }), Action::Stop));
    let e = p.error().clone().unwrap();
    assert_eq!(e.stage, Stage::Metadata);
    assert_eq!(e.url, Some("http://x/1".to_string()));
    assert_eq!(p.phase(), Phase::Failed);
}

#[test]
fn failed_submission_is_an_error() {
    let mut p = Pipeline::new(Platform::Twitter, request("t", vec![]));
    p.begin();
    assert!(matches!(p.step(Event::SubmitFailed { reason: "503".to_string() }), Action::Stop));
    let e = p.error().clone().unwrap();
    assert_eq!(e.stage, Stage::Submission);
    assert_eq!(e.url, None);
    assert_eq!(e.reason, "503");
}

#[test]
fn pipeline_awaits_only_the_events_of_its_phase() {
    let mut p = Pipeline::new(Platform::Mastodon, request("t", vec![attachment("http://x/1", None)]));
    assert!(!p.awaits(&Event::Staged));
    p.begin();
    assert!(p.awaits(&Event::Downloaded { content_type: None }));
    assert!(p.awaits(&Event::DownloadFailed { reason: String::new() }));
    assert!(!p.awaits(&Event::Staged));
    assert!(!p.awaits(&Event::Submitted));
}

#[test]
fn description_from_alt_text() {
    assert_eq!(Description::from_alt_text(&None), Description::NoDescription);
    assert_eq!(
        Description::from_alt_text(&Some(String::new())),
        Description::WithDescription(String::new())
    );
}

#[test]
fn header_values_read_as_text() {
    assert!(is_visible_ascii(b"text/plain; charset=utf-8"));
    assert!(is_visible_ascii(b"a\tb"));
    assert!(is_visible_ascii(b""));
    assert!(!is_visible_ascii(&[0x7f]));
    assert!(!is_visible_ascii("caf\u{e9}".as_bytes()));
    assert_eq!(header_text(b"image/png"), Some("image/png".to_string()));
    assert_eq!(header_text(&[b'a', 0x0a]), None);
}

#[test]
fn media_type_of_a_header() {
    let t = media_type_of(&Some(b"text/plain; charset=utf-8".to_vec())).unwrap();
    assert_eq!(t.essence_str(), "text/plain");
    assert_eq!(t.get_param(mime::CHARSET), Some(mime::UTF_8));
    assert_eq!(media_type_of(&Some(b"image/png".to_vec())), Some(mime::IMAGE_PNG));
    assert_eq!(media_type_of(&Some(b"png".to_vec())), None);
    assert_eq!(media_type_of(&None), None);
}
