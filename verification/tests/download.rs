use canvas_assembly::domain::{CanvasProductError, JsonValue};
use canvas_assembly::download::{ContentDownload, DownloadAction, DownloadEvent, DownloadStage};

fn internal(action: DownloadAction) -> String {
    match action {
        DownloadAction::Finish(Err(CanvasProductError::Internal(message))) => message,
        other => panic!("expected an internal error, got {other:?}"),
    }
}

fn fetching() -> ContentDownload {
    let (mut download, _) = ContentDownload::start("node-1".to_string());
    download.on_event(DownloadEvent::UrlCreated(Ok("https://objects.example.com/node-1".to_string())));
    download
}

#[test]
fn download_asks_for_a_url_then_fetches_reads_and_parses() {
    let (mut download, first) = ContentDownload::start("node-1".to_string());
    match first {
        DownloadAction::CreateDownloadUrl { node_id, ttl_seconds } => {
            assert_eq!(node_id, "node-1");
            assert_eq!(ttl_seconds, 900);
        },
        other => panic!("expected a download url request, got {other:?}"),
    }
    match download.on_event(DownloadEvent::UrlCreated(Ok("https://objects.example.com/node-1".to_string()))) {
        DownloadAction::Fetch { url } => assert_eq!(url, "https://objects.example.com/node-1"),
        other => panic!("expected a fetch, got {other:?}"),
    }
    assert!(matches!(download.on_event(DownloadEvent::Fetched(Ok(200))), DownloadAction::ReadBytes));
    match download.on_event(DownloadEvent::BytesRead(Ok(b"{}".to_vec()))) {
        DownloadAction::Parse { bytes } => assert_eq!(bytes, b"{}".to_vec()),
        other => panic!("expected a parse, got {other:?}"),
    }
    match download.on_event(DownloadEvent::Parsed(Ok(JsonValue::Bool(true)))) {
        DownloadAction::Finish(Ok(JsonValue::Bool(true))) => {},
        other => panic!("expected the parsed content, got {other:?}"),
    }
    assert!(matches!(download.stage, DownloadStage::Finished));
    assert_eq!(download.node_id, "node-1");
}

#[test]
fn download_reports_each_failed_step() {
    let (mut download, _) = ContentDownload::start("node-1".to_string());
    assert_eq!(
        internal(download.on_event(DownloadEvent::UrlCreated(Err("denied".to_string())))),
        "create Drive download url: denied"
    );
    let mut download = fetching();
    assert_eq!(
        internal(download.on_event(DownloadEvent::Fetched(Err("dns failure".to_string())))),
        "download Drive content failed: dns failure"
    );
    let mut download = fetching();
    assert!(matches!(download.on_event(DownloadEvent::Fetched(Ok(403))), DownloadAction::ReadErrorBody));
    assert_eq!(
        internal(download.on_event(DownloadEvent::ErrorBodyRead(Some("expired".to_string())))),
        "download Drive content failed with status 403 Forbidden: expired"
    );
    let mut download = fetching();
    download.on_event(DownloadEvent::Fetched(Ok(200)));
    assert_eq!(
        internal(download.on_event(DownloadEvent::BytesRead(Err("body closed".to_string())))),
        "read Drive content bytes failed: body closed"
    );
    let mut download = fetching();
    download.on_event(DownloadEvent::Fetched(Ok(200)));
    download.on_event(DownloadEvent::BytesRead(Ok(b"{".to_vec())));
    assert_eq!(
        internal(download.on_event(DownloadEvent::Parsed(Err("EOF while parsing".to_string())))),
        "parse Drive page content json failed: EOF while parsing"
    );
}
