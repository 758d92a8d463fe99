use updater_core::download::{
    classify_failure, download_success_message, user_agent, DownloadPhase, DownloadRequest,
    DownloadSession, CONNECT_TIMEOUT_SECS, REDIRECT_LIMIT, TOTAL_TIMEOUT_SECS,
};
use updater_core::errors::DownloadError;

fn request(url: &str, dest: &str) -> DownloadRequest {
    DownloadRequest {
        url: url.to_string(),
        destination_path: dest.to_string(),
        display_name: "app.pkg".to_string(),
    }
}

fn started(total: u64) -> DownloadSession {
    let mut s = DownloadSession::new(request("https://host/app.pkg", "/tmp/app.pkg"));
    s.on_existing(false, false, String::new()).unwrap();
    s.on_parent(true, false, String::new()).unwrap();
    s.on_probe(true, String::new()).unwrap();
    s.on_response(200, "OK".to_string(), total).unwrap();
    s
}

#[test]
fn five_mebibyte_download_succeeds_with_one_full_progress_event() {
    let total: u64 = 5 * 1024 * 1024;
    let mut s = started(total);
    let chunk = vec![0u8; 1024 * 1024];
    let mut full_events = 0;
    let mut logged = Vec::new();
    let mut last_downloaded = 0;
    for _ in 0..5 {
        let (event, log) = s.on_chunk(&chunk);
        assert_eq!(event.total, total);
        assert_eq!(event.downloaded, last_downloaded + chunk.len() as u64);
        last_downloaded = event.downloaded;
        if event.percent_hundredths == Some(10000) {
            full_events += 1;
        }
        if let Some(m) = log {
            logged.push(m);
        }
    }
    assert_eq!(full_events, 1);
    assert_eq!(logged, vec![1, 2, 3, 4, 5]);
    let artifact = s.finish(total).unwrap();
    assert_eq!(artifact.path, "/tmp/app.pkg");
    assert_eq!(artifact.size_bytes, total);
    assert!(artifact.exists);
    assert_eq!(s.phase, DownloadPhase::Complete);
    let message = download_success_message(&artifact.path);
    assert!(message.contains("/tmp/app.pkg"));
    assert_eq!(message, "Downloaded successfully to: /tmp/app.pkg");
}

#[test]
fn overwrite_keeps_only_the_new_bytes() {
    // The destination held ten unrelated bytes; the protocol deletes them
    // before the transfer, and the hundred new bytes are all that count.
    let mut s = DownloadSession::new(request("https://host/app.pkg", "/tmp/app.pkg"));
    s.on_existing(true, true, String::new()).unwrap();
    s.on_parent(true, false, String::new()).unwrap();
    s.on_probe(true, String::new()).unwrap();
    s.on_response(200, "OK".to_string(), 100).unwrap();
    let body = vec![7u8; 100];
    let (event, _) = s.on_chunk(&body);
    assert_eq!(event.downloaded, 100);
    assert_eq!(event.percent_hundredths, Some(10000));
    let artifact = s.finish(100).unwrap();
    assert_eq!(artifact.size_bytes, 100);
}

#[test]
fn byte_accounting_matches_the_chunk_lengths() {
    let chunks: Vec<Vec<u8>> = vec![vec![1u8; 10], vec![2u8; 25], vec![3u8; 7]];
    let total: u64 = 42;
    let mut s = started(total);
    let mut last_event_downloaded = 0;
    for c in &chunks {
        let (event, _) = s.on_chunk(c);
        last_event_downloaded = event.downloaded;
    }
    let sum: u64 = chunks.iter().map(|c| c.len() as u64).sum();
    assert_eq!(last_event_downloaded, sum);
    assert_eq!(s.downloaded, sum);
    let artifact = s.finish(sum).unwrap();
    assert_eq!(artifact.size_bytes, sum);
}

#[test]
fn stubborn_existing_file_fails_the_download() {
    let mut s = DownloadSession::new(request("https://host/a", "/tmp/a"));
    let err = s
        .on_existing(true, false, "/tmp/a is locked".to_string())
        .unwrap_err();
    assert_eq!(
        err,
        DownloadError::CannotRemoveExisting("/tmp/a is locked".to_string())
    );
    assert_eq!(
        err.message(),
        "Cannot remove existing file: /tmp/a is locked"
    );
    assert_eq!(s.phase, DownloadPhase::Failed);
}

#[test]
fn missing_parent_that_cannot_be_made_fails() {
    let mut s = DownloadSession::new(request("https://host/a", "/nope/a"));
    s.on_existing(false, false, String::new()).unwrap();
    let err = s.on_parent(false, false, "read-only".to_string()).unwrap_err();
    assert_eq!(err, DownloadError::DirectoryCreateFailed("read-only".to_string()));
    assert_eq!(err.message(), "Failed to create directory: read-only");
}

#[test]
fn refused_probe_is_a_permission_failure() {
    let mut s = DownloadSession::new(request("https://host/a", "/tmp/a"));
    s.on_existing(false, false, String::new()).unwrap();
    s.on_parent(true, false, String::new()).unwrap();
    let err = s.on_probe(false, "/tmp".to_string()).unwrap_err();
    assert_eq!(err, DownloadError::PermissionDenied("/tmp".to_string()));
    assert_eq!(err.message(), "Permission denied: /tmp");
}

#[test]
fn non_2xx_status_fails_with_status_and_reason() {
    let mut s = DownloadSession::new(request("https://host/a", "/tmp/a"));
    s.on_existing(false, false, String::new()).unwrap();
    s.on_parent(true, false, String::new()).unwrap();
    s.on_probe(true, String::new()).unwrap();
    let err = s
        .on_response(404, "Not Found".to_string(), 0)
        .unwrap_err();
    assert_eq!(
        err,
        DownloadError::HttpStatus {
            status: 404,
            reason: "Not Found".to_string()
        }
    );
    assert_eq!(err.message(), "HTTP error: 404 - Not Found");
    assert_eq!(s.phase, DownloadPhase::Failed);
}

#[test]
fn redirect_status_is_not_success() {
    let mut s = DownloadSession::new(request("https://host/a", "/tmp/a"));
    s.on_existing(false, false, String::new()).unwrap();
    s.on_parent(true, false, String::new()).unwrap();
    s.on_probe(true, String::new()).unwrap();
    assert!(s.on_response(301, "Moved Permanently".to_string(), 0).is_err());
}

#[test]
fn empty_file_is_an_error() {
    let mut s = started(0);
    let err = s.finish(0).unwrap_err();
    assert_eq!(err, DownloadError::EmptyDownload);
    assert_eq!(err.message(), "Downloaded file is empty (0 bytes)");
}

#[test]
fn size_mismatch_is_incomplete() {
    let mut s = started(100);
    let (..) = s.on_chunk(&vec![0u8; 50]);
    let err = s.finish(50).unwrap_err();
    assert_eq!(
        err,
        DownloadError::IncompleteDownload {
            expected: 100,
            actual: 50
        }
    );
    assert_eq!(
        err.message(),
        "Incomplete download: expected 100 bytes, got 50 bytes"
    );
}

#[test]
fn unknown_total_gives_no_percentage_and_no_milestones() {
    let mut s = started(0);
    let (event, log) = s.on_chunk(&vec![0u8; 1000]);
    assert_eq!(event.downloaded, 1000);
    assert_eq!(event.total, 0);
    assert_eq!(event.percent_hundredths, None);
    assert_eq!(log, None);
    let artifact = s.finish(1000).unwrap();
    assert_eq!(artifact.size_bytes, 1000);
}

#[test]
fn interleaved_downloads_keep_independent_milestones() {
    // Two downloads run concurrently as separate sessions; neither one's
    // milestone throttle sees the other's progress.
    let mut a = started(100);
    let mut b = started(1000);
    let chunk_a = vec![0u8; 50];
    let chunk_b = vec![0u8; 100];
    let (_, log_a1) = a.on_chunk(&chunk_a);
    let (_, log_b1) = b.on_chunk(&chunk_b);
    assert_eq!(log_a1, Some(2));
    assert_eq!(log_b1, None);
    let (_, log_b2) = b.on_chunk(&chunk_b);
    let (_, log_a2) = a.on_chunk(&chunk_a);
    assert_eq!(log_b2, Some(1));
    assert_eq!(log_a2, Some(5));
    assert_eq!(a.downloaded, 100);
    assert_eq!(b.downloaded, 200);
}

#[test]
fn transport_limits_are_the_fixed_ones() {
    assert_eq!(REDIRECT_LIMIT, 10);
    assert_eq!(CONNECT_TIMEOUT_SECS, 30);
    assert_eq!(TOTAL_TIMEOUT_SECS, 300);
    assert_eq!(user_agent(), "updater-core/0.1");
}

#[test]
fn failure_text_classification() {
    assert_eq!(
        classify_failure("curl: Permission denied while writing /x".to_string()),
        DownloadError::PermissionDenied("curl: Permission denied while writing /x".to_string())
    );
    assert_eq!(
        classify_failure("open: Operation not permitted".to_string()),
        DownloadError::PermissionDenied("open: Operation not permitted".to_string())
    );
    assert_eq!(
        classify_failure("write failed: No space left on device".to_string()),
        DownloadError::DiskSpaceExhausted("write failed: No space left on device".to_string())
    );
    assert_eq!(
        classify_failure("curl: (6) Could not resolve host: host".to_string()),
        DownloadError::NetworkUnreachable("curl: (6) Could not resolve host: host".to_string())
    );
    assert_eq!(
        classify_failure("connection reset by peer".to_string()),
        DownloadError::DownloadFailed("connection reset by peer".to_string())
    );
    assert_eq!(
        classify_failure(String::new()),
        DownloadError::DownloadFailed(String::new())
    );
}
