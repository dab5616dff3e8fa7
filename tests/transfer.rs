use superbuilder_client::notify::Notification;
use superbuilder_client::transfer::{
    download_open_failure, upload_open_failure, DownloadSession, DownloadUpdate, UploadSession, UploadUpdate,
};

fn update(progress: i32, file: &str) -> DownloadUpdate {
    DownloadUpdate { progress, file_downloaded: file.to_string() }
}

/// Feeds updates until the session reports completion; returns how many were
/// read and the outcome.
fn drive(url: &str, updates: Vec<DownloadUpdate>) -> (usize, Vec<(String, i32)>, Result<String, String>) {
    let mut s = DownloadSession::new(url.to_string());
    let mut notes = Vec::new();
    let mut read = 0;
    for u in updates {
        read += 1;
        let (note, done) = s.on_progress(u);
        match note {
            Notification::DownloadProgress { file_url, progress } => notes.push((file_url, progress)),
            _ => panic!("expected a progress notification"),
        }
        if let Some(f) = done {
            return (read, notes, Ok(f));
        }
    }
    (read, notes, Err(s.on_stream_end()))
}

#[test]
fn download_returns_at_first_hundred() {
    let (read, notes, out) = drive(
        "http://m/x",
        vec![update(10, "a"), update(60, "b"), update(100, "done.bin"), update(100, "later"), update(5, "z")],
    );
    assert_eq!(read, 3);
    assert_eq!(out, Ok("done.bin".to_string()));
    assert_eq!(notes, vec![
        ("http://m/x".to_string(), 10),
        ("http://m/x".to_string(), 60),
        ("http://m/x".to_string(), 100),
    ]);
}

#[test]
fn download_without_hundred_fails_with_last_file() {
    let (read, _, out) = drive("u", vec![update(10, "a"), update(99, "b"), update(101, "c")]);
    assert_eq!(read, 3);
    assert_eq!(out, Err("c".to_string()));
}

#[test]
fn download_empty_stream_fails_with_empty_detail() {
    let (read, notes, out) = drive("u", Vec::new());
    assert_eq!(read, 0);
    assert!(notes.is_empty());
    assert_eq!(out, Err(String::new()));
}

#[test]
fn download_errors() {
    let s = DownloadSession::new("u".to_string());
    assert_eq!(s.on_stream_error("eof"), "Error receiving download progress: eof");
    assert_eq!(download_open_failure("denied"), "Failed to download file: denied");
}

#[test]
fn upload_defaults_for_absent_parts() {
    let mut s = UploadSession::new();
    let n = s.on_progress(UploadUpdate {
        files_uploaded: "[a]".to_string(),
        current_file: None,
        current_progress: None,
    });
    match n {
        Notification::UploadProgress { files_uploaded, current_file, current_progress } => {
            assert_eq!(files_uploaded, "[a]");
            assert_eq!(current_file, "No file");
            assert_eq!(current_progress, "No progress");
        }
        _ => panic!("expected upload progress"),
    }
}

#[test]
fn upload_keeps_given_parts_and_completes_with_last_list() {
    let mut s = UploadSession::new();
    let n = s.on_progress(UploadUpdate {
        files_uploaded: "[a]".to_string(),
        current_file: Some("b.pdf".to_string()),
        current_progress: Some("40%".to_string()),
    });
    match n {
        Notification::UploadProgress { current_file, current_progress, .. } => {
            assert_eq!(current_file, "b.pdf");
            assert_eq!(current_progress, "40%");
        }
        _ => panic!("expected upload progress"),
    }
    s.on_progress(UploadUpdate { files_uploaded: "[a,b]".to_string(), current_file: None, current_progress: None });
    let (note, result) = s.on_stream_end();
    assert_eq!(result, "[a,b]");
    match note {
        Notification::UploadCompleted(v) => assert_eq!(v, "[a,b]"),
        _ => panic!("expected upload completion"),
    }
}

#[test]
fn upload_with_no_progress_completes_empty() {
    let s = UploadSession::new();
    let (note, result) = s.on_stream_end();
    assert_eq!(result, "");
    assert!(matches!(note, Notification::UploadCompleted(ref v) if v.is_empty()));
}

#[test]
fn upload_errors() {
    let s = UploadSession::new();
    assert_eq!(s.on_stream_error("lost"), "Stream error: lost");
    assert_eq!(upload_open_failure("busy"), "Failed to upload file: busy");
}
