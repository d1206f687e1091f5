use bluelady_tools::progress::{
    emit_error, emit_progress, handle_line, is_progress_line, Progress, ProgressError,
};

#[test]
fn progress_lines_are_recognised() {
    assert!(is_progress_line("[download]  12.3% of 10.00MiB at 1.00MiB/s ETA 00:08"));
    assert!(is_progress_line("ETA of [download]"));
    assert!(!is_progress_line("[download] Destination: file.mp4"));
    assert!(!is_progress_line("[download] 100% of 10.00MiB in 00:08"));
    assert!(!is_progress_line("[youtube] 1234: Downloading webpage of ETA"));
    assert!(!is_progress_line(""));
}

#[test]
fn every_line_is_logged_with_a_line_feed() {
    let out = handle_line("[debug] something");
    assert_eq!(out.log, "[debug] something\n");
    assert_eq!(out.progress, None);
    let empty = handle_line("");
    assert_eq!(empty.log, "\n");
    assert_eq!(empty.progress, None);
}

#[test]
fn progress_lines_are_forwarded_unchanged() {
    let line = "[download]  50.0% of 2.00MiB at 1.00MiB/s ETA 00:01";
    let out = handle_line(line);
    assert_eq!(out.log, format!("{line}\n"));
    assert_eq!(out.progress.as_deref(), Some(line));
}

#[test]
fn progress_event_shape() {
    assert_eq!(
        emit_progress("Installing ffmpeg", 3333, "1min 12s"),
        Progress {
            step: "Installing ffmpeg".to_string(),
            percentage: 3333,
            eta: "1min 12s".to_string(),
            error: None,
        }
    );
}

#[test]
fn error_event_shape() {
    assert_eq!(
        emit_error("ffmpeg installation", "Failed to execute installation process"),
        Progress {
            step: "ffmpeg installation".to_string(),
            percentage: 0,
            eta: "0s".to_string(),
            error: Some(ProgressError {
                step: "ffmpeg installation".to_string(),
                error: "Failed to execute installation process".to_string(),
            }),
        }
    );
}
