use diffusion_onekey::progress::{progress_report, SimpleReporter};

#[test]
fn progress_line_with_known_size() {
    let line = progress_report(1024, Some(4096), "file.deb", 1000).unwrap();
    assert_eq!(line, "tdownloader: 1024 of 4096 bytes. [file.deb]");
}

#[test]
fn progress_line_with_unknown_size() {
    let line = progress_report(0, None, "", 5000).unwrap();
    assert_eq!(line, "tdownloader: 0 of {unknown} bytes. []");
}

#[test]
fn progress_quiet_within_a_second() {
    assert_eq!(progress_report(1, Some(2), "x", 999), None);
    assert_eq!(progress_report(1, Some(2), "x", 0), None);
}

#[test]
fn progress_large_numbers() {
    let line = progress_report(u64::MAX, Some(10), "m", u128::MAX).unwrap();
    assert_eq!(line, "tdownloader: 18446744073709551615 of 10 bytes. [m]");
}

#[test]
fn reporter_without_setup_reports_nothing() {
    let mut r = SimpleReporter::create();
    assert_eq!(r.progress(10), None);
}

#[test]
fn reporter_reports_within_a_second_only_after_setup_wait() {
    let mut r = SimpleReporter::create();
    r.setup(Some(100), "pkg");
    // The clock started at setup: right after it, no line is due.
    assert_eq!(r.progress(10), None);
    r.done();
    assert_eq!(r.progress(10), None);
}

#[test]
fn reporter_reports_after_a_second() {
    let mut r = SimpleReporter::create();
    r.setup(None, "pkg");
    let start = std::time::Instant::now();
    while start.elapsed().as_millis() < 1100 {}
    assert_eq!(r.progress(7), Some("tdownloader: 7 of {unknown} bytes. [pkg]".to_string()));
    assert_eq!(r.progress(8), None);
}

#[test]
fn message_line() {
    let r = SimpleReporter::create();
    assert_eq!(r.set_message("Downloading x"), "downloader: Message changed to: Downloading x");
}
