use chissor::notify::ErrorWindows;

#[test]
fn error_windows() {
    let mut error_windows = ErrorWindows::default();
    error_windows.add("example", "one");
    error_windows.add("example", "two");
    error_windows.add("example", "three");
    (&mut error_windows.windows).into_iter().for_each(|win| {
        win.open = false;
    });
    error_windows.cleanup();
    assert!(error_windows.windows.is_empty());
}

#[test]
fn cleanup_keeps_open_records_in_order() {
    let mut error_windows = ErrorWindows::default();
    error_windows.add("example", "one");
    error_windows.add("example", "two");
    error_windows.add("example", "three");
    error_windows.windows[1].open = false;
    error_windows.cleanup();
    assert_eq!(error_windows.windows.len(), 2);
    assert_eq!(error_windows.windows[0].content, "one");
    assert_eq!(error_windows.windows[1].content, "three");
    assert_eq!(error_windows.windows[0].id, 0);
    assert_eq!(error_windows.windows[1].id, 2);
}

#[test]
fn identifiers_stay_fresh_after_cleanup() {
    let mut error_windows = ErrorWindows::default();
    error_windows.add("example", "one");
    error_windows.windows[0].open = false;
    error_windows.cleanup();
    error_windows.add("example", "two");
    assert_eq!(error_windows.windows.len(), 1);
    assert_eq!(error_windows.windows[0].id, 1);
    assert_eq!(error_windows.windows[0].what, "example");
    assert_eq!(error_windows.windows[0].content, "two");
    assert!(error_windows.windows[0].open);
}
