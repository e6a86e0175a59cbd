use uefi::logger::{log_line, Level};

#[test]
fn test_log_line_format() {
    assert_eq!(
        log_line(Level::Info, Some("src/main.rs"), Some(42), "Hello").unwrap(),
        "[ INFO]:  src/main.rs@042: Hello\n"
    );
    assert_eq!(
        log_line(Level::Error, None, None, "x").unwrap(),
        "[ERROR]:    <unknown>@000: x\n"
    );
    assert_eq!(
        log_line(Level::Trace, Some("a/very/long/path.rs"), Some(12345), "").unwrap(),
        "[TRACE]: a/very/long/path.rs@12345: \n"
    );
    assert_eq!(log_line(Level::Warn, Some("f"), Some(7), "w").unwrap(), "[ WARN]:            f@007: w\n");
    assert_eq!(log_line(Level::Debug, Some(""), Some(100), "d").unwrap(), "[DEBUG]:             @100: d\n");
}

#[test]
fn test_log_line_capacity() {
    // The line around the message takes 28 bytes here.
    let fits = "a".repeat(4096 - 28);
    let line = log_line(Level::Info, Some("src/main.rs"), Some(42), &fits).unwrap();
    assert_eq!(line.len(), 4096);
    let too_long = "a".repeat(4096 - 27);
    assert_eq!(log_line(Level::Info, Some("src/main.rs"), Some(42), &too_long), None);
    // Bytes count, not characters: two bytes per 'é'.
    let wide = "é".repeat((4096 - 28) / 2);
    assert!(log_line(Level::Info, Some("src/main.rs"), Some(42), &wide).is_some());
    let wider = "é".repeat((4096 - 28) / 2 + 1);
    assert_eq!(log_line(Level::Info, Some("src/main.rs"), Some(42), &wider), None);
}
