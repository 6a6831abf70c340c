use langston_studio::telemetry::{format_log_line, is_transport_noise, stamped_log_line, Level};

#[test]
fn log_lines_have_timestamp_level_and_message() {
    assert_eq!(
        format_log_line("2024-05-01 10:00:00.000", Level::Info, "[proxy] #3 GET / -> upstream (page)"),
        "[2024-05-01 10:00:00.000] [INFO] [proxy] #3 GET / -> upstream (page)\n"
    );
    assert_eq!(format_log_line("t", Level::Warn, ""), "[t] [WARN] \n");
    assert_eq!(format_log_line("t", Level::Error, "x"), "[t] [ERROR] x\n");
}

#[test]
fn stamped_lines_carry_the_local_time() {
    let line = stamped_log_line(Level::Error, "boom");
    assert!(line.starts_with("["));
    assert!(line.ends_with("] [ERROR] boom\n"));
    let stamp = &line[1..line.len() - "] [ERROR] boom\n".len()];
    assert_eq!(stamp.len(), "2024-05-01 10:00:00.000".len());
    assert_eq!(&stamp[4..5], "-");
    assert_eq!(&stamp[10..11], " ");
    assert_eq!(&stamp[19..20], ".");
}

#[test]
fn resets_and_broken_pipes_are_noise() {
    assert!(is_transport_noise("connection reset by peer"));
    assert!(is_transport_noise("error writing: broken pipe"));
    assert!(!is_transport_noise("invalid HTTP method parsed"));
    assert!(!is_transport_noise("Connection Reset"));
}
