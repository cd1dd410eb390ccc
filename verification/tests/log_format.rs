use destructive_changes_checker::log_format::LogFormat;

#[test]
fn the_two_formats_differ() {
    assert_eq!(LogFormat::Text, LogFormat::Text);
    assert_eq!(LogFormat::Json, LogFormat::Json);
    assert_ne!(LogFormat::Text, LogFormat::Json);
}

#[test]
fn a_format_is_copied_and_shown() {
    let format = LogFormat::Json;
    let copy = format;
    assert_eq!(format, copy);
    assert_eq!(format!("{:?}", format), "Json");
    assert_eq!(format!("{:?}", LogFormat::Text), "Text");
}
