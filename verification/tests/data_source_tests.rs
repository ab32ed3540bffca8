use radarr::DataSource;

#[test]
fn from_does_not_allow_both_args() {
    let result = DataSource::from(Some("foo"), Some("bar"));

    assert!(result.is_none())
}

#[test]
fn from_returns_stdin_when_both_none() {
    let result = DataSource::from(None, None);
    let source = result.unwrap();

    match source {
        DataSource::Stdin => {}
        _ => panic!("Expected DataSource::Stdin"),
    }
}

#[test]
fn from_returns_file_path_when_path_passed() {
    let result = DataSource::from(Some("/foo/bar"), None).unwrap();

    match result {
        DataSource::File(file_path) => assert_eq!(file_path, "/foo/bar"),
        _ => panic!("Expected DataSource::File"),
    }
}

#[test]
fn from_returns_stdin_when_file_path_is_dash() {
    let result = DataSource::from(Some("-"), None).unwrap();

    match result {
        DataSource::Stdin => {}
        _ => panic!("Expected DataSource::Stdin"),
    }
}

#[test]
fn from_returns_data_when_data_is_passed() {
    let result = DataSource::from(None, Some("foo")).unwrap();

    match result {
        DataSource::Data(data) => assert_eq!(data, "foo"),
        _ => panic!("Expected DataSource::Data"),
    }
}

#[test]
fn read_returns_inline_data() {
    let source = DataSource::Data(String::from("payload"));

    assert_eq!(source.read(), "payload");
}

#[test]
fn read_returns_file_path_text() {
    let source = DataSource::File(String::from("/foo/bar"));

    assert_eq!(source.read(), "/foo/bar");
}

#[test]
fn read_returns_stdin_marker() {
    let source = DataSource::Stdin;

    assert_eq!(source.read(), "stdin");
}
