use city_pop::error::CliError;

#[test]
fn not_found_has_its_sentence_and_its_name() {
    assert_eq!(CliError::NotFound.message(), "No matching cities with a population were found.");
    assert_eq!(CliError::NotFound.description(), "not found");
}

#[test]
fn a_table_error_speaks_for_itself() {
    let error = CliError::Csv(csv::Error::Decode("boom".to_string()));
    assert_eq!(error.message(), "CSV decode error: boom");
    assert_eq!(error.description(), "CSV decoding error");
    let error = CliError::Csv(csv::Error::Encode("boom".to_string()));
    assert_eq!(error.description(), "CSV encoding error");
    let error = CliError::Csv(csv::Error::Index("boom".to_string()));
    assert_eq!(error.message(), "CSV index error: boom");
    assert_eq!(error.description(), "CSV indexing error");
    let inner = std::io::Error::new(std::io::ErrorKind::Other, "boom");
    let error = CliError::Csv(csv::Error::Io(inner));
    assert_eq!(error.message(), "boom");
    assert_eq!(error.description(), "CSV IO error");
}

#[test]
#[allow(deprecated)]
fn an_input_error_speaks_for_itself() {
    let error = CliError::Io(std::io::Error::new(std::io::ErrorKind::PermissionDenied, "keep out"));
    let twin = std::io::Error::new(std::io::ErrorKind::PermissionDenied, "keep out");
    assert_eq!(error.message(), "keep out");
    assert_eq!(error.description(), std::error::Error::description(&twin));
    let error = CliError::Io(std::io::Error::from(std::io::ErrorKind::NotFound));
    let twin = std::io::Error::from(std::io::ErrorKind::NotFound);
    assert_eq!(error.message(), twin.to_string());
    assert_eq!(error.description(), std::error::Error::description(&twin));
}

#[test]
fn an_input_error_becomes_the_io_kind() {
    let inner = std::io::Error::new(std::io::ErrorKind::NotFound, "no such file");
    match CliError::from(inner) {
        CliError::Io(error) => {
            assert_eq!(error.kind(), std::io::ErrorKind::NotFound);
            assert_eq!(error.to_string(), "no such file");
        },
        other => panic!("expected an input error, got {:?}", other),
    }
}

#[test]
fn a_table_error_becomes_the_csv_kind() {
    match CliError::from(csv::Error::Decode("boom".to_string())) {
        CliError::Csv(csv::Error::Decode(text)) => assert_eq!(text, "boom"),
        other => panic!("expected a table error, got {:?}", other),
    }
}
