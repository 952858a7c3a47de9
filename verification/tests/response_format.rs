use cl_forge::{ClientError, CmfResponseFormat, ResponseFormat};

fn unsupported(actual: &str) -> ClientError {
    ClientError::UnsupportedFormat {
        expected: "'json', 'xml'".to_string(),
        actual: actual.to_string(),
    }
}

#[test]
fn response_format_names() {
    assert_eq!(ResponseFormat::Json.as_str(), "json");
    assert_eq!(ResponseFormat::Xml.as_str(), "xml");
    assert_eq!(CmfResponseFormat::Json.as_str(), "json");
    assert_eq!(CmfResponseFormat::Xml.as_str(), "xml");
}

#[test]
fn response_format_all() {
    assert_eq!(ResponseFormat::iter(), vec![ResponseFormat::Json, ResponseFormat::Xml]);
    assert_eq!(CmfResponseFormat::iter(), vec![CmfResponseFormat::Json, CmfResponseFormat::Xml]);
}

#[test]
fn response_format_values() {
    assert_eq!(ResponseFormat::values(), "'json', 'xml'");
    assert_eq!(CmfResponseFormat::values(), "'json', 'xml'");
}

#[test]
fn response_format_default() {
    assert_eq!(ResponseFormat::default(), ResponseFormat::Json);
    assert_eq!(CmfResponseFormat::default(), CmfResponseFormat::Json);
}

#[test]
fn response_format_from_key() {
    assert_eq!(ResponseFormat::from_key("json"), Some(ResponseFormat::Json));
    assert_eq!(ResponseFormat::from_key("xml"), Some(ResponseFormat::Xml));
    assert_eq!(ResponseFormat::from_key("JSON"), None);
    assert_eq!(ResponseFormat::from_key(" json"), None);
    assert_eq!(ResponseFormat::from_key(""), None);
    assert_eq!(CmfResponseFormat::from_key("xml"), Some(CmfResponseFormat::Xml));
    assert_eq!(CmfResponseFormat::from_key("Xml"), None);
}

#[test]
fn response_format_from_name() {
    assert_eq!(ResponseFormat::try_from("json").ok(), Some(ResponseFormat::Json));
    assert_eq!(ResponseFormat::try_from("XML").ok(), Some(ResponseFormat::Xml));
    assert_eq!(ResponseFormat::try_from("  Json\t\n").ok(), Some(ResponseFormat::Json));
    assert_eq!(ResponseFormat::try_from("\u{a0}xml\u{3000}").ok(), Some(ResponseFormat::Xml));
    assert_eq!(CmfResponseFormat::try_from(" XmL ").ok(), Some(CmfResponseFormat::Xml));
}

#[test]
fn response_format_unsupported_name() {
    for bad in ["", "yaml", "js on", "jsonx", " CSV "] {
        assert_eq!(ResponseFormat::try_from(bad), Err(unsupported(bad)));
        assert_eq!(CmfResponseFormat::try_from(bad), Err(unsupported(bad)));
    }
}

#[test]
fn response_format_from_optional_name() {
    assert_eq!(ResponseFormat::try_from(Some("xml")).ok(), Some(ResponseFormat::Xml));
    assert_eq!(ResponseFormat::try_from(Some("nope")), Err(unsupported("nope")));
    assert_eq!(ResponseFormat::try_from(None::<&str>), Err(unsupported("None")));
    assert_eq!(CmfResponseFormat::try_from(Some("XML")).ok(), Some(CmfResponseFormat::Xml));
    assert_eq!(CmfResponseFormat::try_from(Some("nope")), Err(unsupported("nope")));
    assert_eq!(CmfResponseFormat::try_from(None::<&str>).ok(), Some(CmfResponseFormat::Json));
}
