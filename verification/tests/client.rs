use cl_forge::client::{
    clean_api_key, cmf_query, find_ticket_override, is_ticket_key, market_path, market_query,
    mask_api_key, overrides_ticket, read_response, request_url, status_is_success,
};
use cl_forge::payload::{payload_from, read_payload, Payload};
use cl_forge::settings::{non_empty, Config, Token, CMF_TOKEN_VARIABLE, MARKET_TOKEN_VARIABLE};
use cl_forge::{ClientError, CmfResponseFormat, ResponseFormat};

fn pairs(items: &[(&str, &str)]) -> Vec<(String, String)> {
    items.iter().map(|(k, v)| (k.to_string(), v.to_string())).collect()
}

#[test]
fn api_key_is_trimmed() {
    assert_eq!(clean_api_key("  abc123 \n"), Ok("abc123".to_string()));
    assert_eq!(clean_api_key("k e y"), Ok("k e y".to_string()));
    assert_eq!(clean_api_key("\u{2003}key\u{a0}"), Ok("key".to_string()));
}

#[test]
fn api_key_trimming_follows_unicode_white_space() {
    let white: Vec<char> = vec![
        '\u{9}', '\u{a}', '\u{b}', '\u{c}', '\u{d}', ' ', '\u{85}', '\u{a0}', '\u{1680}',
        '\u{2000}', '\u{2001}', '\u{2002}', '\u{2003}', '\u{2004}', '\u{2005}', '\u{2006}',
        '\u{2007}', '\u{2008}', '\u{2009}', '\u{200a}', '\u{2028}', '\u{2029}', '\u{202f}',
        '\u{205f}', '\u{3000}',
    ];
    let mut code: u32 = 0;
    while code <= 0x10_ffff {
        if let Some(c) = char::from_u32(code) {
            let padded: String = [c, 'x', c].iter().collect();
            let expected = if white.contains(&c) { "x".to_string() } else { padded.clone() };
            assert_eq!(clean_api_key(&padded), Ok(expected));
        }
        code += 1;
    }
}

#[test]
fn api_key_empty() {
    assert_eq!(clean_api_key(""), Err(ClientError::EmptyApiKey));
    assert_eq!(clean_api_key(" \t\r\n"), Err(ClientError::EmptyApiKey));
}

#[test]
fn url_of_request() {
    assert_eq!(
        request_url("https://api.example.cl/v1", "/uf/2024"),
        Ok("https://api.example.cl/v1/uf/2024".to_string())
    );
    assert_eq!(request_url("base", "  /x  "), Ok("base/x".to_string()));
    assert_eq!(request_url("", "/"), Ok("/".to_string()));
}

#[test]
fn url_empty_path() {
    assert_eq!(request_url("base", ""), Err(ClientError::EmptyPath));
    assert_eq!(request_url("base", "   "), Err(ClientError::EmptyPath));
}

#[test]
fn url_invalid_path() {
    assert_eq!(request_url("base", "uf/2024"), Err(ClientError::InvalidPath));
    assert_eq!(request_url("base", " x/ "), Err(ClientError::InvalidPath));
    assert_eq!(request_url("base", "\\x"), Err(ClientError::InvalidPath));
}

#[test]
fn status_successes() {
    assert!(status_is_success(200));
    assert!(status_is_success(204));
    assert!(status_is_success(299));
    assert!(!status_is_success(199));
    assert!(!status_is_success(300));
    assert!(!status_is_success(404));
    assert!(!status_is_success(0));
}

#[test]
fn response_success_and_failure() {
    assert_eq!(read_response(200, "ok".to_string()), Ok("ok".to_string()));
    assert_eq!(read_response(299, String::new()), Ok(String::new()));
    assert_eq!(
        read_response(404, "missing".to_string()),
        Err(ClientError::BadStatus { status: 404, body: "missing".to_string() })
    );
    assert_eq!(
        read_response(500, String::new()),
        Err(ClientError::BadStatus { status: 500, body: String::new() })
    );
}

#[test]
fn query_of_cmf() {
    assert_eq!(
        cmf_query("k", CmfResponseFormat::Json, &Vec::new()),
        pairs(&[("apikey", "k"), ("formato", "json")])
    );
    assert_eq!(
        cmf_query("k", CmfResponseFormat::Xml, &pairs(&[("a", "1"), ("b", "2")])),
        pairs(&[("apikey", "k"), ("formato", "xml"), ("a", "1"), ("b", "2")])
    );
}

#[test]
fn path_and_query_of_market() {
    assert_eq!(market_path("/licitaciones", ResponseFormat::Json), "/licitaciones.json");
    assert_eq!(market_path("/x", ResponseFormat::Xml), "/x.xml");
    assert_eq!(market_query("t", &Vec::new()), pairs(&[("ticket", "t")]));
    assert_eq!(
        market_query("t", &pairs(&[("fecha", "02022014")])),
        pairs(&[("ticket", "t"), ("fecha", "02022014")])
    );
}

#[test]
fn ticket_overrides() {
    assert!(is_ticket_key("ticket"));
    assert!(!is_ticket_key("Ticket"));
    assert!(overrides_ticket("ticket"));
    assert!(overrides_ticket(" TICKET\n"));
    assert!(overrides_ticket("Ticket"));
    assert!(!overrides_ticket("tickets"));
    assert!(!overrides_ticket("tic ket"));
    assert!(!overrides_ticket(""));
    assert_eq!(find_ticket_override(&pairs(&[("a", "1"), ("b", "2")])), None);
    assert_eq!(find_ticket_override(&Vec::new()), None);
    assert_eq!(
        find_ticket_override(&pairs(&[("a", "1"), (" Ticket ", "x"), ("ticket", "y")])),
        Some(1)
    );
}

#[test]
fn masked_key() {
    assert_eq!(mask_api_key("abcdefgh"), "abcde...");
    assert_eq!(mask_api_key("abcdef"), "abcde...");
    assert_eq!(mask_api_key("abcde"), "abcde...");
    assert_eq!(mask_api_key("abc"), "abc...");
    assert_eq!(mask_api_key(""), "...");
    assert_eq!(mask_api_key("ñandúes"), "ñandú...");
}

#[test]
fn settings_drop_empty_values() {
    assert_eq!(non_empty(Some("x".to_string())), Some("x".to_string()));
    assert_eq!(non_empty(Some(" ".to_string())), Some(" ".to_string()));
    assert_eq!(non_empty(Some(String::new())), None);
    assert_eq!(non_empty(None), None);
    let token = Token::from_values(Some("abc".to_string()), Some(String::new()));
    assert_eq!(token.cmf, Some("abc".to_string()));
    assert_eq!(token.market, None);
    let config = Config::from_values(None, Some("m".to_string()));
    assert_eq!(config.tokens.cmf, None);
    assert_eq!(config.tokens.market, Some("m".to_string()));
    assert_eq!(Token::default().cmf, None);
    assert_eq!(CMF_TOKEN_VARIABLE, "CLFORGE_CMF_TOKEN");
    assert_eq!(MARKET_TOKEN_VARIABLE, "CLFORGE_MARKET_TOKEN");
}

#[test]
fn payload_json_is_checked() {
    let body = "{\"Dolares\": [{\"Valor\": \"950,5\"}]}".to_string();
    assert_eq!(read_payload(CmfResponseFormat::Json, body.clone()), Ok(Payload::Json(body)));
    assert_eq!(
        read_payload(CmfResponseFormat::Json, " [1, 2.5, null] ".to_string()),
        Ok(Payload::Json(" [1, 2.5, null] ".to_string()))
    );
}

#[test]
fn payload_json_refused() {
    assert_eq!(
        read_payload(CmfResponseFormat::Json, "{".to_string()),
        Err("Failed to parse JSON response: EOF while parsing an object at line 1 column 1"
            .to_string())
    );
    assert_eq!(
        read_payload(CmfResponseFormat::Json, "<a/>".to_string()),
        Err("Failed to parse JSON response: expected value at line 1 column 1".to_string())
    );
    assert_eq!(
        read_payload(CmfResponseFormat::Json, "1 2".to_string()),
        Err("Failed to parse JSON response: trailing characters at line 1 column 3".to_string())
    );
    assert!(read_payload(CmfResponseFormat::Json, String::new()).is_err());
}

#[test]
fn payload_xml_is_not_read() {
    assert_eq!(
        read_payload(CmfResponseFormat::Xml, "<a/>".to_string()),
        Ok(Payload::Text("<a/>".to_string()))
    );
    assert_eq!(
        read_payload(CmfResponseFormat::Xml, "{".to_string()),
        Ok(Payload::Text("{".to_string()))
    );
}

#[test]
fn payload_from_reader_verdict() {
    assert_eq!(
        payload_from(CmfResponseFormat::Json, "x".to_string(), Some("bad".to_string())),
        Err("Failed to parse JSON response: bad".to_string())
    );
    assert_eq!(
        payload_from(CmfResponseFormat::Json, "x".to_string(), None),
        Ok(Payload::Json("x".to_string()))
    );
    assert_eq!(
        payload_from(CmfResponseFormat::Xml, "x".to_string(), Some("bad".to_string())),
        Ok(Payload::Text("x".to_string()))
    );
}
