use blackbox_log::header_lines::{Error, HeadersParser};
use blackbox_log::headers::parse_header;
use blackbox_log::reader::Reader;

fn header(name: &str, value: &str) -> Result<(String, String), Error> {
    Ok((name.to_string(), value.to_string()))
}

#[test]
fn valid() {
    let mut headers = HeadersParser::new(b"H Test:true\nH :empty header\nH Empty value:\nbody");
    assert_eq!(header("Test", "true"), headers.next().unwrap());
    assert_eq!(header("", "empty header"), headers.next().unwrap());
    assert_eq!(header("Empty value", ""), headers.next().unwrap());
    assert!(headers.next().is_none());
    assert_eq!(Some(b"body".to_vec()), headers.into_reader().read_line());
}

#[test]
fn corrupted() {
    let mut headers = HeadersParser::new(&[
        72, 32, 72, 97, 115, 58, 110, 117, 0, 108, 108, 10, 72, 32, 78, 111, 110, 45, 117, 116,
        102, 56, 58, 0, 159, 146, 150, 10, 98, 111, 100, 121,
    ]);
    assert_eq!(header("Has", "nu\0ll"), headers.next().unwrap());
    assert!(matches!(
        headers.next().unwrap().unwrap_err(),
        Error::Utf8Error(_)
    ));
    assert!(headers.next().is_none());
}

#[test]
fn header_line_without_colon() {
    let mut headers = HeadersParser::new(b"H no colon here\n");
    assert_eq!(Some(Err(Error::MissingColon)), headers.next());
    assert!(headers.next().is_none());
}

#[test]
#[should_panic(expected = "Retry")]
fn headers_invalid_utf8() {
    let mut b = Reader::new(b"H \xFF:\xFF\n");
    parse_header(&mut b).unwrap();
}

#[test]
fn parse_header_splits_at_first_colon() {
    let mut b = Reader::new(b"H Firmware revision:INAV 5.0.0 (a:b)\nH next:1\n");
    assert_eq!(
        ("Firmware revision".to_string(), "INAV 5.0.0 (a:b)".to_string()),
        parse_header(&mut b).unwrap()
    );
    assert_eq!(("next".to_string(), "1".to_string()), parse_header(&mut b).unwrap());
}
