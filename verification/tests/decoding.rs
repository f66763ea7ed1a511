use nocopush::csvrow::parse_line;
use nocopush::decode::DecodeError;
use nocopush::decode::decode_table;
use nocopush::decode_bytes;

fn chars(s: &str) -> Vec<char> {
    s.chars().collect()
}

#[test]
fn utf8_bytes_decode_to_unicode() {
    let bytes: Vec<u8> = vec![0xC3, 0xA9];
    let out = decode_bytes(false, &bytes);
    assert_eq!(out, vec!['\u{e9}']);
}

#[test]
fn w1252_bytes_decode_to_unicode() {
    let bytes: Vec<u8> = vec![0xE9];
    let out = decode_bytes(true, &bytes);
    assert_eq!(out, vec!['\u{e9}']);
}

#[test]
fn decoding_twice_yields_identical_rows() {
    let bytes: Vec<u8> = b"name,city\nann,\"a,b\"\nbob,paris\n".to_vec();
    let t1 = decode_table(&decode_bytes(false, &bytes), ',', '"').unwrap();
    let t2 = decode_table(&decode_bytes(false, &bytes), ',', '"').unwrap();
    assert_eq!(t1.header, t2.header);
    assert_eq!(t1.rows, t2.rows);
    assert_eq!(t1.skipped, t2.skipped);
}

#[test]
fn parse_line_plain_fields() {
    let r = parse_line(&chars("a,b,c"), ',', '"').unwrap();
    assert_eq!(r, vec!["a", "b", "c"]);
}

#[test]
fn parse_line_quoted_delimiter() {
    let r = parse_line(&chars("\"a,b\",c"), ',', '"').unwrap();
    assert_eq!(r, vec!["a,b", "c"]);
}

#[test]
fn parse_line_doubled_quote_escape() {
    let r = parse_line(&chars("\"he said \"\"hi\"\"\",x"), ',', '"').unwrap();
    assert_eq!(r, vec!["he said \"hi\"", "x"]);
}

#[test]
fn parse_line_unterminated_quote_is_malformed() {
    assert!(parse_line(&chars("\"open,b"), ',', '"').is_none());
}

#[test]
fn parse_line_junk_after_closing_quote_is_malformed() {
    assert!(parse_line(&chars("\"a\"x,b"), ',', '"').is_none());
}

#[test]
fn parse_line_empty_fields() {
    let r = parse_line(&chars("a,,"), ',', '"').unwrap();
    assert_eq!(r, vec!["a", "", ""]);
}

#[test]
fn parse_line_custom_delimiter_and_quote() {
    let r = parse_line(&chars("a;'b;c';d"), ';', '\'').unwrap();
    assert_eq!(r, vec!["a", "b;c", "d"]);
}

#[test]
fn table_missing_header() {
    let r = decode_table(&chars(""), ',', '"');
    assert_eq!(r.unwrap_err(), DecodeError::MissingHeader);
    let r2 = decode_table(&chars("\n\n"), ',', '"');
    assert_eq!(r2.unwrap_err(), DecodeError::MissingHeader);
}

#[test]
fn table_malformed_header() {
    let r = decode_table(&chars("\"open,b\nx,y\n"), ',', '"');
    assert_eq!(r.unwrap_err(), DecodeError::MalformedHeader);
}

#[test]
fn table_skips_malformed_rows() {
    let text = chars("h1,h2\nok1,ok2\n\"bad,oops\nshort\nok3,ok4\n");
    let t = decode_table(&text, ',', '"').unwrap();
    assert_eq!(t.header, vec!["h1", "h2"]);
    assert_eq!(t.rows, vec![vec!["ok1", "ok2"], vec!["ok3", "ok4"]]);
    assert_eq!(t.skipped, 2);
}

#[test]
fn table_crlf_and_blank_lines() {
    let text = chars("h1,h2\r\n\r\na,b\r\n\nc,d\r\n");
    let t = decode_table(&text, ',', '"').unwrap();
    assert_eq!(t.header, vec!["h1", "h2"]);
    assert_eq!(t.rows, vec![vec!["a", "b"], vec!["c", "d"]]);
    assert_eq!(t.skipped, 0);
}
