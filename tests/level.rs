use std::io::Write;

use base64::Engine;
use redox_core::level::{parse_level_data, parse_objects, ParserError, RawObject};

fn props(o: &RawObject) -> Vec<(&str, &str)> {
    o.properties.iter().map(|(k, v)| (k.as_str(), v.as_str())).collect()
}

#[test]
fn splits_records_and_pairs() {
    let objs = parse_objects("1,8,2,200,3,6;1,1,2,100,3,15;");
    assert_eq!(objs.len(), 2);
    assert_eq!(props(&objs[0]), vec![("1", "8"), ("2", "200"), ("3", "6")]);
    assert_eq!(props(&objs[1]), vec![("1", "1"), ("2", "100"), ("3", "15")]);
}

#[test]
fn drops_odd_last_token_and_empty_records() {
    let objs = parse_objects("kA13,0,kA15;  ;;1,2,3;solo");
    assert_eq!(objs.len(), 2);
    assert_eq!(props(&objs[0]), vec![("kA13", "0")]);
    assert_eq!(props(&objs[1]), vec![("1", "2")]);
}

#[test]
fn empty_level_gives_no_records() {
    assert!(parse_objects("").is_empty());
    assert!(parse_objects(";;;").is_empty());
    assert!(parse_objects(" \n ").is_empty());
}

#[test]
fn keeps_empty_tokens_and_unicode() {
    let objs = parse_objects(",x,é,ü;");
    assert_eq!(objs.len(), 1);
    assert_eq!(props(&objs[0]), vec![("", "x"), ("é", "ü")]);
}

fn encode_level(text: &str) -> String {
    let mut enc = flate2::write::GzEncoder::new(Vec::new(), flate2::Compression::default());
    enc.write_all(text.as_bytes()).unwrap();
    let gz = enc.finish().unwrap();
    base64::engine::general_purpose::URL_SAFE.encode(gz)
}

#[test]
fn decodes_gzip_base64_level_data() {
    let encoded = encode_level("1,1,2,100,3,15;");
    assert!(encoded.starts_with("H4sI"));
    assert_eq!(parse_level_data(&encoded).unwrap(), "1,1,2,100,3,15;");
}

#[test]
fn skips_text_before_the_gzip_header() {
    let encoded = format!("k4:{}", encode_level("1,8;"));
    assert_eq!(parse_level_data(&encoded).unwrap(), "1,8;");
}

#[test]
fn trims_data_without_a_header() {
    // "abcd" is valid base64 but not gzip: the trimmed text reaches the decompressor.
    assert!(matches!(parse_level_data("  YWJjZA==\n"), Err(ParserError::GzipError(_))));
}

#[test]
fn reports_invalid_base64() {
    assert!(matches!(parse_level_data("not base64!"), Err(ParserError::Base64Error(_))));
    assert!(matches!(parse_level_data("H4sI*"), Err(ParserError::Base64Error(_))));
}
