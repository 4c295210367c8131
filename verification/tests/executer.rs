use crazy_train::errors::Error;
use crazy_train::executer::decode_output;

#[test]
fn decodes_both_streams() {
    let output = decode_output(Some(0), "héllo 🙆\n".as_bytes(), b"warning").unwrap();
    assert_eq!(output.status_code, Some(0));
    assert_eq!(output.stdout, "héllo 🙆\n");
    assert_eq!(output.stderr, "warning");
}

#[test]
fn keeps_a_missing_exit_code() {
    let output = decode_output(None, b"", b"").unwrap();
    assert_eq!(output.status_code, None);
    assert_eq!(output.stdout, "");
    assert_eq!(output.stderr, "");
}

#[test]
fn refuses_invalid_standard_output() {
    let result = decode_output(Some(0), &[0x66, 0xff, 0x6f], b"fine");
    assert!(matches!(result, Err(Error::Utf8(_))));
}

#[test]
fn refuses_invalid_standard_error() {
    let result = decode_output(Some(1), b"fine", &[0xc3]);
    assert!(matches!(result, Err(Error::Utf8(_))));
}

#[test]
fn reports_the_first_stream_that_fails() {
    let result = decode_output(Some(1), &[0x61, 0x62, 0xff], &[0xff]);
    match result {
        Err(Error::Utf8(error)) => assert_eq!(error.valid_up_to(), 2),
        _ => panic!("the bytes are not valid UTF-8"),
    }
}

#[test]
fn refuses_surrogates_and_overlong_forms() {
    assert!(decode_output(Some(0), &[0xed, 0xa0, 0x80], b"").is_err());
    assert!(decode_output(Some(0), &[0xc0, 0x80], b"").is_err());
}
