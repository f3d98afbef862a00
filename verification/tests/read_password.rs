//! Reading through the public entry points with caller-supplied sources.

use rpassword::finish_secret;
use rpassword::read_password_with_reader;
use rpassword::SecretSource;

/// A line source that yields a fixed byte sequence, as a redirected or
/// mocked standard input would.
struct MockInput {
    bytes: Vec<u8>,
}

impl SecretSource for MockInput {
    // Ghost model; never called at run time.
    fn pending_line(&self) -> vstd::seq::Seq<u8> {
        unreachable!()
    }

    fn read_secret_line(&mut self, buf: &mut Vec<u8>) -> Result<usize, std::io::Error> {
        buf.extend_from_slice(&self.bytes);
        Ok(self.bytes.len())
    }
}

/// A line source that appends a few bytes and then fails.
struct FailingInput;

impl SecretSource for FailingInput {
    // Ghost model; never called at run time.
    fn pending_line(&self) -> vstd::seq::Seq<u8> {
        unreachable!()
    }

    fn read_secret_line(&mut self, buf: &mut Vec<u8>) -> Result<usize, std::io::Error> {
        buf.extend_from_slice(b"partial secr");
        Err(std::io::Error::new(std::io::ErrorKind::Other, "device gone"))
    }
}

fn mock_input_crlf() -> MockInput {
    MockInput { bytes: b"A mocked response.\r\n".to_vec() }
}

fn mock_input_lf() -> MockInput {
    MockInput { bytes: b"A mocked response.\n".to_vec() }
}

#[test]
fn can_read_from_redirected_input() {
    let response = read_password_with_reader(Some(mock_input_crlf())).unwrap();
    assert_eq!(response, "A mocked response.");
    let response = read_password_with_reader(Some(mock_input_lf())).unwrap();
    assert_eq!(response, "A mocked response.");
}

#[test]
fn immediate_end_of_input_yields_empty_secret() {
    let response = read_password_with_reader(Some(MockInput { bytes: Vec::new() })).unwrap();
    assert_eq!(response, "");
}

#[test]
fn line_without_terminator_is_returned_unchanged() {
    let response =
        read_password_with_reader(Some(MockInput { bytes: b"no newline".to_vec() })).unwrap();
    assert_eq!(response, "no newline");
}

#[test]
fn source_failure_is_surfaced() {
    let err = read_password_with_reader(Some(FailingInput)).unwrap_err();
    assert_eq!(err.kind(), std::io::ErrorKind::Other);
}

#[test]
fn finish_secret_strips_and_decodes() {
    let secret = finish_secret(b"p\xc3\xa4ss\r\n".to_vec()).unwrap();
    assert_eq!(secret, "p\u{e4}ss");
}

#[test]
fn invalid_utf8_line_is_an_invalid_data_error() {
    let err = read_password_with_reader(Some(MockInput {
        bytes: vec![0xffu8, 0xfe, 0x0a],
    }))
    .unwrap_err();
    assert_eq!(err.kind(), std::io::ErrorKind::InvalidData);
}
