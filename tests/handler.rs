use std::io::Write;

use xz_fastcgi::codec::decompress;
use xz_fastcgi::error::{ServeError, WriteFailure};
use xz_fastcgi::request::{
    failure_report, Event, RequestHandler, Step, CONTENT_HEADER, ERROR_STATUS, PATH_PARAM,
    TRAILER,
};

fn compress(data: &[u8]) -> Vec<u8> {
    let mut enc = xz2::write::XzEncoder::new(Vec::new(), 6);
    enc.write_all(data).unwrap();
    enc.finish().unwrap()
}

fn expected_response(body: &[u8]) -> Vec<u8> {
    let mut v = b"Content-Type: application/octet-stream\r\n\r\n".to_vec();
    v.extend_from_slice(body);
    v.extend_from_slice(b"\r\n\r\n");
    v
}

/// Drives a fresh handler through a request whose file holds `raw`,
/// every write succeeding; gives what was written and the last step.
fn serve(path: &str, raw: Vec<u8>) -> (Vec<u8>, Step) {
    let mut h = RequestHandler::new();
    let mut out: Vec<u8> = Vec::new();
    let mut step = h.step(Event::Param(Some(path.to_string())));
    match &step {
        Step::ReadFile(p) => assert_eq!(p, path),
        _ => panic!("expected a file read"),
    }
    step = h.step(Event::FileRead(Ok(raw)));
    while let Step::Write(bytes) = &step {
        out.extend_from_slice(bytes);
        step = h.step(Event::Written(Ok(())));
    }
    (out, step)
}

#[test]
fn constants_are_the_protocol_words() {
    assert_eq!(PATH_PARAM, "DOCUMENT_PATH");
    assert_eq!(CONTENT_HEADER, "Content-Type: application/octet-stream\r\n\r\n");
    assert_eq!(TRAILER, "\r\n\r\n");
    assert_eq!(ERROR_STATUS, "Status: 500 Internal Server Error\r\n\r\n");
}

#[test]
fn decompress_undoes_xz() {
    let plain = b"hello, compressed world".to_vec();
    let packed = compress(&plain);
    assert_ne!(packed, plain);
    match decompress(&packed) {
        Ok(v) => assert_eq!(v, plain),
        Err(_) => panic!("valid stream refused"),
    }
}

#[test]
fn decompress_empty_content() {
    let packed = compress(b"");
    match decompress(&packed) {
        Ok(v) => assert!(v.is_empty()),
        Err(_) => panic!("valid stream refused"),
    }
}

#[test]
fn decompress_rejects_random_bytes() {
    let junk: Vec<u8> = (0..200u32).map(|i| (i * 37 + 11) as u8).collect();
    assert!(matches!(decompress(&junk), Err(ServeError::Data)));
    assert!(matches!(decompress(&[]), Err(ServeError::Data)));
}

#[test]
fn decompress_rejects_truncated_stream() {
    let packed = compress(&vec![7u8; 5000]);
    let cut = &packed[..packed.len() / 2];
    assert!(matches!(decompress(cut), Err(ServeError::Data)));
}

#[test]
fn valid_request_gets_header_body_trailer() {
    let body: Vec<u8> = (0..10_000u32).map(|i| (i % 251) as u8).collect();
    let (out, last) = serve("/srv/files/a.bin.xz", compress(&body));
    assert!(matches!(last, Step::Done));
    assert_eq!(out, expected_response(&body));
}

#[test]
fn writes_come_as_three_segments_in_order() {
    let mut h = RequestHandler::new();
    assert!(matches!(h.step(Event::Param(Some("/f".to_string()))), Step::ReadFile(_)));
    let mut segments: Vec<Vec<u8>> = Vec::new();
    let mut step = h.step(Event::FileRead(Ok(compress(b"abc"))));
    while let Step::Write(bytes) = step {
        segments.push(bytes);
        step = h.step(Event::Written(Ok(())));
    }
    assert_eq!(segments.len(), 3);
    assert_eq!(segments[0], CONTENT_HEADER.as_bytes());
    assert_eq!(segments[1], b"abc");
    assert_eq!(segments[2], TRAILER.as_bytes());
}

#[test]
fn missing_path_fails_without_reading() {
    let mut h = RequestHandler::new();
    let step = h.step(Event::Param(None));
    assert!(matches!(step, Step::Fail(ServeError::MissingPath)));
    // Whatever arrives afterwards, no file is asked for and nothing is written.
    assert!(matches!(
        h.step(Event::Param(Some("/does/not/exist".to_string()))),
        Step::Ignored
    ));
    assert!(matches!(h.step(Event::FileRead(Ok(compress(b"x")))), Step::Ignored));
    assert!(matches!(h.step(Event::Written(Ok(()))), Step::Ignored));
}

#[test]
fn missing_file_fails_with_filesystem_error_then_next_request_succeeds() {
    let mut h = RequestHandler::new();
    assert!(matches!(h.step(Event::Param(Some("/nope".to_string()))), Step::ReadFile(_)));
    let step = h.step(Event::FileRead(Err("No such file or directory (os error 2)".to_string())));
    match step {
        Step::Fail(ServeError::Filesystem(m)) => {
            assert_eq!(m, "No such file or directory (os error 2)")
        }
        _ => panic!("expected a filesystem error"),
    }
    let (out, last) = serve("/ok", compress(b"fine"));
    assert!(matches!(last, Step::Done));
    assert_eq!(out, expected_response(b"fine"));
}

#[test]
fn corrupt_file_fails_with_data_error_then_next_request_succeeds() {
    let junk: Vec<u8> = (0..64u32).map(|i| (i * 91 + 3) as u8).collect();
    let (out, last) = serve("/junk", junk);
    assert!(out.is_empty());
    assert!(matches!(last, Step::Fail(ServeError::Data)));
    let (out, last) = serve("/ok", compress(b"fine"));
    assert!(matches!(last, Step::Done));
    assert_eq!(out, expected_response(b"fine"));
}

#[test]
fn same_request_twice_gives_identical_bytes() {
    let packed = compress(b"the same every time");
    let (a, _) = serve("/same", packed.clone());
    let (b, _) = serve("/same", packed);
    assert_eq!(a, b);
    assert_eq!(a, expected_response(b"the same every time"));
}

#[test]
fn write_failure_ends_the_request() {
    let mut h = RequestHandler::new();
    h.step(Event::Param(Some("/w".to_string())));
    assert!(matches!(h.step(Event::FileRead(Ok(compress(b"abc")))), Step::Write(_)));
    let step = h.step(Event::Written(Err(WriteFailure {
        broken_pipe: true,
        message: "Broken pipe (os error 32)".to_string(),
    })));
    match step {
        Step::Fail(ServeError::Write(f)) => assert!(f.broken_pipe),
        _ => panic!("expected a write error"),
    }
    assert!(matches!(h.step(Event::Written(Ok(()))), Step::Ignored));
}

#[test]
fn broken_pipe_is_not_reported() {
    let err = ServeError::Write(WriteFailure {
        broken_pipe: true,
        message: "Broken pipe (os error 32)".to_string(),
    });
    assert!(err.is_client_gone());
    assert!(failure_report(&err).is_none());
}

#[test]
fn other_failures_get_500_and_a_log_line() {
    let cases = vec![
        (ServeError::MissingPath, "Missing Path FastCGI Parameter"),
        (ServeError::Filesystem("Permission denied (os error 13)".to_string()), "Permission denied (os error 13)"),
        (ServeError::Data, "corrupt xz stream"),
        (
            ServeError::Write(WriteFailure {
                broken_pipe: false,
                message: "Connection reset by peer (os error 104)".to_string(),
            }),
            "Connection reset by peer (os error 104)",
        ),
    ];
    for (err, text) in cases {
        assert!(!err.is_client_gone());
        assert_eq!(err.message(), text);
        let rep = failure_report(&err).expect("a report");
        assert_eq!(rep.log, text);
        assert_eq!(rep.reply, b"Status: 500 Internal Server Error\r\n\r\n".to_vec());
    }
}
