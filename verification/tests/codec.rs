use fakegreet::codec::{
    bytes_needed_within, read_doc, read_frame, write_doc, write_frame, ByteStream, CodecError, FuturesCodec,
    DEFAULT_BODY_LIMIT,
};
use fakegreet::json::{Json, Member};
use fakegreet::message::{AuthMessageType, ErrorType, Request, Response};

fn frame_of(body: &[u8]) -> Vec<u8> {
    let mut out = (body.len() as u32).to_le_bytes().to_vec();
    out.extend_from_slice(body);
    out
}

fn written<M: FuturesCodec>(message: &M) -> Vec<u8> {
    let mut out = Vec::new();
    message.write_to(&mut out).unwrap();
    out
}

fn short_read() -> CodecError {
    CodecError::Io("failed to fill whole buffer".to_string())
}

#[test]
fn codec_error_describes_itself() {
    assert_eq!(CodecError::Serialization("x".to_string()).describe(), "serialization error: x");
    assert_eq!(CodecError::Io("y".to_string()).describe(), "i/o error: y");
    assert_eq!(CodecError::Eof.describe(), "EOF");
}

#[test]
fn stream_counts_what_is_left() {
    let mut stream = ByteStream::new(frame_of(b"abc"));
    assert_eq!(stream.remaining(), 7);
    assert_eq!(read_frame(&mut stream), Ok(b"abc".to_vec()));
    assert_eq!(stream.remaining(), 0);
}

#[test]
fn read_frame_on_a_closed_stream_is_eof() {
    let mut stream = ByteStream::new(vec![]);
    assert_eq!(read_frame(&mut stream), Err(CodecError::Eof));
    assert_eq!(stream.remaining(), 0);
}

#[test]
fn read_frame_inside_the_prefix_is_an_io_error() {
    for have in 1..4usize {
        let mut stream = ByteStream::new(vec![0; have]);
        assert_eq!(read_frame(&mut stream), Err(short_read()));
        assert_eq!(stream.remaining(), have);
    }
}

#[test]
fn read_frame_inside_the_body_is_an_io_error() {
    let mut bytes = frame_of(b"hello");
    bytes.pop();
    let mut stream = ByteStream::new(bytes);
    assert_eq!(read_frame(&mut stream), Err(short_read()));
    assert_eq!(stream.remaining(), 8);
    let mut stream = ByteStream::new(vec![5, 0, 0, 0]);
    assert_eq!(read_frame(&mut stream), Err(short_read()));
}

#[test]
fn read_frame_takes_an_empty_body() {
    let mut stream = ByteStream::new(vec![0, 0, 0, 0, 9]);
    assert_eq!(read_frame(&mut stream), Ok(vec![]));
    assert_eq!(stream.remaining(), 1);
}

#[test]
fn read_frame_takes_frames_one_after_the_other() {
    let mut bytes = frame_of(b"one");
    bytes.extend_from_slice(&frame_of(b"three"));
    let mut stream = ByteStream::new(bytes);
    assert_eq!(read_frame(&mut stream), Ok(b"one".to_vec()));
    assert_eq!(stream.remaining(), 9);
    assert_eq!(read_frame(&mut stream), Ok(b"three".to_vec()));
    assert_eq!(read_frame(&mut stream), Err(CodecError::Eof));
}

#[test]
fn write_frame_appends_length_and_body() {
    let mut out = vec![7];
    assert_eq!(write_frame(b"hi", &mut out), Ok(()));
    assert_eq!(out, vec![7, 2, 0, 0, 0, b'h', b'i']);
    assert_eq!(write_frame(b"", &mut out), Ok(()));
    assert_eq!(out, vec![7, 2, 0, 0, 0, b'h', b'i', 0, 0, 0, 0]);
}

#[test]
fn write_frame_spells_a_long_length() {
    let body = vec![b'x'; 70000];
    let mut out = Vec::new();
    assert_eq!(write_frame(&body, &mut out), Ok(()));
    assert_eq!(&out[..4], &[0x70, 0x11, 0x01, 0x00]);
    assert_eq!(out.len(), 70004);
    let mut stream = ByteStream::new(out);
    assert_eq!(read_frame(&mut stream), Ok(body));
}

#[test]
fn request_travels_as_framed_json() {
    let request = Request::CreateSession { username: "john".to_string() };
    assert_eq!(written(&request), frame_of(b"{\"type\":\"create_session\",\"username\":\"john\"}"));
    let request = Request::PostAuthMessageResponse { response: Some("9".to_string()) };
    assert_eq!(
        written(&request),
        frame_of(b"{\"type\":\"post_auth_message_response\",\"response\":\"9\"}")
    );
    let request = Request::PostAuthMessageResponse { response: None };
    assert_eq!(
        written(&request),
        frame_of(b"{\"type\":\"post_auth_message_response\",\"response\":null}")
    );
    let request = Request::StartSession { cmd: vec!["sway".to_string(), "-d".to_string()] };
    assert_eq!(written(&request), frame_of(b"{\"type\":\"start_session\",\"cmd\":[\"sway\",\"-d\"]}"));
    assert_eq!(written(&Request::CancelSession), frame_of(b"{\"type\":\"cancel_session\"}"));
}

#[test]
fn response_travels_as_framed_json() {
    assert_eq!(written(&Response::Success), frame_of(b"{\"type\":\"success\"}"));
    let response = Response::AuthMessage {
        auth_message_type: AuthMessageType::Secret,
        auth_message: "Password:".to_string(),
    };
    assert_eq!(
        written(&response),
        frame_of(b"{\"type\":\"auth_message\",\"auth_message_type\":\"secret\",\"auth_message\":\"Password:\"}")
    );
    let response = Response::Error { error_type: ErrorType::AuthError, description: "nope".to_string() };
    assert_eq!(
        written(&response),
        frame_of(b"{\"type\":\"error\",\"error_type\":\"auth_error\",\"description\":\"nope\"}")
    );
}

#[test]
fn write_to_appends_to_what_the_stream_holds() {
    let mut out = vec![1, 2, 3];
    Response::Success.write_to(&mut out).unwrap();
    let mut expected = vec![1, 2, 3];
    expected.extend_from_slice(&frame_of(b"{\"type\":\"success\"}"));
    assert_eq!(out, expected);
}

#[test]
fn requests_come_back_as_they_went() {
    let requests = vec![
        Request::CreateSession { username: "john".to_string() },
        Request::CreateSession { username: "".to_string() },
        Request::CreateSession { username: "j\"o\\h\nn \u{1F600} \u{e9}".to_string() },
        Request::PostAuthMessageResponse { response: Some("secret".to_string()) },
        Request::PostAuthMessageResponse { response: None },
        Request::StartSession { cmd: vec![] },
        Request::StartSession { cmd: vec!["a".to_string(), "".to_string(), "b c".to_string()] },
        Request::CancelSession,
    ];
    let mut wire = Vec::new();
    for request in &requests {
        request.write_to(&mut wire).unwrap();
    }
    let mut stream = ByteStream::new(wire);
    for request in &requests {
        assert_eq!(Request::read_from(&mut stream).as_ref(), Ok(request));
    }
    assert_eq!(stream.remaining(), 0);
    assert_eq!(Request::read_from(&mut stream), Err(CodecError::Eof));
}

#[test]
fn responses_come_back_as_they_went() {
    let responses = vec![
        Response::Success,
        Response::AuthMessage { auth_message_type: AuthMessageType::Visible, auth_message: "User:".to_string() },
        Response::AuthMessage { auth_message_type: AuthMessageType::Secret, auth_message: "".to_string() },
        Response::Error { error_type: ErrorType::Error, description: "wat".to_string() },
        Response::Error { error_type: ErrorType::AuthError, description: "n\u{f6}pe".to_string() },
    ];
    let mut wire = Vec::new();
    for response in &responses {
        response.write_to(&mut wire).unwrap();
    }
    let mut stream = ByteStream::new(wire);
    for response in &responses {
        assert_eq!(Response::read_from(&mut stream).as_ref(), Ok(response));
    }
    assert_eq!(Response::read_from(&mut stream), Err(CodecError::Eof));
}

#[test]
fn read_from_a_closed_stream_is_eof() {
    assert_eq!(Request::read_from(&mut ByteStream::new(vec![])), Err(CodecError::Eof));
    assert_eq!(Response::read_from(&mut ByteStream::new(vec![])), Err(CodecError::Eof));
}

#[test]
fn read_from_a_short_frame_is_an_io_error() {
    let mut wire = written(&Request::CancelSession);
    wire.truncate(10);
    let mut stream = ByteStream::new(wire);
    assert_eq!(Request::read_from(&mut stream), Err(short_read()));
    assert_eq!(stream.remaining(), 10);
    let mut stream = ByteStream::new(vec![1, 0]);
    assert_eq!(Response::read_from(&mut stream), Err(short_read()));
}

#[test]
fn read_from_text_that_is_not_json_is_a_serialization_error() {
    let mut stream = ByteStream::new(frame_of(b"{\"type\":"));
    assert_eq!(
        Request::read_from(&mut stream),
        Err(CodecError::Serialization("EOF while parsing a value at line 1 column 8".to_string()))
    );
    assert_eq!(stream.remaining(), 0);
    let mut stream = ByteStream::new(vec![0, 0, 0, 0]);
    assert!(matches!(Response::read_from(&mut stream), Err(CodecError::Serialization(_))));
}

#[test]
fn read_from_json_that_spells_no_message_is_a_serialization_error() {
    let misspelled = CodecError::Serialization("not a message of the expected kind".to_string());
    let mut stream = ByteStream::new(frame_of(b"{\"type\":\"success\"}"));
    assert_eq!(Request::read_from(&mut stream), Err(misspelled.clone()));
    assert_eq!(stream.remaining(), 0);
    let mut stream = ByteStream::new(frame_of(b"{\"type\":\"cancel_session\"}"));
    assert_eq!(Response::read_from(&mut stream), Err(misspelled.clone()));
    let mut stream = ByteStream::new(frame_of(b"[1,2]"));
    assert_eq!(Request::read_from(&mut stream), Err(misspelled));
}

#[test]
fn read_from_goes_on_after_a_body_it_refused() {
    let mut wire = frame_of(b"nonsense");
    wire.extend_from_slice(&written(&Request::CancelSession));
    let mut stream = ByteStream::new(wire);
    assert!(matches!(Request::read_from(&mut stream), Err(CodecError::Serialization(_))));
    assert_eq!(Request::read_from(&mut stream), Ok(Request::CancelSession));
}

#[test]
fn read_from_takes_members_in_any_order_and_skips_others() {
    let mut stream =
        ByteStream::new(frame_of(b" { \"username\" : \"amy\", \"extra\": [1], \"type\": \"create_session\" } "));
    assert_eq!(
        Request::read_from(&mut stream),
        Ok(Request::CreateSession { username: "amy".to_string() })
    );
}

#[test]
fn docs_travel_in_frames() {
    let doc = Json::Object(vec![Member { name: "k".to_string(), value: Json::Bool(false) }]);
    let mut out = Vec::new();
    assert_eq!(write_doc(&doc, &mut out), Ok(()));
    assert_eq!(out, frame_of(b"{\"k\":false}"));
    let mut stream = ByteStream::new(out);
    assert_eq!(read_doc(&mut stream), Ok(doc));
    assert_eq!(read_doc(&mut stream), Err(CodecError::Eof));
}

#[test]
fn write_doc_refuses_what_serde_json_refuses() {
    let mut out = vec![5];
    let res = write_doc(&Json::Number("1e".to_string()), &mut out);
    assert!(matches!(res, Err(CodecError::Serialization(_))));
    assert_eq!(out, vec![5]);
}

#[test]
fn bytes_needed_within_counts_like_bytes_needed_below_the_limit() {
    assert_eq!(DEFAULT_BODY_LIMIT, 1024 * 1024);
    assert_eq!(bytes_needed_within(&[], 10), Ok(4));
    assert_eq!(bytes_needed_within(&[255, 255, 255], 10), Ok(1));
    assert_eq!(bytes_needed_within(&[10, 0, 0, 0], 10), Ok(10));
    assert_eq!(bytes_needed_within(&[10, 0, 0, 0, 1, 2, 3], 10), Ok(7));
    assert_eq!(bytes_needed_within(&[0, 0, 0, 0], 0), Ok(0));
    assert_eq!(bytes_needed_within(&[255, 255, 255, 255], u32::MAX), Ok(u32::MAX as u64));
}

#[test]
fn bytes_needed_within_refuses_a_frame_above_the_limit() {
    let too_long = Err(CodecError::Io("frame longer than allowed".to_string()));
    assert_eq!(bytes_needed_within(&[11, 0, 0, 0], 10), too_long);
    assert_eq!(bytes_needed_within(&[0, 0, 0, 1, 5, 5], 0xff_ffff), too_long);
    assert_eq!(bytes_needed_within(&[1, 0, 0, 0, 5], 0), too_long);
    assert_eq!(bytes_needed_within(&[0, 0, 16, 0], DEFAULT_BODY_LIMIT), Ok(1024 * 1024));
    assert_eq!(bytes_needed_within(&[1, 0, 16, 0], DEFAULT_BODY_LIMIT), too_long);
}

#[test]
fn clones_are_equal() {
    let error = CodecError::Io("x".to_string());
    assert_eq!(error.clone(), error);
    let request = Request::StartSession { cmd: vec!["a".to_string(), "b".to_string()] };
    assert_eq!(request.clone(), request);
    let request = Request::PostAuthMessageResponse { response: Some("a".to_string()) };
    assert_eq!(request.clone(), request);
    let response = Response::Error { error_type: ErrorType::AuthError, description: "nope".to_string() };
    assert_eq!(response.clone(), response);
}
