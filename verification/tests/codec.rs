use js_sidecar::{
    decode_frame, decode_worker_frame, encode_frame, parse_header, Error, ErrorResponseData,
    HostToWorkerMessage, HostToWorkerMessageData, LogResponseData, RunResponseData, RunScriptArgs,
    WorkerMessageKind, WorkerToHostMessageData,
};

#[test]
fn message_frames_carry_their_counters() {
    let ping = HostToWorkerMessage::new(4, 5, HostToWorkerMessageData::Ping);
    assert_eq!(ping.data.message_type(), 1);
    // A Ping's payload is empty whatever bytes are offered.
    let frame = ping.to_buffer(b"ignored");
    assert_eq!(frame, encode_frame(4, 5, 1, &[]));

    let run = HostToWorkerMessage::new(
        6,
        7,
        HostToWorkerMessageData::RunScript(RunScriptArgs::default()),
    );
    assert_eq!(run.data.message_type(), 0);
    let body = b"{\"name\":\"\"}";
    let frame = run.to_buffer(body);
    assert_eq!(frame, encode_frame(6, 7, 0, body));
}

#[test]
fn ping_frame_bytes_are_exact() {
    let frame = encode_frame(1, 2, 1, &[]);
    assert_eq!(
        frame,
        vec![12, 0, 0, 0, 1, 0, 0, 0, 2, 0, 0, 0, 1, 0, 0, 0]
    );
}

#[test]
fn pong_frame_bytes_are_exact() {
    let frame = encode_frame(7, 9, 0x1003, &[]);
    assert_eq!(
        frame,
        vec![12, 0, 0, 0, 7, 0, 0, 0, 9, 0, 0, 0, 0x03, 0x10, 0, 0]
    );
}

#[test]
fn little_endian_header_fields() {
    let frame = encode_frame(0x01020304, 0xA0B0C0D0, 0x1000, b"xy");
    // total_length = 2 + 12 = 14
    assert_eq!(&frame[0..4], &[14, 0, 0, 0]);
    assert_eq!(&frame[4..8], &[0x04, 0x03, 0x02, 0x01]);
    assert_eq!(&frame[8..12], &[0xD0, 0xC0, 0xB0, 0xA0]);
    assert_eq!(&frame[12..16], &[0x00, 0x10, 0x00, 0x00]);
    assert_eq!(&frame[16..], b"xy");
}

#[test]
fn frame_round_trip() {
    let payload = b"{\"level\":\"info\",\"data\":[\"abc\"]}";
    let frame = encode_frame(3, 4, 0x1001, payload);
    let (header, decoded_payload, used) = decode_frame(&frame).unwrap();
    assert_eq!(header.total_length, payload.len() as u32 + 12);
    assert_eq!(header.request_id, 3);
    assert_eq!(header.message_id, 4);
    assert_eq!(header.message_type, 0x1001);
    assert_eq!(decoded_payload, payload.to_vec());
    assert_eq!(used, frame.len());
}

#[test]
fn round_trip_with_json_payload() {
    // The payload body is opaque to the codec; check byte-compatibility
    // with a real JSON serializer end to end.
    let value: serde_json::Value =
        serde_json::from_str("{\"globals\":{\"output\":15},\"return_value\":20}").unwrap();
    let payload = serde_json::to_vec(&value).unwrap();
    let frame = encode_frame(0, 0, 0x1000, &payload);
    let (header, decoded_payload, used) = decode_frame(&frame).unwrap();
    assert_eq!(header.message_type, 0x1000);
    assert_eq!(used, frame.len());
    let recovered: serde_json::Value = serde_json::from_slice(&decoded_payload).unwrap();
    assert_eq!(recovered, value);
    assert_eq!(recovered["globals"]["output"], serde_json::Value::from(15));
}

#[test]
fn truncation_at_every_offset_fails() {
    let frame = encode_frame(5, 6, 0, b"abcdef");
    for cut in 0..frame.len() {
        let result = decode_frame(&frame[..cut]);
        assert!(
            matches!(result, Err(Error::ReadStream(_))),
            "a frame cut to {cut} bytes must fail to decode"
        );
    }
    assert!(decode_frame(&frame).is_ok());
}

#[test]
fn length_below_header_minimum_is_fatal() {
    // total_length = 11 < 12 can never be a valid frame.
    let mut bytes = vec![11, 0, 0, 0];
    bytes.extend_from_slice(&[0; 12]);
    assert!(matches!(parse_header(&bytes), Err(Error::ReadStream(_))));
    assert!(matches!(decode_frame(&bytes), Err(Error::ReadStream(_))));
}

#[test]
fn trailing_bytes_are_not_consumed() {
    let mut bytes = encode_frame(1, 1, 1, b"hi");
    let frame_len = bytes.len();
    bytes.extend_from_slice(b"tail of the next frame");
    let (header, payload, used) = decode_frame(&bytes).unwrap();
    assert_eq!(header.message_type, 1);
    assert_eq!(payload, b"hi".to_vec());
    assert_eq!(used, frame_len);
}

#[test]
fn unknown_message_type_in_well_formed_frame() {
    let frame = encode_frame(0, 0, 0x9999, b"{}");
    let (header, _, _) = decode_frame(&frame).unwrap();
    let kind = WorkerToHostMessageData::parse_kind(header.message_type);
    assert!(matches!(kind, Err(Error::InvalidMessageType(0x9999))));
}

#[test]
fn worker_frame_decodes_with_kind() {
    let frame = encode_frame(3, 5, 0x1002, b"{\"message\":\"boom\",\"stack\":null}");
    let (header, kind, payload, used) = decode_worker_frame(&frame).unwrap();
    assert_eq!(header.request_id, 3);
    assert_eq!(header.message_id, 5);
    assert_eq!(kind, WorkerMessageKind::Error);
    assert_eq!(payload, b"{\"message\":\"boom\",\"stack\":null}".to_vec());
    assert_eq!(used, frame.len());
}

#[test]
fn worker_frame_with_unknown_type_is_rejected() {
    let frame = encode_frame(0, 0, 0x9999, b"{}");
    assert!(matches!(
        decode_worker_frame(&frame),
        Err(Error::InvalidMessageType(0x9999))
    ));
    // Truncation still fails as a transport error, not as a type error.
    assert!(matches!(
        decode_worker_frame(&frame[..frame.len() - 1]),
        Err(Error::ReadStream(_))
    ));
}

#[test]
fn worker_message_types_are_exact() {
    let response = WorkerToHostMessageData::RunResponse(RunResponseData {
        globals: vec![],
        return_value: "null".to_owned(),
    });
    assert_eq!(response.message_type(), 0x1000);
    let log = WorkerToHostMessageData::Log(LogResponseData {
        level: "info".to_owned(),
        data: "null".to_owned(),
    });
    assert_eq!(log.message_type(), 0x1001);
    let error = WorkerToHostMessageData::Error(ErrorResponseData {
        message: "boom".to_owned(),
        stack: None,
    });
    assert_eq!(error.message_type(), 0x1002);
    assert_eq!(WorkerToHostMessageData::Pong.message_type(), 0x1003);
}

#[test]
fn known_message_types_classify() {
    assert_eq!(
        WorkerToHostMessageData::parse_kind(0x1000).unwrap(),
        WorkerMessageKind::RunResponse
    );
    assert_eq!(
        WorkerToHostMessageData::parse_kind(0x1001).unwrap(),
        WorkerMessageKind::Log
    );
    assert_eq!(
        WorkerToHostMessageData::parse_kind(0x1002).unwrap(),
        WorkerMessageKind::Error
    );
    assert_eq!(
        WorkerToHostMessageData::parse_kind(0x1003).unwrap(),
        WorkerMessageKind::Pong
    );
}
