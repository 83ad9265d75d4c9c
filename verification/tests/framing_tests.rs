use mcp_cli::framing::{
    read_protocol_message, trim_frame_terminator, FrameReader, ProtocolFrame,
    DEFAULT_MAX_FRAME_BYTES,
};

fn frame_bytes(frame: ProtocolFrame) -> Vec<u8> {
    match frame {
        ProtocolFrame::Message(message) => message,
        other => panic!("expected a complete frame, got {other:?}"),
    }
}

#[test]
fn read_protocol_message_reads_one_newline_delimited_line() {
    let input = b"{\"jsonrpc\":\"2.0\"}\n";

    let (frame, _) = read_protocol_message(input, DEFAULT_MAX_FRAME_BYTES);

    assert_eq!(frame_bytes(frame), b"{\"jsonrpc\":\"2.0\"}");
}

#[test]
fn read_protocol_message_skips_blank_separator_lines() {
    let input = b"\n\r\n{\"id\":1}\n";

    let (frame, consumed) = read_protocol_message(input, DEFAULT_MAX_FRAME_BYTES);

    assert_eq!(frame_bytes(frame), b"{\"id\":1}");
    assert_eq!(consumed, input.len());
}

#[test]
fn read_protocol_message_returns_raw_line_for_non_json_text() {
    let input = b"this is not json\n";

    let (frame, _) = read_protocol_message(input, DEFAULT_MAX_FRAME_BYTES);

    assert_eq!(frame_bytes(frame), b"this is not json");
}

#[test]
fn read_protocol_message_returns_raw_bytes_for_invalid_utf8() {
    let input = b"{\"a\":\"\xff\xfe\"}\n";

    let (frame, _) = read_protocol_message(input, DEFAULT_MAX_FRAME_BYTES);

    assert_eq!(frame_bytes(frame), b"{\"a\":\"\xff\xfe\"}");
}

#[test]
fn read_protocol_message_accepts_a_frame_exactly_at_the_cap() {
    let payload = vec![b'x'; 8];
    let input = [payload.clone(), b"\n".to_vec()].concat();

    let (frame, _) = read_protocol_message(&input, payload.len());

    assert_eq!(frame_bytes(frame), payload.as_slice());
}

#[test]
fn read_protocol_message_reports_an_oversized_frame_and_resyncs() {
    let input = [b"xxxxxxxxx\n".to_vec(), b"{\"id\":1}\n".to_vec()].concat();

    let (frame, consumed) = read_protocol_message(&input, 8);
    match frame {
        ProtocolFrame::Oversized(discarded) => assert_eq!(discarded, 10),
        other => panic!("expected an oversized frame, got {other:?}"),
    }

    let (frame, _) = read_protocol_message(&input[consumed..], 8);
    assert_eq!(frame_bytes(frame), b"{\"id\":1}");
}

#[test]
fn read_protocol_message_bounds_a_frame_that_never_terminates() {
    let input = vec![b'x'; 1024];

    let (frame, consumed) = read_protocol_message(&input, 16);
    match frame {
        ProtocolFrame::Oversized(discarded) => assert_eq!(discarded, 1024),
        other => panic!("expected an oversized frame, got {other:?}"),
    }

    let (frame, _) = read_protocol_message(&input[consumed..], 16);
    assert_eq!(frame, ProtocolFrame::Eof);
}

#[test]
fn read_protocol_message_returns_a_final_frame_without_a_trailing_newline() {
    let input = b"{\"id\":1}";

    let (frame, _) = read_protocol_message(input, DEFAULT_MAX_FRAME_BYTES);

    assert_eq!(frame_bytes(frame), b"{\"id\":1}");
}

#[test]
fn read_protocol_message_returns_none_on_clean_eof() {
    let (frame, consumed) = read_protocol_message(&[], DEFAULT_MAX_FRAME_BYTES);

    assert_eq!(frame, ProtocolFrame::Eof);
    assert_eq!(consumed, 0);
}

#[test]
fn blank_lines_at_the_end_of_the_stream_end_it() {
    let input = b"\n\r\n\n";

    let (frame, consumed) = read_protocol_message(input, DEFAULT_MAX_FRAME_BYTES);

    assert_eq!(frame, ProtocolFrame::Eof);
    assert_eq!(consumed, input.len());
}

#[test]
fn trim_frame_terminator_removes_one_newline_and_one_carriage_return() {
    assert_eq!(trim_frame_terminator(b"abc\r\n"), b"abc");
    assert_eq!(trim_frame_terminator(b"abc\n"), b"abc");
    assert_eq!(trim_frame_terminator(b"abc\r"), b"abc\r");
    assert_eq!(trim_frame_terminator(b"abc\n\n"), b"abc\n");
    assert_eq!(trim_frame_terminator(b"abc"), b"abc");
    assert_eq!(trim_frame_terminator(b""), b"");
}

#[test]
fn frame_reader_drains_an_oversized_frame_in_chunks() {
    let mut reader = FrameReader::new(4);
    assert_eq!(reader.read_limit(), 5);

    assert_eq!(reader.on_chunk(b"xxxxx".to_vec()), None);
    assert_eq!(reader.read_limit(), 64 * 1024);
    assert_eq!(reader.on_chunk(b"yyy".to_vec()), None);
    assert_eq!(reader.on_chunk(b"zz\n".to_vec()), Some(ProtocolFrame::Oversized(11)));
    assert_eq!(reader.read_limit(), 5);
    assert_eq!(reader.on_chunk(b"\r\n".to_vec()), None);
    assert_eq!(reader.on_chunk(b"ok\n".to_vec()), Some(ProtocolFrame::Message(b"ok".to_vec())));
    assert_eq!(reader.on_chunk(Vec::new()), Some(ProtocolFrame::Eof));
}

#[test]
fn frame_reader_reports_an_oversized_frame_cut_by_the_end_of_the_stream() {
    let mut reader = FrameReader::new(2);

    assert_eq!(reader.on_chunk(b"abc".to_vec()), None);
    assert_eq!(reader.on_chunk(Vec::new()), Some(ProtocolFrame::Oversized(3)));
}
