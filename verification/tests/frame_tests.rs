use batteread::{build_frame, checksum_of, parse, Assembler, AssemblyStep, InvalidReason,
    ParseOutcome};

#[test]
fn test_try_parse_message_happy() {
    let message =
        hex::decode("010318240c000002a7000000000000000000000000000000000000bc90").unwrap();
    let payload = hex::decode("240c000002a7000000000000000000000000000000000000").unwrap();
    let result = parse(&message[..]);
    assert_eq!(result, ParseOutcome::Complete(payload));
}

#[test]
fn test_try_parse_message_no_header() {
    let message = hex::decode("0103").unwrap();
    let result = parse(&message[..]);
    assert_eq!(result, ParseOutcome::Incomplete);
}

#[test]
fn test_try_parse_message_incomplete() {
    let message = hex::decode("010318240c000002a700000000000000000000000000000000bc").unwrap();
    let result = parse(&message[..]);
    assert_eq!(result, ParseOutcome::Incomplete);
}

#[test]
fn test_try_parse_message_bad_crc() {
    let message =
        hex::decode("010318240c000002a7000000000000000000000000000000000000bc91").unwrap();
    let result = parse(&message[..]);
    assert_eq!(result, ParseOutcome::Invalid(InvalidReason::ChecksumMismatch));
}

#[test]
fn test_checksum() {
    let payload = [
        0x01, 0x03, 0x18, 0x24, 0x0c, 0x00, 0x00, 0x02, 0xa7, 0x00, 0x00, 0x00, 0x00, 0x00, 0x00,
        0x00, 0x00, 0x00, 0x00, 0x00, 0x00, 0x00, 0x00, 0x00, 0x00, 0x00, 0x00,
    ];
    let expected = 0x90bc;
    assert_eq!(crc16::State::<crc16::MODBUS>::calculate(&payload), expected);
}

#[test]
fn test_checksum_of_encodes_low_byte_first() {
    let data =
        hex::decode("010318240c000002a7000000000000000000000000000000000000").unwrap();
    let value = crc16::State::<crc16::MODBUS>::calculate(&data[..]);
    let (lo, hi) = checksum_of(&data[..]);
    assert_eq!([lo, hi], value.to_le_bytes());
}

#[test]
fn test_build_frame_reproduces_known_message() {
    let payload = hex::decode("240c000002a7000000000000000000000000000000000000").unwrap();
    let frame = build_frame(&payload);
    let expected =
        hex::decode("010318240c000002a7000000000000000000000000000000000000bc90").unwrap();
    assert_eq!(frame, expected);
}

#[test]
fn test_round_trip_empty_payload() {
    let payload: Vec<u8> = Vec::new();
    let frame = build_frame(&payload);
    assert_eq!(frame.len(), 5);
    assert_eq!(parse(&frame[..]), ParseOutcome::Complete(Vec::new()));
}

#[test]
fn test_round_trip_max_payload() {
    let payload: Vec<u8> = (0..255u8).map(|b| b.wrapping_mul(7)).collect();
    let frame = build_frame(&payload);
    assert_eq!(frame.len(), 260);
    assert_eq!(parse(&frame[..]), ParseOutcome::Complete(payload));
}

#[test]
fn test_unexpected_header() {
    let message = hex::decode("020318240c000002a7000000000000000000000000000000000000bc90")
        .unwrap();
    assert_eq!(parse(&message[..]), ParseOutcome::Invalid(InvalidReason::UnexpectedHeader));
    let message = hex::decode("010418240c000002a7000000000000000000000000000000000000bc90")
        .unwrap();
    assert_eq!(parse(&message[..]), ParseOutcome::Invalid(InvalidReason::UnexpectedHeader));
}

#[test]
fn test_too_long() {
    let mut message =
        hex::decode("010318240c000002a7000000000000000000000000000000000000bc90").unwrap();
    message.push(0x00);
    assert_eq!(parse(&message[..]), ParseOutcome::Invalid(InvalidReason::TooLong));
}

#[test]
fn test_short_buffers_incomplete() {
    assert_eq!(parse(&[]), ParseOutcome::Incomplete);
    assert_eq!(parse(&[0xff]), ParseOutcome::Incomplete);
    assert_eq!(parse(&[0xff, 0xff]), ParseOutcome::Incomplete);
}

#[test]
fn test_payload_byte_flip_detected() {
    let frame =
        hex::decode("010318240c000002a7000000000000000000000000000000000000bc90").unwrap();
    for k in 3..frame.len() - 2 {
        let mut corrupted = frame.clone();
        corrupted[k] ^= 0x01;
        assert_eq!(
            parse(&corrupted[..]),
            ParseOutcome::Invalid(InvalidReason::ChecksumMismatch),
            "flip at {k}"
        );
    }
}

#[test]
fn test_length_byte_flip_never_complete() {
    let frame =
        hex::decode("010318240c000002a7000000000000000000000000000000000000bc90").unwrap();
    for bit in 0..8 {
        let mut corrupted = frame.clone();
        corrupted[2] ^= 1 << bit;
        let outcome = parse(&corrupted[..]);
        assert!(
            outcome == ParseOutcome::Incomplete
                || outcome == ParseOutcome::Invalid(InvalidReason::TooLong),
            "bit {bit}: {outcome:?}"
        );
    }
}

#[test]
fn test_assembler_chunked_message() {
    let frame =
        hex::decode("010318240c000002a7000000000000000000000000000000000000bc90").unwrap();
    let payload = hex::decode("240c000002a7000000000000000000000000000000000000").unwrap();
    let mut assembler = Assembler::new();
    assert!(matches!(assembler.on_chunk(&frame[0..10]), AssemblyStep::Pending));
    assert!(matches!(assembler.on_chunk(&frame[10..20]), AssemblyStep::Pending));
    match assembler.on_chunk(&frame[20..]) {
        AssemblyStep::Finished(outcome) => assert_eq!(outcome, ParseOutcome::Complete(payload)),
        AssemblyStep::Pending => panic!("message should be complete"),
    }
}

#[test]
fn test_assembler_discards_duplicate_chunk() {
    let frame =
        hex::decode("010318240c000002a7000000000000000000000000000000000000bc90").unwrap();
    let payload = hex::decode("240c000002a7000000000000000000000000000000000000").unwrap();
    let mut assembler = Assembler::new();
    assert!(matches!(assembler.on_chunk(&frame[0..14]), AssemblyStep::Pending));
    // The transport repeats the notification; the duplicate must not be appended.
    assert!(matches!(assembler.on_chunk(&frame[0..14]), AssemblyStep::Pending));
    match assembler.on_chunk(&frame[14..]) {
        AssemblyStep::Finished(outcome) => assert_eq!(outcome, ParseOutcome::Complete(payload)),
        AssemblyStep::Pending => panic!("message should be complete"),
    }
}

#[test]
fn test_assembler_invalid_ends_immediately() {
    let mut assembler = Assembler::new();
    match assembler.on_chunk(&[0x02, 0x03, 0x18]) {
        AssemblyStep::Finished(outcome) => {
            assert_eq!(outcome, ParseOutcome::Invalid(InvalidReason::UnexpectedHeader))
        }
        AssemblyStep::Pending => panic!("a broken header should end the message"),
    }
}

#[test]
fn test_assembler_timeout_reports_incomplete() {
    let frame =
        hex::decode("010318240c000002a7000000000000000000000000000000000000bc90").unwrap();
    let mut assembler = Assembler::new();
    assert!(matches!(assembler.on_chunk(&frame[0..10]), AssemblyStep::Pending));
    assert_eq!(assembler.on_timeout(), ParseOutcome::Incomplete);
}

#[test]
fn test_assembler_empty_first_chunk_ignored() {
    let frame =
        hex::decode("010318240c000002a7000000000000000000000000000000000000bc90").unwrap();
    let payload = hex::decode("240c000002a7000000000000000000000000000000000000").unwrap();
    let mut assembler = Assembler::new();
    // An empty chunk equals the initial "previous chunk" slot and is discarded.
    assert!(matches!(assembler.on_chunk(&[]), AssemblyStep::Pending));
    match assembler.on_chunk(&frame[..]) {
        AssemblyStep::Finished(outcome) => assert_eq!(outcome, ParseOutcome::Complete(payload)),
        AssemblyStep::Pending => panic!("message should be complete"),
    }
}
