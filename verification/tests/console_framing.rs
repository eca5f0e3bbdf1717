use base64::Engine;
use mcumgr_smp::smp_framing::{SMPTransportDecoder, SMPTransportEncoder, SMPTransportError};

/// Drive an encoder to completion and collect the produced lines.
fn encode_lines(payload: &[u8]) -> Vec<Vec<u8>> {
    let mut encoder = SMPTransportEncoder::new(payload);
    let mut lines = Vec::new();
    while !encoder.is_complete() {
        let mut buf = Vec::new();
        let n = encoder.write_line(&mut buf);
        assert_eq!(n, buf.len());
        assert!(n <= 127);
        lines.push(buf);
    }
    lines
}

/// Feed lines into a fresh decoder and extract the verified payload.
fn decode_lines(lines: &[Vec<u8>]) -> Result<Vec<u8>, SMPTransportError> {
    let mut decoder = SMPTransportDecoder::new();
    for (i, line) in lines.iter().enumerate() {
        let complete = decoder.input_line(line)?;
        assert_eq!(complete, i + 1 == lines.len());
    }
    assert!(decoder.is_complete());
    decoder.into_frame_payload()
}

fn round_trip(payload: &[u8]) -> Vec<u8> {
    let lines = encode_lines(payload);
    decode_lines(&lines).unwrap()
}

/// The CRC-16/XMODEM of a byte slice, recomputed independently.
fn crc16(data: &[u8]) -> u16 {
    crc::Crc::<u16>::new(&crc::CRC_16_XMODEM).checksum(data)
}

#[test]
fn console_round_trip_many_lengths() {
    for len in [0usize, 1, 2, 3, 50, 89, 90, 91, 92, 93, 94, 95, 180, 183, 184, 186, 187, 200, 1000]
    {
        let payload: Vec<u8> = (0..len).map(|i| (i * 31 + 7) as u8).collect();
        assert_eq!(round_trip(&payload), payload, "length {}", len);
    }
}

#[test]
fn console_round_trip_largest_payload() {
    // The largest payload whose content stream still fits the 16-bit
    // declared length.
    let payload: Vec<u8> = (0..65533).map(|i| (i % 127) as u8).collect();
    assert_eq!(round_trip(&payload), payload);
}

#[test]
fn console_line_counts_at_chunk_boundaries() {
    // The first line's raw-body budget is reduced by the 2-byte length
    // prefix, and the content stream ends with the 2-byte checksum.
    assert_eq!(encode_lines(&vec![0u8; 93]).len(), 2);
    assert_eq!(encode_lines(&vec![0u8; 94]).len(), 2);
    assert_eq!(encode_lines(&vec![0u8; 187]).len(), 3);
    assert_eq!(encode_lines(&vec![0u8; 89]).len(), 1);
    assert_eq!(encode_lines(&[]).len(), 1);
}

#[test]
fn console_line_shape() {
    let payload: Vec<u8> = (0..200).map(|i| i as u8).collect();
    let lines = encode_lines(&payload);
    assert_eq!(lines.len(), 3);
    for (i, line) in lines.iter().enumerate() {
        assert!(line.len() <= 127);
        if i == 0 {
            assert_eq!(&line[..2], &[0x06, 0x09]);
        } else {
            assert_eq!(&line[..2], &[0x04, 0x14]);
        }
        assert_eq!(*line.last().unwrap(), 0x0A);
    }
}

#[test]
fn console_known_empty_payload_line() {
    // Empty payload: declared content length 2, content = CRC of the
    // empty sequence (0x0000); raw body 00 02 00 00 -> "AAIAAA==".
    let lines = encode_lines(&[]);
    assert_eq!(lines.len(), 1);
    let expected: Vec<u8> = [&[0x06u8, 0x09][..], b"AAIAAA==", &[0x0A]].concat();
    assert_eq!(lines[0], expected);
}

#[test]
fn console_checksum_is_crc16_xmodem() {
    // The check value of CRC-16/XMODEM: crc("123456789") == 0x31C3, sent
    // big-endian at the end of the content stream.
    let lines = encode_lines(b"123456789");
    assert_eq!(lines.len(), 1);
    let body = &lines[0][2..lines[0].len() - 1];
    let raw = base64::engine::general_purpose::STANDARD.decode(body).unwrap();
    // 2-byte length prefix, 9 payload bytes, 2 checksum bytes.
    assert_eq!(raw.len(), 13);
    assert_eq!(&raw[..2], &[0, 11]);
    assert_eq!(&raw[2..11], b"123456789");
    assert_eq!(&raw[11..], &[0x31, 0xC3]);
}

/// Build console lines carrying exactly `content` (payload plus checksum)
/// with the given declared length.
fn make_lines(declared: u16, content: &[u8]) -> Vec<Vec<u8>> {
    let engine = base64::engine::general_purpose::STANDARD;
    let mut lines = Vec::new();
    let mut first = true;
    let mut rest = content;
    while first || !rest.is_empty() {
        let mut raw = Vec::new();
        if first {
            raw.extend_from_slice(&declared.to_be_bytes());
        }
        let budget = 93 - raw.len();
        let take = budget.min(rest.len());
        raw.extend_from_slice(&rest[..take]);
        rest = &rest[take..];
        let mut line = if first {
            vec![0x06, 0x09]
        } else {
            vec![0x04, 0x14]
        };
        line.extend_from_slice(engine.encode(&raw).as_bytes());
        line.push(0x0A);
        lines.push(line);
        first = false;
    }
    lines
}

#[test]
fn console_bit_flip_is_detected() {
    // Flipping any single bit of a completed frame's content (payload or
    // checksum bytes) must fail the checksum verification.
    let payload: Vec<u8> = (0..40).map(|i| (i * 13) as u8).collect();
    let mut content = payload.clone();
    content.extend_from_slice(&crc16(&payload).to_be_bytes());
    let declared = content.len() as u16;

    for byte in 0..content.len() {
        for bit in 0..8 {
            let mut corrupted = content.clone();
            corrupted[byte] ^= 1 << bit;
            let lines = make_lines(declared, &corrupted);
            let r = decode_lines(&lines);
            assert!(
                matches!(r, Err(SMPTransportError::CRCError)),
                "flip of byte {} bit {} was not detected",
                byte,
                bit
            );
        }
    }
}

#[test]
fn decoder_rejects_start_after_start() {
    let lines = encode_lines(&vec![7u8; 200]);
    let mut decoder = SMPTransportDecoder::new();
    decoder.input_line(&lines[0]).unwrap();
    let r = decoder.input_line(&lines[0]);
    assert!(matches!(r, Err(SMPTransportError::UnexpectedFrame)));
}

#[test]
fn decoder_rejects_continuation_first() {
    let lines = encode_lines(&vec![7u8; 200]);
    let mut decoder = SMPTransportDecoder::new();
    let r = decoder.input_line(&lines[1]);
    assert!(matches!(r, Err(SMPTransportError::UnexpectedFrame)));
}

#[test]
fn decoder_rejects_unknown_marker() {
    let mut decoder = SMPTransportDecoder::new();
    let engine = base64::engine::general_purpose::STANDARD;
    let mut line = vec![0x01, 0x02];
    line.extend_from_slice(engine.encode([0u8, 4]).as_bytes());
    line.push(0x0A);
    let r = decoder.input_line(&line);
    assert!(matches!(
        r,
        Err(SMPTransportError::UnknownFrameStart([0x01, 0x02]))
    ));
}

#[test]
fn decoder_rejects_invalid_base64() {
    let mut decoder = SMPTransportDecoder::new();
    let line = [&[0x06u8, 0x09][..], b"!!!!", &[0x0A]].concat();
    let r = decoder.input_line(&line);
    assert!(matches!(r, Err(SMPTransportError::Base64DecodeError)));
}

#[test]
fn decoder_rejects_overlong_content() {
    // Declared length 3, but 10 content bytes arrive.
    let lines = make_lines(3, &[0u8; 10]);
    let mut decoder = SMPTransportDecoder::new();
    let r = decoder.input_line(&lines[0]);
    assert!(matches!(r, Err(SMPTransportError::PacketLength(3, 10))));
}

#[test]
fn decoder_incomplete_frame_fails_extraction() {
    let lines = encode_lines(&vec![9u8; 200]);
    let mut decoder = SMPTransportDecoder::new();
    assert!(!decoder.input_line(&lines[0]).unwrap());
    assert!(!decoder.is_complete());
    let r = decoder.into_frame_payload();
    assert!(matches!(r, Err(SMPTransportError::PacketLength(_, _))));
}

#[test]
fn fresh_decoder_fails_extraction() {
    let decoder = SMPTransportDecoder::new();
    let r = decoder.into_frame_payload();
    assert!(matches!(r, Err(SMPTransportError::PacketLength(0, 0))));
}

#[test]
fn decoder_default_is_fresh() {
    let mut decoder = SMPTransportDecoder::default();
    assert!(!decoder.is_complete());
    let lines = encode_lines(b"abc");
    assert!(decoder.input_line(&lines[0]).unwrap());
    assert_eq!(decoder.into_frame_payload().unwrap(), b"abc");
}

#[test]
fn encoder_reports_completion() {
    let mut encoder = SMPTransportEncoder::new(&[1, 2, 3]);
    assert!(!encoder.is_complete());
    let mut buf = Vec::new();
    encoder.write_line(&mut buf);
    assert!(encoder.is_complete());
}
