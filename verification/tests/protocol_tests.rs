use sensorcloud::protocol::{
    build_channel_body, build_sensor_body, build_upload_body, classify_provision_status,
    classify_upload_status, parse_auth_response, Error, Point, SampleRate,
};

fn auth_body(token: &str, host: &str) -> Vec<u8> {
    // the host field reuses the token's declared length, so both strings must
    // have the same byte length
    assert_eq!(token.len(), host.len());
    let l = token.len();
    let padded = (l + 3) / 4 * 4;
    let mut body: Vec<u8> = Vec::new();
    body.extend_from_slice(&(l as u32).to_be_bytes());
    body.extend_from_slice(token.as_bytes());
    body.resize(4 + padded, 0);
    body.extend_from_slice(host.as_bytes());
    body.resize(4 + padded + padded, 0);
    body
}

#[test]
fn upload_body_layout_for_three_points() {
    let rate = SampleRate::hertz(1);
    let data = vec![
        Point { timestamp: 10, value_bits: 1.0f32.to_bits() },
        Point { timestamp: 11, value_bits: 2.0f32.to_bits() },
        Point { timestamp: 12, value_bits: 3.5f32.to_bits() },
    ];
    let body = build_upload_body(1, &rate, &data);
    assert_eq!(body.len(), 4 + 4 + 4 + 4 + 3 * (8 + 4));
    let mut expect: Vec<u8> = Vec::new();
    expect.extend_from_slice(&1i32.to_be_bytes()); // version
    expect.extend_from_slice(&1i32.to_be_bytes()); // rate type code: Hertz
    expect.extend_from_slice(&1u32.to_be_bytes()); // rate value
    expect.extend_from_slice(&3i32.to_be_bytes()); // point count
    for p in &data {
        expect.extend_from_slice(&p.timestamp.to_be_bytes());
        expect.extend_from_slice(&p.value_bits.to_be_bytes());
    }
    assert_eq!(body, expect);
}

#[test]
fn upload_body_length_grows_twelve_bytes_per_point() {
    let rate = SampleRate::seconds(10);
    for n in [0usize, 1, 2, 7] {
        let data: Vec<Point> = (0..n as u64)
            .map(|i| Point { timestamp: i, value_bits: 0 })
            .collect();
        let body = build_upload_body(1, &rate, &data);
        assert_eq!(body.len(), 16 + 12 * n);
    }
}

#[test]
fn seconds_rate_encodes_type_code_zero() {
    let rate = SampleRate::seconds(60);
    let body = build_upload_body(1, &rate, &Vec::new());
    assert_eq!(&body[4..8], &0i32.to_be_bytes());
    assert_eq!(&body[8..12], &60u32.to_be_bytes());
}

#[test]
fn sensor_body_is_version_then_three_empty_fields() {
    let body = build_sensor_body(1);
    assert_eq!(body.len(), 4 + 52 + 52 + 1000);
    assert_eq!(&body[..4], &1i32.to_be_bytes());
    assert!(body[4..].iter().all(|b| *b == 0));
}

#[test]
fn channel_body_is_version_then_two_empty_fields() {
    let body = build_channel_body(1);
    assert_eq!(body.len(), 4 + 52 + 1000);
    assert_eq!(&body[..4], &1i32.to_be_bytes());
    assert!(body[4..].iter().all(|b| *b == 0));
}

#[test]
fn upload_status_classification() {
    assert!(classify_upload_status(201).is_ok());
    assert!(matches!(classify_upload_status(404), Err(Error::ChannelNotFound)));
    assert!(matches!(classify_upload_status(401), Err(Error::Unauthorized)));
    assert!(matches!(classify_upload_status(500), Err(Error::UnknownStatus(500))));
    assert!(matches!(classify_upload_status(200), Err(Error::UnknownStatus(200))));
}

#[test]
fn provision_status_classification() {
    assert!(classify_provision_status(201).is_ok());
    assert!(matches!(classify_provision_status(200), Err(Error::InvalidParameters)));
    assert!(matches!(classify_provision_status(404), Err(Error::InvalidParameters)));
}

#[test]
fn auth_response_parses_token_and_host() {
    let body = auth_body("abcd", "srv1");
    let (token, host) = parse_auth_response(&body).unwrap();
    assert_eq!(token, "abcd");
    assert_eq!(host, "srv1");
}

#[test]
fn auth_response_with_padding_between_fields() {
    let body = auth_body("token", "host5");
    let (token, host) = parse_auth_response(&body).unwrap();
    assert_eq!(token, "token");
    assert_eq!(host, "host5");
}

#[test]
fn auth_response_too_short_is_rejected() {
    assert!(parse_auth_response(&vec![]).is_none());
    assert!(parse_auth_response(&vec![0, 0, 0]).is_none());
    // declares four bytes but carries none
    assert!(parse_auth_response(&vec![0, 0, 0, 4]).is_none());
    // token fits but the host field is missing
    let mut body = vec![0, 0, 0, 4];
    body.extend_from_slice(b"abcd");
    assert!(parse_auth_response(&body).is_none());
}

#[test]
fn auth_response_invalid_utf8_is_rejected() {
    let mut body = auth_body("abcd", "srv1");
    body[4] = 0xff; // token byte that is not valid UTF-8
    assert!(parse_auth_response(&body).is_none());
}

#[test]
fn auth_token_field_matches_reference_xdr_decoder() {
    let body = auth_body("tok", "hos");
    let (token, _) = parse_auth_response(&body).unwrap();
    let mut cursor = std::io::Cursor::new(body);
    let (reference, consumed) = xdr_codec::unpack_string(&mut cursor, None).unwrap();
    assert_eq!(token, reference);
    // the reference decoder consumed the length prefix plus the padded field
    assert_eq!(consumed, 4 + 4);
}
