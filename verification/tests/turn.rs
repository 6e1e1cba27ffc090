use webrtc_signaler::turn::{classify_datagram, create_binding_response, is_stun_message, DatagramKind};

#[test]
fn twenty_byte_binding_request_is_connectivity_check() {
    let mut datagram = [0u8; 20];
    datagram[0] = 0x00;
    datagram[1] = 0x01;
    assert!(is_stun_message(&datagram));
    assert_eq!(classify_datagram(&datagram), DatagramKind::ConnectivityCheck);
}

#[test]
fn short_or_foreign_datagrams_are_relay_payloads() {
    let short = [0x00u8, 0x01];
    assert!(!is_stun_message(&short));
    assert_eq!(classify_datagram(&short), DatagramKind::RelayData);

    let mut foreign = [0u8; 24];
    foreign[0] = 0x80;
    assert!(!is_stun_message(&foreign));
    assert_eq!(classify_datagram(&foreign), DatagramKind::RelayData);

    let mut success_class = [0u8; 20];
    success_class[0] = 0x01;
    success_class[1] = 0x01;
    assert!(is_stun_message(&success_class));
}

#[test]
fn binding_response_length_field_matches() {
    let resp = create_binding_response(54321, &[10, 0, 0, 7]);
    assert_eq!(resp.len(), 32);
    let length_field = ((resp[2] as usize) << 8) | resp[3] as usize;
    assert_eq!(length_field, resp.len() - 20);
}

#[test]
fn binding_response_exact_bytes() {
    let resp = create_binding_response(0x1234, &[192, 168, 1, 2]);
    let expected: Vec<u8> = vec![
        0x01, 0x01, // binding success
        0x00, 0x0c, // message length
        0x21, 0x12, 0xa4, 0x42, // magic cookie
        0x00, 0x00, 0x00, 0x00, 0x00, 0x00, 0x00, 0x00, 0x00, 0x00, 0x00, 0x00, // transaction id
        0x00, 0x20, // xor-mapped-address
        0x00, 0x08, // attribute length
        0x00, 0x01, // family: IPv4
        0x33, 0x26, // 0x1234 ^ 0x2112
        192 ^ 0x21,
        168 ^ 0x12,
        1 ^ 0xa4,
        2 ^ 0x42,
    ];
    assert_eq!(resp, expected);
}
