use aes_gcm::aead::Aead;
use aes_gcm::KeyInit;
use proxy_gateway::vmess::{aead_frame, legacy_frame, legacy_id, VmessProxy};

const SHA256_OF_20_ZEROS: [u8; 32] = [
    0xde, 0x47, 0xc9, 0xb2, 0x7e, 0xb8, 0xd3, 0x00, 0xdb, 0xb5, 0xf2, 0xc3, 0x53, 0xe6, 0x32,
    0xc3, 0x93, 0x26, 0x2c, 0xf0, 0x63, 0x40, 0xc4, 0xfa, 0x7f, 0x1b, 0x40, 0xc4, 0xcb, 0xd3,
    0x6f, 0x90,
];

const MD5_OF_24_ZEROS: [u8; 16] = [
    0x16, 0x81, 0xff, 0xc6, 0xe0, 0x46, 0xc7, 0xaf, 0x98, 0xc9, 0xe6, 0xc2, 0x32, 0xa3, 0xfe,
    0x0a,
];

fn zero_vmess(alter_id: u32) -> VmessProxy {
    VmessProxy::new(
        "v".to_string(),
        "srv.example".to_string(),
        10086,
        vec![0u8; 16],
        alter_id,
        Some("ws".to_string()),
        None,
        None,
    )
}

#[test]
fn aead_frame_shape_with_fixed_inputs() {
    // uuid all zero, host "h", port 1, timestamp 0, padding/key/iv zero.
    let uuid = [0u8; 16];
    let padding = [0u8; 16];
    let key = [0u8; 16];
    let iv = [0u8; 12];
    let frame = aead_frame(&uuid, b"h", 1, 0, &padding, &key, &iv);

    // auth_id = SHA256(16 zero bytes || be32(0))[0..16].
    assert_eq!(&frame[0..16], &SHA256_OF_20_ZEROS[0..16]);
    // key and iv follow verbatim.
    assert_eq!(&frame[16..32], &key[..]);
    assert_eq!(&frame[32..44], &iv[..]);

    // body = 01 01 00 03 len host port 10 padding, 25 bytes for a one-byte
    // host; the length field says body + 16.
    let mut body = vec![0x01, 0x01, 0x00, 0x03, 0x01, b'h', 0x00, 0x01, 0x10];
    body.extend_from_slice(&padding);
    assert_eq!(body.len(), 25);
    assert_eq!(&frame[44..46], &[0x00, 41]);
    assert_eq!(frame.len(), 46 + 41);
    assert_eq!(frame.len(), 86 + 1);

    // The ciphertext is the AES-128-GCM sealing of the body.
    let cipher = aes_gcm::Aes128Gcm::new_from_slice(&key).unwrap();
    let nonce = aes_gcm::Nonce::from_slice(&iv);
    let expected_ct = cipher.encrypt(nonce, body.as_slice()).unwrap();
    assert_eq!(expected_ct.len(), body.len() + 16);
    assert_eq!(&frame[46..], &expected_ct[..]);
}

#[test]
fn aead_frame_length_counts_header_and_tag() {
    let uuid = [7u8; 16];
    let padding = [1u8; 16];
    let key = [2u8; 16];
    let iv = [3u8; 12];
    let host = b"example.com";
    let frame = aead_frame(&uuid, host, 443, 123456, &padding, &key, &iv);
    // 16 auth id + 16 key + 12 iv + 2 length + (body + 16 tag).
    let body_len = 24 + host.len();
    assert_eq!(frame.len(), 16 + 16 + 12 + 2 + body_len + 16);
    let len_field = ((frame[44] as usize) << 8) | frame[45] as usize;
    assert_eq!(len_field, body_len + 16);
}

#[test]
fn legacy_id_is_md5_of_uuid_and_minutes() {
    let uuid = [0u8; 16];
    let id = legacy_id(&uuid, 0);
    assert_eq!(id, MD5_OF_24_ZEROS.to_vec());
}

#[test]
fn legacy_frame_layout_is_exact() {
    let id = [0xaau8; 16];
    let padding = [0xbbu8; 16];
    let frame = legacy_frame(&id, b"hi", 0x1f90, &padding);
    let mut expected: Vec<u8> = Vec::new();
    expected.extend_from_slice(&id);
    expected.extend_from_slice(&[0x01, 0x01, 0x00, 0x00, 0x10]);
    expected.extend_from_slice(&padding);
    expected.extend_from_slice(&[0x03, 0x02]);
    expected.extend_from_slice(b"hi");
    expected.extend_from_slice(&[0x1f, 0x90, 0x00, 0x01]);
    assert_eq!(frame, expected);
}

#[test]
fn build_aead_request_has_the_advertised_length() {
    let v = zero_vmess(0);
    let frame = v.build_aead_request(b"example.co", 443).unwrap();
    assert_eq!(frame.len(), 86 + 10);
    // The auth id depends on the current time, never on the padding; the
    // frame header still begins with 16 digest bytes followed by key and iv.
    assert_eq!(frame.len() - 46 - 16, 24 + 10);
}

#[test]
fn build_requests_reject_overlong_hosts() {
    let v = zero_vmess(0);
    let long = vec![b'a'; 256];
    assert!(v.build_aead_request(&long, 1).is_err());
    assert!(v.build_legacy_request(&long, 1).is_err());
    assert!(v.build_legacy_request(&long[..255], 1).is_ok());
}

#[test]
fn build_legacy_request_frames_the_destination() {
    let v = zero_vmess(1);
    let host = b"example.co";
    let frame = v.build_legacy_request(host, 443).unwrap();
    // id(16) + 5 fixed + padding(16) + 2 + host + port(2) + 2 trailing.
    assert_eq!(frame.len(), 16 + 5 + 16 + 2 + host.len() + 2 + 2);
    assert_eq!(frame[16..21], [0x01, 0x01, 0x00, 0x00, 0x10]);
    assert_eq!(frame[37], 0x03);
    assert_eq!(frame[38] as usize, host.len());
    assert_eq!(&frame[39..49], &host[..]);
    assert_eq!(&frame[49..51], &[0x01, 0xbb]);
    assert_eq!(&frame[51..53], &[0x00, 0x01]);
}

#[test]
fn ws_transport_flag_follows_the_network_field() {
    assert!(zero_vmess(0).uses_ws_transport());
    let other = VmessProxy::new(
        "v".to_string(),
        "srv".to_string(),
        80,
        vec![0u8; 16],
        0,
        Some("tcp".to_string()),
        None,
        None,
    );
    assert!(!other.uses_ws_transport());
    let none = VmessProxy::new(
        "v".to_string(),
        "srv".to_string(),
        80,
        vec![0u8; 16],
        0,
        None,
        None,
        None,
    );
    assert!(!none.uses_ws_transport());
}

#[test]
fn ws_url_uses_host_override_port_and_path() {
    let v = VmessProxy::new(
        "v".to_string(),
        "srv.example".to_string(),
        8080,
        vec![0u8; 16],
        0,
        Some("ws".to_string()),
        Some("/path".to_string()),
        Some(vec![("Host".to_string(), "cdn.example".to_string())]),
    );
    assert_eq!(v.ws_host.as_deref(), Some("cdn.example"));
    assert_eq!(v.ws_url_bytes(), b"ws://cdn.example:8080/path".to_vec());

    let plain = zero_vmess(0);
    assert_eq!(plain.ws_url_bytes(), b"ws://srv.example:10086/".to_vec());
}
