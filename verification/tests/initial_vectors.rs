use s2n_quic_core::crypto::initial::{
    EXAMPLE_CLIENT_INITIAL_HEADER, EXAMPLE_CLIENT_INITIAL_PAYLOAD,
    EXAMPLE_CLIENT_INITIAL_PROTECTED_PACKET, EXAMPLE_SERVER_INITIAL_HEADER,
    EXAMPLE_SERVER_INITIAL_PAYLOAD, EXAMPLE_SERVER_INITIAL_PROTECTED_PACKET,
};
use s2n_quic_crypto::cipher_suite::{CipherSuite, HashAlgorithm};
use s2n_quic_crypto::error::Error;
use s2n_quic_crypto::header::{apply_header_protection, remove_header_protection};
use s2n_quic_crypto::initial::InitialKey;
use s2n_quic_crypto::key::{AeadKey, HeaderProtectionKey};
use s2n_quic_crypto::label::{encode_label, Label};
use s2n_quic_crypto::level::{Endpoint, Level, Version};
use s2n_quic_crypto::pair::{HeaderKey, PacketKey};
use s2n_quic_crypto::primitive::{expand, extract_and_expand};
use s2n_quic_crypto::secret::{
    derive_header_key, derive_initial_secrets, derive_level_secrets, derive_packet_key,
    TrafficSecret,
};

fn hex(text: &str) -> Vec<u8> {
    let digits: Vec<u8> = text
        .bytes()
        .filter(|b| !b.is_ascii_whitespace())
        .map(|b| (b as char).to_digit(16).unwrap() as u8)
        .collect();
    digits.chunks(2).map(|pair| pair[0] * 16 + pair[1]).collect()
}

const CONNECTION_ID: &str = "8394c8f03e515708";
const INITIAL_SALT: &str = "38762cf7f55934b34d179ae6a4c80cadccbb7f0a";
const CLIENT_INITIAL_SECRET: &str =
    "c00cf151ca5be075ed0ebfb5c80323c42d6b7db67881289af4008f1f6c357aea";
const SERVER_INITIAL_SECRET: &str =
    "3c199828fd139efd216c155ad844cc81fb82fa8d7446fa7d78be803acdda951b";
const INITIAL_SECRET: &str = "7db5df06e7a69e432496adedb00851923595221596ae2ae9fb8115c1e9ed0a44";

#[test]
fn labels_encode_as_published() {
    assert_eq!(
        encode_label(&Label::ClientInitial.text_bytes(), 32),
        hex("00200f746c73313320636c69656e7420696e00")
    );
    assert_eq!(
        encode_label(&Label::ServerInitial.text_bytes(), 32),
        hex("00200f746c7331332073657276657220696e00")
    );
    assert_eq!(
        encode_label(&Label::Key.text_bytes(), 16),
        hex("00100e746c7331332071756963206b657900")
    );
    assert_eq!(
        encode_label(&Label::Iv.text_bytes(), 12),
        hex("000c0d746c733133207175696320697600")
    );
    assert_eq!(
        encode_label(&Label::HeaderProtection.text_bytes(), 16),
        hex("00100d746c733133207175696320687000")
    );
    assert_eq!(
        encode_label(&Label::KeyUpdate.text_bytes(), 48),
        hex("00300d746c7331332071756963206b7500")
    );
}

#[test]
fn label_length_is_written_in_two_bytes() {
    let info = encode_label(b"x", 0x1234);
    assert_eq!(info, hex("1234 07 746c73313320 78 00"));
}

#[test]
fn version_one_salt_is_the_published_constant() {
    assert_eq!(Version::V1.initial_salt_bytes(), hex(INITIAL_SALT));
    assert_eq!(
        Version::V1.initial_salt_bytes(),
        s2n_quic_core::crypto::initial::INITIAL_SALT.to_vec()
    );
}

#[test]
fn initial_secrets_match_published_vectors() {
    let client = extract_and_expand(
        HashAlgorithm::Sha256,
        &hex(INITIAL_SALT),
        &hex(CONNECTION_ID),
        &encode_label(&Label::ClientInitial.text_bytes(), 32),
        32,
    );
    assert_eq!(client, Ok(hex(CLIENT_INITIAL_SECRET)));
    let server = extract_and_expand(
        HashAlgorithm::Sha256,
        &hex(INITIAL_SALT),
        &hex(CONNECTION_ID),
        &encode_label(&Label::ServerInitial.text_bytes(), 32),
        32,
    );
    assert_eq!(server, Ok(hex(SERVER_INITIAL_SECRET)));
}

#[test]
fn expanding_the_extracted_key_agrees_with_extract_and_expand() {
    let info = encode_label(&Label::ClientInitial.text_bytes(), 32);
    let direct = expand(HashAlgorithm::Sha256, &hex(INITIAL_SECRET), &info, 32);
    assert_eq!(direct, Ok(hex(CLIENT_INITIAL_SECRET)));
}

#[test]
fn client_initial_key_iv_and_hp_match_published_vectors() {
    let secret = hex(CLIENT_INITIAL_SECRET);
    let key = expand(
        HashAlgorithm::Sha256,
        &secret,
        &encode_label(&Label::Key.text_bytes(), 16),
        16,
    );
    assert_eq!(key, Ok(hex("1f369613dd76d5467730efcbe3b1a22d")));
    let iv = expand(
        HashAlgorithm::Sha256,
        &secret,
        &encode_label(&Label::Iv.text_bytes(), 12),
        12,
    );
    assert_eq!(iv, Ok(hex("fa044b2f42a3fd3b46fb255c")));
    let hp = expand(
        HashAlgorithm::Sha256,
        &secret,
        &encode_label(&Label::HeaderProtection.text_bytes(), 16),
        16,
    );
    assert_eq!(hp, Ok(hex("9f50449e04a0e810283a1e9933adedd2")));
}

#[test]
fn server_initial_key_iv_and_hp_match_published_vectors() {
    let secret = hex(SERVER_INITIAL_SECRET);
    let key = expand(
        HashAlgorithm::Sha256,
        &secret,
        &encode_label(&Label::Key.text_bytes(), 16),
        16,
    );
    assert_eq!(key, Ok(hex("cf3a5331653c364c88f0f379b6067e37")));
    let iv = expand(
        HashAlgorithm::Sha256,
        &secret,
        &encode_label(&Label::Iv.text_bytes(), 12),
        12,
    );
    assert_eq!(iv, Ok(hex("0ac1493ca1905853b0bba03e")));
    let hp = expand(
        HashAlgorithm::Sha256,
        &secret,
        &encode_label(&Label::HeaderProtection.text_bytes(), 16),
        16,
    );
    assert_eq!(hp, Ok(hex("c206b8d9b9f0f37644430b490eeaa314")));
}

fn padded_client_payload() -> Vec<u8> {
    let mut payload = EXAMPLE_CLIENT_INITIAL_PAYLOAD.to_vec();
    payload.resize(1162, 0);
    payload
}

#[test]
fn derived_client_key_seals_like_the_published_key() {
    // The key and IV derived from the connection ID protect a packet exactly
    // as the published key and IV do.
    let secrets = derive_initial_secrets(&hex(CONNECTION_ID), Version::V1).ok().unwrap();
    let derived = derive_packet_key(secrets.secret_of(Endpoint::Client)).ok().unwrap();
    let published = AeadKey::new(
        CipherSuite::Aes128GcmSha256,
        hex("1f369613dd76d5467730efcbe3b1a22d"),
        hex("fa044b2f42a3fd3b46fb255c"),
    )
    .ok()
    .unwrap();
    let payload = padded_client_payload();
    let a = derived.seal(2, &EXAMPLE_CLIENT_INITIAL_HEADER, &payload).ok().unwrap();
    let b = published.seal(2, &EXAMPLE_CLIENT_INITIAL_HEADER, &payload).ok().unwrap();
    assert_eq!(a, b);
    assert_eq!(&a[..], &EXAMPLE_CLIENT_INITIAL_PROTECTED_PACKET[22..]);
}

#[test]
fn derived_client_header_key_masks_like_the_published_key() {
    let secrets = derive_initial_secrets(&hex(CONNECTION_ID), Version::V1).ok().unwrap();
    let derived = derive_header_key(secrets.secret_of(Endpoint::Client)).ok().unwrap();
    let published = HeaderProtectionKey::new(
        CipherSuite::Aes128GcmSha256,
        hex("9f50449e04a0e810283a1e9933adedd2"),
    )
    .ok()
    .unwrap();
    let sample = hex("d1b1c98dd7689fb8ec11d242b123dc9b");
    assert_eq!(derived.compute_header_protection_mask(&sample), Ok([0x43, 0x7b, 0x9a, 0xec, 0x36]));
    assert_eq!(
        published.compute_header_protection_mask(&sample),
        Ok([0x43, 0x7b, 0x9a, 0xec, 0x36])
    );
}

#[test]
fn client_initial_packet_is_protected_as_published() {
    let (key, header_key) = InitialKey::new_client(&hex(CONNECTION_ID), Version::V1).ok().unwrap();
    let payload = padded_client_payload();
    let protected = key.seal(2, &EXAMPLE_CLIENT_INITIAL_HEADER, &payload).ok().unwrap();
    assert_eq!(protected.len(), 1162 + 16);
    assert_eq!(&protected[..], &EXAMPLE_CLIENT_INITIAL_PROTECTED_PACKET[22..]);

    // The packet number has four bytes, so the sample starts with the
    // protected payload.
    let sample = &protected[..16];
    assert_eq!(sample, &hex("d1b1c98dd7689fb8ec11d242b123dc9b")[..]);
    let mask = header_key.compute_sealing_mask(sample).ok().unwrap();
    assert_eq!(mask, [0x43, 0x7b, 0x9a, 0xec, 0x36]);
    let header = apply_header_protection(&mask, &EXAMPLE_CLIENT_INITIAL_HEADER).unwrap();
    assert_eq!(header, hex("c000000001088394c8f03e5157080000449e7b9aec34"));
    assert_eq!(&header[..], &EXAMPLE_CLIENT_INITIAL_PROTECTED_PACKET[..22]);
}

#[test]
fn server_opens_the_published_client_initial_packet() {
    let (key, header_key) = InitialKey::new_server(&hex(CONNECTION_ID), Version::V1).ok().unwrap();
    let packet = EXAMPLE_CLIENT_INITIAL_PROTECTED_PACKET;
    let pn_offset = 18;
    let sample = &packet[pn_offset + 4..pn_offset + 4 + 16];
    let mask = header_key.compute_header_protection_mask(sample).ok().unwrap();
    let header = remove_header_protection(&mask, &packet, pn_offset).ok().unwrap();
    assert_eq!(header, EXAMPLE_CLIENT_INITIAL_HEADER.to_vec());
    let (payload, packet_number) = key.open(2, &header, &packet[header.len()..]).ok().unwrap();
    assert_eq!(packet_number, 2);
    assert_eq!(payload, padded_client_payload());
}

#[test]
fn server_initial_packet_is_protected_as_published() {
    let (key, header_key) = InitialKey::new_server(&hex(CONNECTION_ID), Version::V1).ok().unwrap();
    let protected = key
        .seal(1, &EXAMPLE_SERVER_INITIAL_HEADER, &EXAMPLE_SERVER_INITIAL_PAYLOAD)
        .ok()
        .unwrap();
    assert_eq!(&protected[..], &EXAMPLE_SERVER_INITIAL_PROTECTED_PACKET[20..]);

    // The packet number has two bytes, so the sample starts two bytes into
    // the protected payload.
    let sample = &protected[2..18];
    assert_eq!(sample, &hex("2cd0991cd25b0aac406a5816b6394100")[..]);
    let mask = header_key.compute_sealing_mask(sample).ok().unwrap();
    assert_eq!(mask, [0x2e, 0xc0, 0xd8, 0x35, 0x6a]);
    let header = apply_header_protection(&mask, &EXAMPLE_SERVER_INITIAL_HEADER).unwrap();
    assert_eq!(header, hex("cf000000010008f067a5502a4262b5004075c0d9"));
}

#[test]
fn client_opens_the_published_server_initial_packet() {
    let (key, header_key) = InitialKey::new_client(&hex(CONNECTION_ID), Version::V1).ok().unwrap();
    let packet = EXAMPLE_SERVER_INITIAL_PROTECTED_PACKET;
    let pn_offset = 18;
    let sample = &packet[pn_offset + 4..pn_offset + 4 + 16];
    let mask = header_key.compute_header_protection_mask(sample).ok().unwrap();
    let header = remove_header_protection(&mask, &packet, pn_offset).ok().unwrap();
    assert_eq!(header, EXAMPLE_SERVER_INITIAL_HEADER.to_vec());
    let (payload, packet_number) = key.open(1, &header, &packet[header.len()..]).ok().unwrap();
    assert_eq!(packet_number, 1);
    assert_eq!(payload, EXAMPLE_SERVER_INITIAL_PAYLOAD.to_vec());
}

#[test]
fn initial_derivation_is_deterministic() {
    let cid = hex(CONNECTION_ID);
    let (first, _) = InitialKey::new_client(&cid, Version::V1).ok().unwrap();
    let (second, _) = InitialKey::new_client(&cid, Version::V1).ok().unwrap();
    let a = first.seal(7, b"header", b"payload").ok().unwrap();
    let b = second.seal(7, b"header", b"payload").ok().unwrap();
    assert_eq!(a, b);
}

#[test]
fn another_connection_id_gives_other_initial_keys() {
    let (first, _) = InitialKey::new_client(&hex(CONNECTION_ID), Version::V1).ok().unwrap();
    let (second, _) = InitialKey::new_client(&hex("8394c8f03e515709"), Version::V1).ok().unwrap();
    let a = first.seal(7, b"header", b"payload").ok().unwrap();
    let b = second.seal(7, b"header", b"payload").ok().unwrap();
    assert_ne!(a, b);
}

#[test]
fn initial_level_admits_only_aes_128_gcm() {
    let secret = TrafficSecret::new(CipherSuite::Aes256GcmSha384, vec![7; 48]);
    assert!(matches!(
        derive_level_secrets(&secret, Level::Initial),
        Err(Error::UnsupportedCipherSuite)
    ));
    let secret = TrafficSecret::new(CipherSuite::Chacha20Poly1305Sha256, vec![7; 32]);
    assert!(matches!(
        derive_level_secrets(&secret, Level::Initial),
        Err(Error::UnsupportedCipherSuite)
    ));
    let secret = TrafficSecret::new(CipherSuite::Aes128GcmSha256, vec![7; 32]);
    assert!(derive_level_secrets(&secret, Level::Initial).is_ok());
}

#[test]
fn retry_level_has_no_derived_keys() {
    let secret = TrafficSecret::new(CipherSuite::Aes128GcmSha256, vec![7; 32]);
    assert!(matches!(
        derive_level_secrets(&secret, Level::Retry),
        Err(Error::UnsupportedCipherSuite)
    ));
}

#[test]
fn a_secret_of_the_wrong_size_is_invalid_key_material() {
    let short = TrafficSecret::new(CipherSuite::Aes128GcmSha256, vec![7; 31]);
    assert!(matches!(
        derive_level_secrets(&short, Level::Handshake),
        Err(Error::InvalidKeyMaterial)
    ));
    let sha256_sized = TrafficSecret::new(CipherSuite::Aes256GcmSha384, vec![7; 32]);
    assert!(matches!(
        derive_level_secrets(&sha256_sized, Level::Handshake),
        Err(Error::InvalidKeyMaterial)
    ));
    let empty = TrafficSecret::new(CipherSuite::Chacha20Poly1305Sha256, Vec::new());
    assert!(matches!(derive_packet_key(&empty), Err(Error::InvalidKeyMaterial)));
}

#[test]
fn initial_keys_are_derived_for_every_connection_id() {
    for len in [0usize, 1, 8, 20, 255, 4096] {
        let cid = vec![0x42u8; len];
        assert!(derive_initial_secrets(&cid, Version::V1).is_ok());
        let (client, client_header) = InitialKey::new_client(&cid, Version::V1).ok().unwrap();
        let (server, server_header) =
            InitialKey::new(Endpoint::Server, &cid, Version::V1).ok().unwrap();
        let sent = client.seal(0, b"header", b"payload").ok().unwrap();
        assert_eq!(server.open(0, b"header", &sent), Ok((b"payload".to_vec(), 0)));
        assert_eq!(
            client_header.compute_sealing_mask(&[9; 16]),
            server_header.compute_header_protection_mask(&[9; 16])
        );
        assert!(client_header.compute_sealing_mask(&[9; 16]).is_ok());
    }
}
