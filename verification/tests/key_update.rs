use s2n_quic_crypto::cipher_suite::{CipherSuite, HashAlgorithm};
use s2n_quic_crypto::error::Error;
use s2n_quic_crypto::handshake::HandshakeKey;
use s2n_quic_crypto::header::apply_header_protection;
use s2n_quic_crypto::key::AeadKey;
use s2n_quic_crypto::label::{encode_label, Label};
use s2n_quic_crypto::level::Endpoint;
use s2n_quic_crypto::one_rtt::{KeyPhase, OneRttKey};
use s2n_quic_crypto::pair::{HeaderKey, KeyPair, PacketKey};
use s2n_quic_crypto::primitive::expand;
use s2n_quic_crypto::secret::{derive_next_secret, derive_packet_key, TrafficSecret};
use s2n_quic_crypto::zero_rtt::ZeroRttKey;
use s2n_quic_crypto::GoodSecretPair;

fn hex(text: &str) -> Vec<u8> {
    let digits: Vec<u8> = text
        .bytes()
        .filter(|b| !b.is_ascii_whitespace())
        .map(|b| (b as char).to_digit(16).unwrap() as u8)
        .collect();
    digits.chunks(2).map(|pair| pair[0] * 16 + pair[1]).collect()
}

const ALL: [CipherSuite; 3] = [
    CipherSuite::Aes128GcmSha256,
    CipherSuite::Aes256GcmSha384,
    CipherSuite::Chacha20Poly1305Sha256,
];

const CHACHA_SECRET: &str = "9ac312a7f877468ebe69422748ad00a15443f18203a07d6060f688f30f21632b";

fn secrets(suite: CipherSuite) -> GoodSecretPair {
    let n = suite.secret_len();
    let server: Vec<u8> = (0..n as u8).map(|i| i ^ 0x5a).collect();
    let client: Vec<u8> = (0..n as u8).map(|i| i.wrapping_mul(3) ^ 0xa5).collect();
    GoodSecretPair::new(TrafficSecret::new(suite, server), TrafficSecret::new(suite, client))
}

#[test]
fn chacha20_keys_match_published_vectors() {
    let secret = hex(CHACHA_SECRET);
    let key = expand(
        HashAlgorithm::Sha256,
        &secret,
        &encode_label(&Label::Key.text_bytes(), 32),
        32,
    );
    assert_eq!(
        key,
        Ok(hex("c6d98ff3441c3fe1b2182094f69caa2ed4b716b65488960a7a984979fb23e1c8"))
    );
    let iv = expand(
        HashAlgorithm::Sha256,
        &secret,
        &encode_label(&Label::Iv.text_bytes(), 12),
        12,
    );
    assert_eq!(iv, Ok(hex("e0459b3474bdd0e44a41c144")));
    let hp = expand(
        HashAlgorithm::Sha256,
        &secret,
        &encode_label(&Label::HeaderProtection.text_bytes(), 32),
        32,
    );
    assert_eq!(
        hp,
        Ok(hex("25a282b9e82f06f21f488917a4fc8f1b73573685608597d0efcb076b0ab7a7a4"))
    );
    let ku = expand(
        HashAlgorithm::Sha256,
        &secret,
        &encode_label(&Label::KeyUpdate.text_bytes(), 32),
        32,
    );
    assert_eq!(
        ku,
        Ok(hex("1223504755036d556342ee9361d253421a826c9ecdf3c7148684b36b714881f9"))
    );
}

#[test]
fn chacha20_short_header_packet_is_protected_as_published() {
    let secret = TrafficSecret::new(CipherSuite::Chacha20Poly1305Sha256, hex(CHACHA_SECRET));
    // The client of this connection sends under the published secret.
    let pair = GoodSecretPair::new(secret.duplicate(), secret);
    let (key, header_key) = OneRttKey::new_client(&pair).ok().unwrap();
    let header = hex("4200bff4");
    let protected = key.seal(654360564, &header, &hex("01")).ok().unwrap();
    assert_eq!(protected, hex("655e5cd55c41f69080575d7999c25a5bfb"));
    // Three bytes of packet number: the sample starts one byte in.
    let sample = &protected[1..17];
    assert_eq!(sample, &hex("5e5cd55c41f69080575d7999c25a5bfb")[..]);
    let mask = header_key.compute_sealing_mask(sample).ok().unwrap();
    assert_eq!(mask, [0xae, 0xfe, 0xfe, 0x7d, 0x03]);
    assert_eq!(apply_header_protection(&mask, &header).unwrap(), hex("4cfe4189"));
    assert_eq!(header_key.compute_header_protection_mask(sample), Ok(mask));
    assert_eq!(key.open(654360564, &header, &protected), Ok((hex("01"), 654360564)));
}

#[test]
fn next_secret_matches_the_published_key_update() {
    let secret = TrafficSecret::new(CipherSuite::Chacha20Poly1305Sha256, hex(CHACHA_SECRET));
    let next = derive_next_secret(&secret).ok().unwrap();
    let published = TrafficSecret::new(
        CipherSuite::Chacha20Poly1305Sha256,
        hex("1223504755036d556342ee9361d253421a826c9ecdf3c7148684b36b714881f9"),
    );
    let a = derive_packet_key(&next).ok().unwrap();
    let b = derive_packet_key(&published).ok().unwrap();
    assert_eq!(a.seal(1, b"h", b"p"), b.seal(1, b"h", b"p"));
    assert_eq!(next.suite(), CipherSuite::Chacha20Poly1305Sha256);
}

#[test]
fn next_secret_wants_a_secret_of_the_right_size() {
    let secret = TrafficSecret::new(CipherSuite::Aes256GcmSha384, vec![1; 32]);
    assert!(matches!(derive_next_secret(&secret), Err(Error::InvalidKeyMaterial)));
    let secret = TrafficSecret::new(CipherSuite::Aes256GcmSha384, vec![1; 48]);
    assert!(derive_next_secret(&secret).is_ok());
}

#[test]
fn what_one_endpoint_seals_the_other_opens() {
    for suite in ALL {
        let pair = secrets(suite);
        let (client, client_header) = HandshakeKey::new_client(&pair).ok().unwrap();
        let (server, server_header) = HandshakeKey::new_server(&pair).ok().unwrap();
        let sent = client.seal(5, b"header", b"from the client").ok().unwrap();
        assert_eq!(server.open(5, b"header", &sent), Ok((b"from the client".to_vec(), 5)));
        // The client's own opening key is the server's sealing key.
        assert_eq!(client.open(5, b"header", &sent), Err(Error::AuthenticationFailure));
        let back = server.seal(9, b"header", b"from the server").ok().unwrap();
        assert_eq!(client.open(9, b"header", &back), Ok((b"from the server".to_vec(), 9)));
        let sample = [7u8; 16];
        assert_eq!(
            client_header.compute_sealing_mask(&sample),
            server_header.compute_header_protection_mask(&sample)
        );
        assert_eq!(
            server_header.compute_sealing_mask(&sample),
            client_header.compute_header_protection_mask(&sample)
        );
        assert_ne!(
            client_header.compute_sealing_mask(&sample),
            server_header.compute_sealing_mask(&sample)
        );
    }
}

#[test]
fn secrets_for_two_suites_do_not_make_one_level() {
    let pair = GoodSecretPair::new(
        TrafficSecret::new(CipherSuite::Aes128GcmSha256, vec![1; 32]),
        TrafficSecret::new(CipherSuite::Chacha20Poly1305Sha256, vec![2; 32]),
    );
    assert!(matches!(HandshakeKey::new_server(&pair), Err(Error::UnsupportedCipherSuite)));
    assert!(matches!(HandshakeKey::new_client(&pair), Err(Error::UnsupportedCipherSuite)));
    assert!(matches!(OneRttKey::new_server(&pair), Err(Error::UnsupportedCipherSuite)));
    assert!(matches!(OneRttKey::new_client(&pair), Err(Error::UnsupportedCipherSuite)));
}

#[test]
fn a_level_wants_both_secrets_of_the_right_size() {
    let pair = GoodSecretPair::new(
        TrafficSecret::new(CipherSuite::Aes256GcmSha384, vec![1; 48]),
        TrafficSecret::new(CipherSuite::Aes256GcmSha384, vec![2; 47]),
    );
    assert!(matches!(HandshakeKey::new_server(&pair), Err(Error::InvalidKeyMaterial)));
    assert!(matches!(HandshakeKey::new_client(&pair), Err(Error::InvalidKeyMaterial)));
    assert!(matches!(OneRttKey::new(Endpoint::Client, &pair), Err(Error::InvalidKeyMaterial)));
}

#[test]
fn zero_rtt_has_one_key_for_both_ends() {
    for suite in ALL {
        let secret = TrafficSecret::new(suite, vec![0x33; suite.secret_len()]);
        let (client, client_header) = ZeroRttKey::new(&secret).ok().unwrap();
        let (server, server_header) = ZeroRttKey::new(&secret).ok().unwrap();
        let sent = client.seal(0, b"h", b"early data").ok().unwrap();
        assert_eq!(server.open(0, b"h", &sent), Ok((b"early data".to_vec(), 0)));
        assert_eq!(client.open(0, b"h", &sent), Ok((b"early data".to_vec(), 0)));
        assert_eq!(
            client_header.compute_sealing_mask(&[1; 16]),
            server_header.compute_header_protection_mask(&[1; 16])
        );
        let direct = derive_packet_key(&secret).ok().unwrap();
        assert_eq!(direct.seal(0, b"h", b"early data"), Ok(sent));
    }
    let short = TrafficSecret::new(CipherSuite::Aes128GcmSha256, vec![0x33; 16]);
    assert!(matches!(ZeroRttKey::new(&short), Err(Error::InvalidKeyMaterial)));
}

#[test]
fn first_generation_is_in_phase_zero_and_holds_nothing_older() {
    for suite in ALL {
        let (key, _) = OneRttKey::new_client(&secrets(suite)).ok().unwrap();
        assert_eq!(key.phase(), KeyPhase::Zero);
        assert!(!key.holds_previous());
        let packet = key.seal(1, b"h", b"p").ok().unwrap();
        assert_eq!(
            key.open_in_phase(KeyPhase::One, 0, 1, b"h", &packet),
            Err(Error::AuthenticationFailure)
        );
    }
}

#[test]
fn update_flips_the_phase_every_time() {
    let (key, _) = OneRttKey::new_server(&secrets(CipherSuite::Aes128GcmSha256)).ok().unwrap();
    let second = key.update(100).ok().unwrap();
    assert_eq!(second.phase(), KeyPhase::One);
    assert!(second.holds_previous());
    let third = second.update(200).ok().unwrap();
    assert_eq!(third.phase(), KeyPhase::Zero);
    assert_eq!(key.phase(), KeyPhase::Zero);
}

#[test]
fn new_generation_opens_what_new_generation_seals() {
    for suite in ALL {
        let pair = secrets(suite);
        let (client, _) = OneRttKey::new_client(&pair).ok().unwrap();
        let (server, _) = OneRttKey::new_server(&pair).ok().unwrap();
        let client = client.update(1000).ok().unwrap();
        let server = server.update(2000).ok().unwrap();
        let sent = client.seal(70, b"h", b"after the update").ok().unwrap();
        assert_eq!(server.open(70, b"h", &sent), Ok((b"after the update".to_vec(), 70)));
        assert_eq!(
            server.open_in_phase(client.phase(), 5000, 70, b"h", &sent),
            Ok((b"after the update".to_vec(), 70))
        );
        let back = server.seal(71, b"h", b"and back").ok().unwrap();
        assert_eq!(client.open(71, b"h", &back), Ok((b"and back".to_vec(), 71)));
    }
}

#[test]
fn old_generation_does_not_open_what_new_generation_seals() {
    for suite in ALL {
        let pair = secrets(suite);
        let (client, _) = OneRttKey::new_client(&pair).ok().unwrap();
        let (server, _) = OneRttKey::new_server(&pair).ok().unwrap();
        let updated = client.update(1000).ok().unwrap();
        let sent = updated.seal(70, b"h", b"after the update").ok().unwrap();
        assert_eq!(server.open(70, b"h", &sent), Err(Error::AuthenticationFailure));
        let old = client.seal(70, b"h", b"after the update").ok().unwrap();
        assert_ne!(old, sent);
    }
}

#[test]
fn packets_sealed_before_the_update_open_until_the_deadline() {
    for suite in ALL {
        let pair = secrets(suite);
        let (client, _) = OneRttKey::new_client(&pair).ok().unwrap();
        let (server, _) = OneRttKey::new_server(&pair).ok().unwrap();
        let late = client.seal(12, b"h", b"sent before").ok().unwrap();
        let server = server.update(1000).ok().unwrap();
        // The packet carries the phase it was sealed in.
        assert_eq!(
            server.open_in_phase(KeyPhase::Zero, 999, 12, b"h", &late),
            Ok((b"sent before".to_vec(), 12))
        );
        assert_eq!(
            server.open_in_phase(KeyPhase::Zero, 1000, 12, b"h", &late),
            Ok((b"sent before".to_vec(), 12))
        );
        assert_eq!(
            server.open_in_phase(KeyPhase::Zero, 1001, 12, b"h", &late),
            Err(Error::AuthenticationFailure)
        );
        // Under the new phase it is opened with the new key, which fails.
        assert_eq!(
            server.open_in_phase(KeyPhase::One, 0, 12, b"h", &late),
            Err(Error::AuthenticationFailure)
        );
    }
}

#[test]
fn the_previous_generation_is_discarded_after_its_deadline() {
    let pair = secrets(CipherSuite::Aes256GcmSha384);
    let (client, _) = OneRttKey::new_client(&pair).ok().unwrap();
    let (server, _) = OneRttKey::new_server(&pair).ok().unwrap();
    let late = client.seal(12, b"h", b"sent before").ok().unwrap();
    let mut server = server.update(1000).ok().unwrap();
    assert!(!server.discard_previous(999));
    assert!(!server.discard_previous(1000));
    assert!(server.holds_previous());
    assert!(server.discard_previous(1001));
    assert!(!server.holds_previous());
    assert!(!server.discard_previous(5000));
    assert_eq!(
        server.open_in_phase(KeyPhase::Zero, 0, 12, b"h", &late),
        Err(Error::AuthenticationFailure)
    );
    assert_eq!(server.phase(), KeyPhase::One);
    // The current generation is untouched.
    let updated_client = client.update(0).ok().unwrap();
    let sent = updated_client.seal(13, b"h", b"p").ok().unwrap();
    assert_eq!(server.open(13, b"h", &sent), Ok((b"p".to_vec(), 13)));
}

#[test]
fn only_two_generations_are_held() {
    let pair = secrets(CipherSuite::Aes128GcmSha256);
    let (client, _) = OneRttKey::new_client(&pair).ok().unwrap();
    let (server, _) = OneRttKey::new_server(&pair).ok().unwrap();
    let first = client.seal(1, b"h", b"first").ok().unwrap();
    let client = client.update(u64::MAX).ok().unwrap();
    let second = client.seal(2, b"h", b"second").ok().unwrap();
    let server = server.update(u64::MAX).ok().unwrap().update(u64::MAX).ok().unwrap();
    // The server is in phase zero again. A packet of phase one is of the
    // generation before; a packet of the first generation is gone.
    assert_eq!(server.phase(), KeyPhase::Zero);
    assert_eq!(
        server.open_in_phase(KeyPhase::One, 0, 2, b"h", &second),
        Ok((b"second".to_vec(), 2))
    );
    assert_eq!(
        server.open_in_phase(KeyPhase::Zero, 0, 1, b"h", &first),
        Err(Error::AuthenticationFailure)
    );
    assert_eq!(
        server.open_in_phase(KeyPhase::One, 0, 1, b"h", &first),
        Err(Error::AuthenticationFailure)
    );
}

#[test]
fn header_keys_outlive_key_updates() {
    let pair = secrets(CipherSuite::Aes128GcmSha256);
    let (key, header_key) = OneRttKey::new_client(&pair).ok().unwrap();
    let before = header_key.compute_sealing_mask(&[3; 16]);
    let _next = key.update(10).ok().unwrap();
    assert_eq!(header_key.compute_sealing_mask(&[3; 16]), before);
}

#[test]
fn zeroized_one_rtt_keys_open_nothing_they_sealed() {
    let pair = secrets(CipherSuite::Chacha20Poly1305Sha256);
    let (client, _) = OneRttKey::new_client(&pair).ok().unwrap();
    let (server, _) = OneRttKey::new_server(&pair).ok().unwrap();
    let sent = client.seal(1, b"h", b"p").ok().unwrap();
    let mut server = server.update(100).ok().unwrap();
    server.zeroize();
    assert!(!server.holds_previous());
    assert_eq!(
        server.open_in_phase(KeyPhase::Zero, 0, 1, b"h", &sent),
        Err(Error::AuthenticationFailure)
    );
    let zero = AeadKey::new(CipherSuite::Chacha20Poly1305Sha256, vec![0; 32], vec![0; 12])
        .ok()
        .unwrap();
    assert_eq!(server.seal(4, b"h", b"p"), zero.seal(4, b"h", b"p"));
}

#[test]
fn zeroized_secrets_are_all_zero() {
    let suite = CipherSuite::Aes128GcmSha256;
    let mut pair = secrets(suite);
    pair.zeroize();
    let zero = TrafficSecret::new(suite, vec![0; 32]);
    let a = derive_packet_key(pair.secret_of(Endpoint::Client)).ok().unwrap();
    let b = derive_packet_key(pair.secret_of(Endpoint::Server)).ok().unwrap();
    let z = derive_packet_key(&zero).ok().unwrap();
    assert_eq!(a.seal(0, b"", b""), z.seal(0, b"", b""));
    assert_eq!(b.seal(0, b"", b""), z.seal(0, b"", b""));
    assert_eq!(pair.secret_of(Endpoint::Client).suite(), suite);
}

#[test]
fn a_key_pair_seals_with_one_key_and_opens_with_the_other() {
    let suite = CipherSuite::Aes128GcmSha256;
    let sealer = AeadKey::new(suite, vec![1; 16], vec![2; 12]).ok().unwrap();
    let opener = AeadKey::new(suite, vec![3; 16], vec![4; 12]).ok().unwrap();
    let pair = KeyPair::new(sealer.duplicate(), opener.duplicate());
    assert_eq!(pair.seal(8, b"h", b"p"), sealer.seal(8, b"h", b"p"));
    let incoming = opener.seal(8, b"h", b"p").ok().unwrap();
    assert_eq!(pair.open(8, b"h", &incoming), Ok((b"p".to_vec(), 8)));
    assert_eq!(pair.opener().seal(8, b"h", b"p"), Ok(incoming));
    assert_eq!(Endpoint::Client.peer(), Endpoint::Server);
    assert_eq!(Endpoint::Server.peer(), Endpoint::Client);
}

#[test]
fn a_generation_put_together_by_hand_flips_the_phase_and_keeps_the_old_opener() {
    let suite = CipherSuite::Aes128GcmSha256;
    let pair = secrets(suite);
    let (client, _) = OneRttKey::new_client(&pair).ok().unwrap();
    let (server, _) = OneRttKey::new_server(&pair).ok().unwrap();
    let late = client.seal(3, b"h", b"old").ok().unwrap();

    let sealer = AeadKey::new(suite, vec![1; 16], vec![2; 12]).ok().unwrap();
    let opener = AeadKey::new(suite, vec![3; 16], vec![4; 12]).ok().unwrap();
    let next = server.followed_by(
        TrafficSecret::new(suite, vec![5; 32]),
        TrafficSecret::new(suite, vec![6; 32]),
        KeyPair::new(sealer.duplicate(), opener.duplicate()),
        50,
    );
    assert_eq!(next.phase(), KeyPhase::One);
    assert!(next.holds_previous());
    assert_eq!(next.seal(9, b"h", b"p"), sealer.seal(9, b"h", b"p"));
    let incoming = opener.seal(9, b"h", b"p").ok().unwrap();
    assert_eq!(next.open(9, b"h", &incoming), Ok((b"p".to_vec(), 9)));
    assert_eq!(next.open_in_phase(KeyPhase::Zero, 50, 3, b"h", &late), Ok((b"old".to_vec(), 3)));
    assert_eq!(
        next.open_in_phase(KeyPhase::Zero, 51, 3, b"h", &late),
        Err(Error::AuthenticationFailure)
    );
    // The next update derives from the secrets that were handed in.
    let third = next.update(0).ok().unwrap();
    let from_secret = derive_packet_key(
        &derive_next_secret(&TrafficSecret::new(suite, vec![5; 32])).ok().unwrap(),
    )
    .ok()
    .unwrap();
    assert_eq!(third.seal(1, b"h", b"p"), from_secret.seal(1, b"h", b"p"));
    assert_eq!(third.phase(), KeyPhase::Zero);
}
