use aes_gcm_siv::aead::Aead;
use aes_gcm_siv::KeyInit;
use hypervisor::agent::types::Uuid;
use hypervisor::types::{fresh_keypair, HypervisorState, SessionKeyPairs};
use hypervisor::utils::crypto::{
    create_encrypt_key, derive_msg_nonce, pk_from_hex, pk_to_hex, CryptoError, PublicKey,
    SecretKey,
};

const G: &str = "0279BE667EF9DCBBAC55A06295CE870B07029BFCDB2DCE28D959F2815B16F81798";
const G_UNCOMPRESSED: &str = "0479BE667EF9DCBBAC55A06295CE870B07029BFCDB2DCE28D959F2815B16F81798483ADA7726A3C4655DA4FBFC0E1108A8FD17B448A68554199C47D08FFB10D4B8";

#[test]
fn public_key_hex_round_trip() {
    let pk = pk_from_hex(G).unwrap();
    assert_eq!(pk_to_hex(&pk), G);
    // lowercase digits and a prefix are accepted; the text that comes back is uppercase
    let lower = pk_from_hex(&format!("0x{}", G.to_lowercase())).unwrap();
    assert!(lower.same_as(&pk));
    assert_eq!(pk_to_hex(&lower), G);
    // an uncompressed point is the same key
    let uncompressed = pk_from_hex(G_UNCOMPRESSED).unwrap();
    assert!(uncompressed.same_as(&pk));
    assert_eq!(uncompressed.as_bytes().len(), 33);
}

#[test]
fn public_key_hex_errors() {
    assert_eq!(pk_from_hex("zz").unwrap_err(), CryptoError::InvalidHex);
    assert_eq!(pk_from_hex("abc").unwrap_err(), CryptoError::InvalidHex);
    assert_eq!(pk_from_hex(&G[..64]).unwrap_err(), CryptoError::InvalidPublicKey);
    assert_eq!(pk_from_hex("").unwrap_err(), CryptoError::InvalidPublicKey);
    assert_eq!(pk_from_hex("00").unwrap_err(), CryptoError::InvalidPublicKey);
    // a point that is not on the curve
    let off_curve = format!("02{}", "00".repeat(31) + "05");
    assert_eq!(pk_from_hex(&off_curve).unwrap_err(), CryptoError::InvalidPublicKey);
    assert_eq!(PublicKey::from_sec1_bytes(&[2u8; 5]).unwrap_err(), CryptoError::InvalidPublicKey);
    assert!(!PublicKey::parse(&[2u8; 5]).unwrap_err().is_empty());
}

#[test]
fn nonce_is_the_head_of_the_digest() {
    let id = Uuid::from_bytes([5u8; 16]);
    let nonce = derive_msg_nonce(id.as_bytes());
    assert_eq!(&nonce[..], &blake3::hash(&[5u8; 16]).as_bytes()[..12]);
    assert_eq!(&derive_msg_nonce(b"")[..], &blake3::hash(b"").as_bytes()[..12]);
    assert_ne!(derive_msg_nonce(b"a"), derive_msg_nonce(b"b"));
}

#[test]
fn both_sides_derive_the_same_key() {
    let (user_sk, user_pk) = fresh_keypair();
    let (session_sk, session_pk) = fresh_keypair();
    let id = Uuid::from_bytes([1u8; 16]);
    let server = create_encrypt_key(&session_sk, &user_pk, id).unwrap();
    let client = create_encrypt_key(&user_sk, &session_pk, id).unwrap();
    let nonce = derive_msg_nonce(id.as_bytes());
    let sealed = client.encrypt(&nonce, b"What is the price of BTC?").unwrap();
    assert_eq!(server.decrypt(&nonce, &sealed).unwrap(), b"What is the price of BTC?");
    // the session id salts the key
    let other = create_encrypt_key(&session_sk, &user_pk, Uuid::from_bytes([2u8; 16])).unwrap();
    assert_eq!(other.decrypt(&nonce, &sealed).unwrap_err(), CryptoError::Decrypt);
}

#[test]
fn key_derivation_matches_the_primitives() {
    // the user's side, made with the outside crates alone
    let user_sk = k256::ecdsa::SigningKey::random(&mut rand::rngs::OsRng);
    let user_pk =
        PublicKey::from_sec1_bytes(user_sk.verifying_key().to_encoded_point(false).as_bytes()).unwrap();
    let (session_sk, session_pk) = fresh_keypair();
    let id = Uuid::from_bytes([8u8; 16]);

    let key = create_encrypt_key(&session_sk, &user_pk, id).unwrap();
    let nonce = derive_msg_nonce(id.as_bytes());
    let sealed = key.encrypt(&nonce, b"bound to the session").unwrap();

    let peer = k256::ecdsa::VerifyingKey::from_sec1_bytes(session_pk.as_bytes()).unwrap();
    let shared = k256::ecdh::diffie_hellman(user_sk.as_nonzero_scalar(), peer.as_affine());
    let hkdf = shared.extract::<k256::sha2::Sha256>(Some(&[8u8; 16]));
    let mut okm = [0u8; 32];
    hkdf.expand(&[], &mut okm).unwrap();
    let cipher = aes_gcm_siv::Aes256GcmSiv::new_from_slice(&okm).unwrap();
    let opened = cipher.decrypt(aes_gcm_siv::Nonce::from_slice(&nonce), sealed.as_slice()).unwrap();
    assert_eq!(opened, b"bound to the session");
    // and the other way round
    let from_user = cipher.encrypt(aes_gcm_siv::Nonce::from_slice(&nonce), &b"hello"[..]).unwrap();
    assert_eq!(key.decrypt(&nonce, &from_user).unwrap(), b"hello");
    // encryption is a function of key, nonce and plaintext
    assert_eq!(key.encrypt(&nonce, b"p").unwrap(), key.encrypt(&nonce, b"p").unwrap());
    assert_eq!(key.encrypt(&nonce, b"p").unwrap().len(), 1 + 16);
}

#[test]
fn encrypt_then_decrypt_gives_the_plaintext() {
    let (sk, pk) = fresh_keypair();
    let (_, peer) = fresh_keypair();
    let _ = pk;
    let id = Uuid::from_bytes([3u8; 16]);
    let key = create_encrypt_key(&sk, &peer, id).unwrap();
    let nonce = derive_msg_nonce(id.as_bytes());
    for plaintext in [&b""[..], &b"a"[..], &[0u8; 1000][..], "caf\u{e9}".as_bytes()] {
        let sealed = key.encrypt(&nonce, plaintext).unwrap();
        assert_ne!(sealed.as_slice(), plaintext);
        assert_eq!(sealed.len(), plaintext.len() + 16);
        assert_eq!(key.decrypt(&nonce, &sealed).unwrap(), plaintext);
        // a flipped bit does not authenticate
        let mut forged = sealed.clone();
        forged[0] ^= 1;
        assert_eq!(key.decrypt(&nonce, &forged).unwrap_err(), CryptoError::Decrypt);
        // nor does another nonce
        assert_eq!(key.decrypt(&[9u8; 12], &sealed).unwrap_err(), CryptoError::Decrypt);
    }
    assert_eq!(key.decrypt(&nonce, b"short").unwrap_err(), CryptoError::Decrypt);
}

#[test]
fn fresh_keys_differ_and_belong_together() {
    let (sk1, pk1) = fresh_keypair();
    let (sk2, pk2) = fresh_keypair();
    assert!(!pk1.same_as(&pk2));
    assert!(sk1.verifying_key().unwrap().same_as(&pk1));
    assert!(sk2.verifying_key().unwrap().same_as(&pk2));
    assert!(sk1.duplicate().verifying_key().unwrap().same_as(&pk1));
    let tag = pk1.as_bytes()[0];
    assert!(tag == 2 || tag == 3);
    assert!(SecretKey::random().verifying_key().is_some());
}

#[test]
fn session_registry_creates_and_overwrites() {
    let (_, user_a) = fresh_keypair();
    let (_, user_b) = fresh_keypair();
    let mut sessions = SessionKeyPairs::new();
    assert!(sessions.get(&user_a).is_none());

    let (pk_a1, id_a1) = sessions.create(&user_a);
    let (sk, id) = sessions.get(&user_a).unwrap();
    assert_eq!(id, id_a1);
    assert!(sk.verifying_key().unwrap().same_as(&pk_a1));
    assert!(sessions.get(&user_b).is_none());

    let (pk_b, id_b) = sessions.create(&user_b);
    // a second handshake of the same user takes the place of the first
    let (pk_a2, id_a2) = sessions.create(&user_a);
    assert_ne!(id_a1, id_a2);
    assert!(!pk_a1.same_as(&pk_a2));
    let (sk, id) = sessions.get(&user_a).unwrap();
    assert_eq!(id, id_a2);
    assert!(sk.verifying_key().unwrap().same_as(&pk_a2));
    // the other user keeps its session
    let (sk, id) = sessions.get(&user_b).unwrap();
    assert_eq!(id, id_b);
    assert!(sk.verifying_key().unwrap().same_as(&pk_b));
    // session ids are version 7
    assert_eq!(id_a2.as_bytes()[6] >> 4, 7);
}

#[test]
fn state_holds_the_sessions() {
    let (_, user) = fresh_keypair();
    let mut state = HypervisorState::new();
    assert!(state.get_session_keypair(&user).is_none());
    let (pk, id) = state.create_session_keypair(&user);
    let (sk, found) = state.get_session_keypair(&user).unwrap();
    assert_eq!(found, id);
    assert!(sk.verifying_key().unwrap().same_as(&pk));
    state.set_session_key_pairs(SessionKeyPairs::new());
    assert!(state.get_session_keypair(&user).is_none());
}

#[test]
fn uuid_text_is_hyphenated() {
    let id = Uuid::from_bytes([
        0x01, 0x23, 0x45, 0x67, 0x89, 0xab, 0xcd, 0xef, 0xfe, 0xdc, 0xba, 0x98, 0x76, 0x54, 0x32, 0x10,
    ]);
    assert_eq!(id.to_text(), "01234567-89ab-cdef-fedc-ba9876543210");
    assert_eq!(id.as_bytes()[15], 0x10);
}
