//! Codec round trips, credential derivation, and the crypto boundary.

use safe_core::account::{decode_account, encode_account, Account};
use safe_core::client::{
    complete_registration, complete_session_packet_get, prepare_registration,
};
use safe_core::events::{mutation_result_of_event, CoreEvent};
use safe_core::crypto::{
    derive_secrets, secretbox_seal, session_key, session_nonce, sha256_hash, sign_detached,
    sign_public_key,
};
use safe_core::data::ImmutableData;
use safe_core::directory_listing::{
    decode_directory_listing, encode_directory_listing, ContainerInfo, DirectoryListing, File,
    Metadata,
};
use safe_core::errors::{
    encode_get_error, encode_mutation_error, parse_get_err, parse_mutation_err, CoreError,
    GetError, MutationError,
};
use safe_core::types::{DataIdentifier, XorName};

fn hex_bytes(s: &str) -> Vec<u8> {
    let chars: Vec<char> = s.chars().collect();
    let mut out = Vec::new();
    let mut i = 0;
    while i + 1 < chars.len() {
        let hi = chars[i].to_digit(16).unwrap() as u8;
        let lo = chars[i + 1].to_digit(16).unwrap() as u8;
        out.push(hi * 16 + lo);
        i += 2;
    }
    out
}

#[test]
fn serialise() {
    let obj_before = DirectoryListing::new(
        "Home".to_string(),
        "{mime:\"application/json\"}".to_string().into_bytes(),
    );

    let encoded = encode_directory_listing(&obj_before);
    let obj_after = decode_directory_listing(&encoded).unwrap();

    assert_eq!(obj_before, obj_after);
}

#[test]
fn serialise_with_entries() {
    let mut dir = DirectoryListing::new("top".to_string(), vec![1, 2, 3]);
    dir.set_sub_directories(vec![
        ContainerInfo::new("docs".to_string()),
        ContainerInfo::new("pics".to_string()),
    ]);
    dir.set_files(vec![
        File::new("notes.txt".to_string(), vec![9, 9]),
        File::new("empty".to_string(), vec![]),
    ]);
    dir.set_name("renamed".to_string());
    dir.set_metadata(Metadata::new("renamed again".to_string(), vec![7]));

    let encoded = encode_directory_listing(&dir);
    let decoded = decode_directory_listing(&encoded).unwrap();
    assert_eq!(dir, decoded);

    // A truncated wire form is refused.
    let mut cut = encoded.clone();
    cut.pop();
    assert!(decode_directory_listing(&cut).is_none());

    // Trailing garbage is refused.
    let mut extended = encoded;
    extended.push(0);
    assert!(decode_directory_listing(&extended).is_none());
}

#[test]
fn account_codec_round_trip() {
    let mut acc = Account::new().unwrap();
    let encoded_fresh = encode_account(&acc);
    let decoded_fresh = decode_account(&encoded_fresh).unwrap();
    assert_eq!(acc, decoded_fresh);

    let dir_id = (
        DataIdentifier::Structured(XorName::from_bytes(vec![5u8; 32]), 500),
        Some(vec![6u8; 32]),
    );
    assert!(acc.set_user_root_dir_id(dir_id.clone()));
    // The slot can be filled once.
    assert!(!acc.set_user_root_dir_id(dir_id));
    assert!(acc.set_config_root_dir((
        DataIdentifier::PubAppendable(XorName::from_bytes(vec![8u8; 32])),
        None,
    )));

    let encoded = encode_account(&acc);
    let decoded = decode_account(&encoded).unwrap();
    assert_eq!(acc, decoded);

    // A truncated wire form is refused.
    let mut cut = encoded;
    cut.pop();
    assert!(decode_account(&cut).is_none());
}

#[test]
fn account_encrypt_decrypt_is_identity() {
    let (password, _, pin) = derive_secrets("some locator", "some password");
    let mut acc = Account::new().unwrap();
    assert!(acc.set_user_root_dir_id((
        DataIdentifier::Immutable(XorName::from_bytes(vec![1u8; 32])),
        Some(vec![2u8; 32]),
    )));

    let cipher = acc.encrypt(&password, &pin);
    let recovered = Account::decrypt(&cipher, &password, &pin).unwrap();
    assert_eq!(acc, recovered);
}

#[test]
fn account_decrypt_rejects_wrong_credentials() {
    let (password, _, pin) = derive_secrets("locator-a", "password-a");
    let acc = Account::new().unwrap();
    let cipher = acc.encrypt(&password, &pin);

    let (other_password, _, other_pin) = derive_secrets("locator-b", "password-b");
    match Account::decrypt(&cipher, &other_password, &other_pin) {
        Err(CoreError::SymmetricDecipherFailure) => (),
        other => panic!("{:?}", other),
    }
}

#[test]
fn account_decrypt_rejects_garbage_plaintext() {
    let (password, _, pin) = derive_secrets("locator-c", "password-c");
    let key = session_key(&password, &pin);
    let nonce = session_nonce(&password, &pin);
    let cipher = secretbox_seal(&key, &nonce, &vec![1, 2, 3, 4]);
    match Account::decrypt(&cipher, &password, &pin) {
        Err(CoreError::EncodeDecodeError) => (),
        other => panic!("{:?}", other),
    }
}

#[test]
fn derive_secrets_is_deterministic_and_separating() {
    let a1 = derive_secrets("locator", "password");
    let a2 = derive_secrets("locator", "password");
    assert_eq!(a1, a2);
    let b = derive_secrets("locator2", "password");
    assert_ne!(a1.0, b.0);
    assert_ne!(a1.1, b.1);
    assert_ne!(a1.2, b.2);
    // The three strings differ from one another.
    assert_ne!(a1.0, a1.1);
    assert_ne!(a1.0, a1.2);
    assert_ne!(a1.1, a1.2);
}

#[test]
fn registration_packet_is_deterministic_in_the_account() {
    // Same secrets reach the same account location; the packet carries
    // version zero and one owner key.
    let reg1 = prepare_registration("det-loc", "det-pass").unwrap();
    let reg2 = prepare_registration("det-loc", "det-pass").unwrap();
    assert_eq!(reg1.acc_loc, reg2.acc_loc);
    assert_eq!(reg1.acc_packet.get_version(), 0);
    assert_eq!(reg1.acc_packet.get_owner_keys().len(), 1);
    assert_eq!(
        reg1.acc_packet.get_owner_keys()[0],
        reg1.account.public_sign_key().clone()
    );
    // Fresh accounts have fresh keys.
    assert_ne!(reg1.account.public_sign_key(), reg2.account.public_sign_key());
}

#[test]
fn mutation_error_indicators_round_trip() {
    let all = vec![
        MutationError::NoSuchAccount,
        MutationError::NoSuchData,
        MutationError::AccountExists,
        MutationError::DataExists,
        MutationError::DataTooLarge,
        MutationError::InvalidSuccessor,
        MutationError::InvalidOperation,
        MutationError::LowBalance,
        MutationError::NetworkFull,
        MutationError::NetworkOther(vec![1, 2, 3]),
        MutationError::NetworkOther(vec![]),
    ];
    for e in all {
        let wire = encode_mutation_error(&e);
        assert_eq!(parse_mutation_err(&wire), e);
    }
}

#[test]
fn get_error_indicators_round_trip() {
    let all = vec![
        GetError::NoSuchAccount,
        GetError::NoSuchData,
        GetError::NetworkOther(vec![42]),
        GetError::NetworkOther(vec![]),
    ];
    for e in all {
        let wire = encode_get_error(&e);
        assert_eq!(parse_get_err(&wire), e);
    }
}

#[test]
fn unknown_indicator_falls_back_to_network_other() {
    let junk = vec![200u8, 1, 2];
    assert_eq!(
        parse_mutation_err(&junk),
        MutationError::NetworkOther(junk.clone())
    );
    assert_eq!(parse_get_err(&junk), GetError::NetworkOther(junk));
}

#[test]
fn sha256_matches_known_vector() {
    // SHA-256 of the empty string.
    let digest = sha256_hash(&Vec::new());
    assert_eq!(
        digest,
        hex_bytes("e3b0c44298fc1c149afbf4c8996fb92427ae41e4649b934ca495991b7852b855")
    );
    // Immutable data is named by the digest of its value.
    let d = ImmutableData::new(Vec::new());
    assert_eq!(d.name().as_bytes(), &digest);
}

#[test]
fn ed25519_matches_known_vector() {
    // RFC 8032, test 1: empty message.
    let seed = hex_bytes("9d61b19deffd5a60ba844af492ec2cc44449c5697b326919703bac031cae7f60");
    let pk = sign_public_key(&seed);
    assert_eq!(
        pk,
        hex_bytes("d75a980182b10ab7d54bfed3c964073a0ee172f3daa62325af021a68f707511a")
    );
    let sig = sign_detached(&seed, &Vec::new());
    assert_eq!(
        sig,
        hex_bytes(
            "e5564300c360ac729086e2cc806e828a84877f1eb8e5d974d873e065224901555fb8821590a33bacc61e39701cf9b46bd25bf5f0595bbe24655141438e7a100b"
        )
    );
}

#[test]
fn secretbox_seals_and_opens() {
    let (password, _, pin) = derive_secrets("sb-loc", "sb-pass");
    let key = session_key(&password, &pin);
    let nonce = session_nonce(&password, &pin);
    let plain = vec![1u8, 2, 3, 4, 5];
    let cipher = secretbox_seal(&key, &nonce, &plain);
    assert_ne!(cipher, plain);
    // The tag adds sixteen bytes.
    assert_eq!(cipher.len(), plain.len() + 16);
    let opened = safe_core::crypto::secretbox_open(&key, &nonce, &cipher).unwrap();
    assert_eq!(opened, plain);

    // A tampered ciphertext is refused.
    let mut bad = cipher;
    bad[0] = bad[0].wrapping_add(1);
    assert!(safe_core::crypto::secretbox_open(&key, &nonce, &bad).is_none());
}

#[test]
fn operation_aborted_on_missing_bootstrap_response() {
    match complete_registration(None, 0) {
        Err(CoreError::OperationAborted) => (),
        other => panic!("{:?}", other),
    }
    match complete_session_packet_get(None, 0) {
        Err(CoreError::OperationAborted) => (),
        other => panic!("{:?}", other),
    }
}

#[test]
fn unexpected_event_kind_is_reported() {
    let event = CoreEvent::AccountInfo(Ok((1, 2)));
    match mutation_result_of_event(event) {
        Err(CoreError::ReceivedUnexpectedEvent) => (),
        other => panic!("{:?}", other),
    }
}
