use bitcoin::secp256k1::{PublicKey, Secp256k1, SecretKey};
use uma::encryption::{decrypt_tr_info, encrypt_tr_info};
use uma::error::Error;
use uma::signature::{public_key_for, sign_payload, verify_ecdsa};

fn secret(last: u8) -> Vec<u8> {
    let mut key = vec![0u8; 32];
    key[31] = last;
    key
}

fn public(secret_key: &[u8]) -> PublicKey {
    PublicKey::from_secret_key(&Secp256k1::new(), &SecretKey::from_slice(secret_key).unwrap())
}

#[test]
fn signature_of_a_known_payload() {
    let signature = sign_payload(b"Satoshi Nakamoto", &secret(1)).unwrap();
    assert_eq!(
        signature,
        "3045022100934b1ea10a4b3c1757e2b0c017d0b6143ce3c9a7e6a4a49860d7a6ab210ee3d8\
         02202442ce9d2b916064108014783e923ec36b49743e2ffa1c4496f01a512aafd9e5"
    );
}

#[test]
fn signature_verifies_under_each_form_of_the_public_key() {
    let key = secret(7);
    let signature = sign_payload(b"a payload", &key).unwrap();
    let public_key = public(&key);
    assert!(verify_ecdsa(b"a payload", &signature, &public_key.serialize()).is_ok());
    assert!(verify_ecdsa(b"a payload", &signature, &public_key.serialize_uncompressed()).is_ok());
    assert!(verify_ecdsa(b"a payload", &signature.to_uppercase(), &public_key.serialize()).is_ok());
}

#[test]
fn public_key_of_a_private_one() {
    assert_eq!(
        hex::encode(public_key_for(&secret(1)).unwrap()),
        "0279be667ef9dcbbac55a06295ce870b07029bfcdb2dce28d959f2815b16f81798"
    );
    let key = secret(11);
    let signature = sign_payload(b"own", &key).unwrap();
    assert!(verify_ecdsa(b"own", &signature, &public_key_for(&key).unwrap()).is_ok());
    for bad in [&[0u8; 32][..], &[1u8; 31][..]] {
        assert!(matches!(
            public_key_for(bad),
            Err(Error::Secp256k1Error(bitcoin::secp256k1::Error::InvalidSecretKey))
        ));
    }
}

#[test]
fn signing_is_deterministic() {
    let first = sign_payload(b"same", &secret(9)).unwrap();
    let second = sign_payload(b"same", &secret(9)).unwrap();
    assert_eq!(first, second);
    assert_ne!(first, sign_payload(b"other", &secret(9)).unwrap());
    assert_ne!(first, sign_payload(b"same", &secret(10)).unwrap());
}

#[test]
fn keys_out_of_range_are_refused() {
    let order: [u8; 32] = [
        0xff, 0xff, 0xff, 0xff, 0xff, 0xff, 0xff, 0xff, 0xff, 0xff, 0xff, 0xff, 0xff, 0xff, 0xff,
        0xfe, 0xba, 0xae, 0xdc, 0xe6, 0xaf, 0x48, 0xa0, 0x3b, 0xbf, 0xd2, 0x5e, 0x8c, 0xd0, 0x36,
        0x41, 0x41,
    ];
    let mut greatest = order;
    greatest[31] = 0x40;
    assert!(sign_payload(b"x", &greatest).is_ok());
    for key in [&order[..], &[0u8; 32][..], &[1u8; 31][..], &[1u8; 33][..], &[][..]] {
        let error = sign_payload(b"x", key).unwrap_err();
        assert!(matches!(
            error,
            Error::Secp256k1Error(bitcoin::secp256k1::Error::InvalidSecretKey)
        ));
    }
}

#[test]
fn signature_that_is_not_hexadecimal() {
    let public_key = public(&secret(3)).serialize();
    for text in ["abc", "zz", "0g", "ää"] {
        let error = verify_ecdsa(b"x", text, &public_key).unwrap_err();
        assert!(matches!(error, Error::SignatureFormatError));
    }
}

#[test]
fn signature_that_is_not_der() {
    let public_key = public(&secret(3)).serialize();
    for text in ["", "00", "3006020101"] {
        let error = verify_ecdsa(b"x", text, &public_key).unwrap_err();
        assert!(matches!(
            error,
            Error::Secp256k1Error(bitcoin::secp256k1::Error::InvalidSignature)
        ));
    }
}

#[test]
fn public_key_that_is_none() {
    let signature = sign_payload(b"x", &secret(3)).unwrap();
    for key in [&[][..], &[0u8; 33][..], &[2u8; 32][..]] {
        let error = verify_ecdsa(b"x", &signature, key).unwrap_err();
        assert!(matches!(
            error,
            Error::Secp256k1Error(bitcoin::secp256k1::Error::InvalidPublicKey)
        ));
    }
}

#[test]
fn signature_of_something_else() {
    let key = secret(3);
    let signature = sign_payload(b"x", &key).unwrap();
    let error = verify_ecdsa(b"y", &signature, &public(&key).serialize()).unwrap_err();
    assert!(matches!(error, Error::InvalidSignature));
    let error = verify_ecdsa(b"x", &signature, &public(&secret(4)).serialize()).unwrap_err();
    assert!(matches!(error, Error::InvalidSignature));
}

#[test]
fn malformed_signature_is_reported_before_malformed_key() {
    let error = verify_ecdsa(b"x", "xy", &[]).unwrap_err();
    assert!(matches!(error, Error::SignatureFormatError));
    let error = verify_ecdsa(b"x", "00", &[]).unwrap_err();
    assert!(matches!(
        error,
        Error::Secp256k1Error(bitcoin::secp256k1::Error::InvalidSignature)
    ));
}

#[test]
fn travel_rule_information_is_encrypted_for_its_receiver() {
    let key = secret(5);
    let text = encrypt_tr_info("some information", &public(&key).serialize()).unwrap();
    let ciphertext = hex::decode(&text).unwrap();
    assert_eq!(ecies::decrypt(&key, &ciphertext).unwrap(), b"some information");
    let again = encrypt_tr_info("some information", &public(&key).serialize()).unwrap();
    assert_ne!(text, again);
}

#[test]
fn encrypted_information_is_had_back() {
    let key = secret(6);
    for form in [
        public(&key).serialize().to_vec(),
        public(&key).serialize_uncompressed().to_vec(),
        public_key_for(&key).unwrap(),
    ] {
        for info in ["", "x", "some information \u{e9}"] {
            let encrypted = encrypt_tr_info(info, &form).unwrap();
            assert_eq!(encrypted, encrypted.to_lowercase());
            let ciphertext = hex::decode(encrypted).unwrap();
            assert_eq!(decrypt_tr_info(&ciphertext, &key).unwrap(), info.as_bytes());
        }
    }
}

#[test]
fn decryption_that_fails() {
    let encrypted = encrypt_tr_info("info", &public(&secret(6)).serialize()).unwrap();
    let ciphertext = hex::decode(encrypted).unwrap();
    assert!(matches!(
        decrypt_tr_info(&ciphertext, &secret(7)),
        Err(Error::EciesSecp256k1Error(ecies::SecpError::InvalidMessage))
    ));
    assert!(matches!(
        decrypt_tr_info(&[], &secret(6)),
        Err(Error::EciesSecp256k1Error(ecies::SecpError::InvalidMessage))
    ));
    assert!(matches!(
        decrypt_tr_info(&ciphertext, &[0u8; 32]),
        Err(Error::EciesSecp256k1Error(ecies::SecpError::InvalidSecretKey))
    ));
}

#[test]
fn encryption_for_a_key_that_is_none() {
    let error = encrypt_tr_info("some information", &[1, 2, 3]).unwrap_err();
    assert!(matches!(error, Error::EciesSecp256k1Error(_)));
    let error = encrypt_tr_info("some information", &[0u8; 33]).unwrap_err();
    assert!(matches!(
        error,
        Error::EciesSecp256k1Error(ecies::SecpError::InvalidPublicKey)
    ));
}
