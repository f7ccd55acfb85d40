use ethers_core::utils::hex;
use mail::crypto::{decrypt_string, opened_text, DecryptError, HexError};

fn keypair_hex() -> (String, Vec<u8>) {
    let (sk, pk) = ecies::utils::generate_keypair();
    (hex::encode(sk.serialize()), pk.serialize().to_vec())
}

#[test]
fn test_decrypt() {
    let (sk, pk) = ecies::utils::generate_keypair();
    let (sk, pk) = (&sk.serialize(), &pk.serialize());
    let msg_o: String = "test message".to_string();
    let msg = msg_o.as_bytes();
    let msg_e = ecies::encrypt(pk, &msg).unwrap();
    let msg_e = hex::encode(msg_e);
    let sk = hex::encode(sk);
    let message = decrypt_string(&sk, msg_e).unwrap();
    println!("{:?}", message);
    assert_eq!(msg_o, message);
}

#[test]
fn decrypt_accepts_0x_prefixed_hex() {
    let (sk, pk) = keypair_hex();
    let ciphertext = ecies::encrypt(&pk, "Straße 1".as_bytes()).unwrap();
    let message = format!("0x{}", hex::encode(ciphertext));
    let sk = format!("0x{}", sk);
    assert_eq!(decrypt_string(&sk, message), Ok("Straße 1".to_string()));
}

#[test]
fn decrypt_accepts_upper_case_hex() {
    let (sk, pk) = keypair_hex();
    let ciphertext = ecies::encrypt(&pk, b"abc").unwrap();
    let message = hex::encode_upper(ciphertext);
    assert_eq!(decrypt_string(&sk.to_uppercase(), message), Ok("abc".to_string()));
}

#[test]
fn decrypt_reports_bad_key_hex() {
    let (_, pk) = keypair_hex();
    let ciphertext = hex::encode(ecies::encrypt(&pk, b"abc").unwrap());
    assert_eq!(
        decrypt_string("abc", ciphertext.clone()),
        Err(DecryptError::KeyHex(HexError::OddLength))
    );
    assert_eq!(
        decrypt_string("0xzz", ciphertext),
        Err(DecryptError::KeyHex(HexError::InvalidHexCharacter { c: 'z', index: 0 }))
    );
}

#[test]
fn decrypt_reports_bad_message_hex() {
    let (sk, _) = keypair_hex();
    assert_eq!(
        decrypt_string(&sk, "12345".to_string()),
        Err(DecryptError::MessageHex(HexError::OddLength))
    );
    assert_eq!(
        decrypt_string(&sk, "12g4".to_string()),
        Err(DecryptError::MessageHex(HexError::InvalidHexCharacter { c: 'g', index: 2 }))
    );
}

#[test]
fn decrypt_reports_ecies_failures() {
    let (sk, pk) = keypair_hex();
    let ciphertext = hex::encode(ecies::encrypt(&pk, b"abc").unwrap());
    // a key of the wrong length
    assert_eq!(decrypt_string("0102", ciphertext.clone()), Err(DecryptError::Ecies));
    // another key
    let (other, _) = keypair_hex();
    assert_eq!(decrypt_string(&other, ciphertext.clone()), Err(DecryptError::Ecies));
    // a message too short to hold an ephemeral key
    assert_eq!(decrypt_string(&sk, "0102".to_string()), Err(DecryptError::Ecies));
}

#[test]
fn decrypt_reports_non_utf8_plaintext() {
    let (sk, pk) = keypair_hex();
    let ciphertext = hex::encode(ecies::encrypt(&pk, &[0xff, 0xfe]).unwrap());
    assert_eq!(decrypt_string(&sk, ciphertext), Err(DecryptError::Utf8));
}

#[test]
fn opened_text_cases() {
    assert_eq!(opened_text(None), Err(DecryptError::Ecies));
    assert_eq!(opened_text(Some(b"hello".to_vec())), Ok("hello".to_string()));
    assert_eq!(opened_text(Some("é".as_bytes().to_vec())), Ok("é".to_string()));
    assert_eq!(opened_text(Some(vec![0xc3])), Err(DecryptError::Utf8));
    assert_eq!(opened_text(Some(vec![])), Ok(String::new()));
}
