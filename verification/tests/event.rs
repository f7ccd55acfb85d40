use ethers_core::utils::hex;
use mail::api::Contact;
use mail::crypto::{DecryptError, HexError};
use mail::event::{event_letter, letter_message, target_contact, MailEvent, PostalAddress};

fn plain_event() -> MailEvent {
    MailEvent {
        postal_address: PostalAddress {
            address_line_1: "2 Lincoln Memorial Cir NW".to_string(),
            address_line_2: "".to_string(),
            city: "Washington DC".to_string(),
            country_code: "US".to_string(),
            postal_or_zip: "20002".to_string(),
            name: "Abe Lincoln".to_string(),
        },
        msg_html: "Thanks for your work out there.".to_string(),
        address_encrypted: false,
        msg_encrypted: false,
    }
}

fn sender() -> Contact {
    let mut c = Contact::new(
        "1 Sender Way".to_string(),
        "".to_string(),
        "Town".to_string(),
        "US".to_string(),
        "00001".to_string(),
        "EPS".to_string(),
    );
    c.id = Some("contact_sender".to_string());
    c
}

#[test]
fn plain_address_goes_out_as_emitted() {
    let c = target_contact("not even hex", &plain_event()).unwrap();
    assert_eq!(c.address_line_1, "2 Lincoln Memorial Cir NW");
    assert_eq!(c.address_line_2.as_deref(), Some(""));
    assert_eq!(c.city.as_deref(), Some("Washington DC"));
    assert_eq!(c.country_code, "US");
    assert_eq!(c.postal_or_zip.as_deref(), Some("20002"));
    assert_eq!(c.first_name.as_deref(), Some("Abe Lincoln"));
    assert_eq!(c.id, None);
}

#[test]
fn encrypted_address_is_decrypted_field_by_field() {
    let (sk, pk) = ecies::utils::generate_keypair();
    let pk = pk.serialize();
    let sk = hex::encode(sk.serialize());
    let enc = |s: &str| hex::encode(ecies::encrypt(&pk, s.as_bytes()).unwrap());
    let mut e = plain_event();
    let a = &mut e.postal_address;
    a.address_line_1 = enc("2 Lincoln Memorial Cir NW");
    a.address_line_2 = enc("");
    a.city = enc("Washington DC");
    a.country_code = enc("US");
    a.postal_or_zip = enc("20002");
    a.name = enc("Abe Lincoln");
    e.address_encrypted = true;
    let c = target_contact(&sk, &e).unwrap();
    assert_eq!(c.address_line_1, "2 Lincoln Memorial Cir NW");
    assert_eq!(c.city.as_deref(), Some("Washington DC"));
    assert_eq!(c.first_name.as_deref(), Some("Abe Lincoln"));
    // The message is not encrypted, so it goes out as emitted.
    assert_eq!(letter_message(&sk, &e).unwrap(), "Thanks for your work out there.");
}

#[test]
fn first_bad_field_is_reported() {
    let (sk, pk) = ecies::utils::generate_keypair();
    let pk = pk.serialize();
    let sk = hex::encode(sk.serialize());
    let enc = |s: &str| hex::encode(ecies::encrypt(&pk, s.as_bytes()).unwrap());
    let mut e = plain_event();
    e.address_encrypted = true;
    e.postal_address.address_line_1 = enc("line");
    e.postal_address.address_line_2 = enc("line 2");
    e.postal_address.city = "xyz".to_string();
    e.postal_address.country_code = "q".to_string();
    assert_eq!(target_contact(&sk, &e).unwrap_err(), DecryptError::MessageHex(HexError::OddLength));
}

#[test]
fn encrypted_message_is_decrypted() {
    let (sk, pk) = ecies::utils::generate_keypair();
    let pk = pk.serialize();
    let sk = hex::encode(sk.serialize());
    let mut e = plain_event();
    e.msg_html = hex::encode(ecies::encrypt(&pk, b"<b>secret</b>").unwrap());
    e.msg_encrypted = true;
    assert_eq!(letter_message(&sk, &e).unwrap(), "<b>secret</b>");
    e.msg_html = "zz".to_string();
    assert_eq!(
        letter_message(&sk, &e).unwrap_err(),
        DecryptError::MessageHex(HexError::InvalidHexCharacter { c: 'z', index: 0 })
    );
}

#[test]
fn event_letter_is_keyed_by_log_entry() {
    let mut hash = [0u8; 32];
    hash[0] = 0xab;
    hash[31] = 0x0f;
    let target = target_contact("", &plain_event()).unwrap();
    let l = event_letter("", &plain_event(), sender(), target, hash, 7).unwrap();
    assert_eq!(
        l.idem_key.as_deref(),
        Some("0xab0000000000000000000000000000000000000000000000000000000000000f-7")
    );
    assert_eq!(l.html.as_deref(), Some("Thanks for your work out there."));
    assert_eq!(l.from.id.as_deref(), Some("contact_sender"));
    assert_eq!(l.to.address_line_1, "2 Lincoln Memorial Cir NW");
    let expected_hash = format!("{:?}", ethers_core::types::H256(hash));
    assert_eq!(l.idem_key.unwrap(), format!("{}-7", expected_hash));
}

#[test]
fn event_letter_fails_on_bad_message() {
    let mut e = plain_event();
    e.msg_encrypted = true;
    let target = target_contact("", &e).unwrap();
    assert_eq!(
        event_letter("abcd", &e, sender(), target, [0u8; 32], 0).unwrap_err(),
        DecryptError::MessageHex(HexError::OddLength)
    );
}

#[test]
fn different_log_entries_give_different_keys() {
    let t = || target_contact("", &plain_event()).unwrap();
    let a = event_letter("", &plain_event(), sender(), t(), [1u8; 32], 0).unwrap();
    let b = event_letter("", &plain_event(), sender(), t(), [1u8; 32], 1).unwrap();
    let c = event_letter("", &plain_event(), sender(), t(), [2u8; 32], 0).unwrap();
    assert_ne!(a.idem_key, b.idem_key);
    assert_ne!(a.idem_key, c.idem_key);
}
