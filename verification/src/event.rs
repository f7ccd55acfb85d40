//! What the backend makes of a mail event emitted by the postal contract:
//! the recipient's contact (decrypted where the address was encrypted), and
//! the letter to that contact, keyed by the log entry that carried the event.

use vstd::prelude::*;

use crate::api::{
    idem_key_of, lemma_idem_keys_distinct, new_contact, new_letter, Contact, ContactView, Letter,
};
use crate::chain::{h256_debug_text, hex_char, lower_hex};
use crate::crypto::{decrypt_string, decrypted_text, DecryptError};
use crate::decimal::{decimal, lemma_decimal_injective, u64_to_decimal};

verus! {

/// The postal address carried by a mail event, field by field as emitted
/// (each field hex-encoded ECIES ciphertext when the address is encrypted).
#[derive(Debug)]
pub struct PostalAddress {
    pub address_line_1: String,
    pub address_line_2: String,
    pub city: String,
    pub country_code: String,
    pub postal_or_zip: String,
    pub name: String,
}

/// A mail event of the postal contract.
#[derive(Debug)]
pub struct MailEvent {
    pub postal_address: PostalAddress,
    pub msg_html: String,
    pub address_encrypted: bool,
    pub msg_encrypted: bool,
}

/// The recipient's contact for an event: the address as emitted, or each of
/// its fields decrypted in order (line 1, line 2, city, country code, postal
/// code, name), the first failure being the answer.
pub open spec fn target_contact_of(secret_key: Seq<char>, e: MailEvent) -> Result<
    ContactView,
    DecryptError,
> {
    let a = e.postal_address;
    if !e.address_encrypted {
        Ok(
            new_contact(
                a.address_line_1@,
                a.address_line_2@,
                a.city@,
                a.country_code@,
                a.postal_or_zip@,
                a.name@,
            ),
        )
    } else {
        match decrypted_text(secret_key, a.address_line_1@) {
            Err(x) => Err(x),
            Ok(line_1) => match decrypted_text(secret_key, a.address_line_2@) {
                Err(x) => Err(x),
                Ok(line_2) => match decrypted_text(secret_key, a.city@) {
                    Err(x) => Err(x),
                    Ok(city) => match decrypted_text(secret_key, a.country_code@) {
                        Err(x) => Err(x),
                        Ok(country_code) => match decrypted_text(secret_key, a.postal_or_zip@) {
                            Err(x) => Err(x),
                            Ok(postal_or_zip) => match decrypted_text(secret_key, a.name@) {
                                Err(x) => Err(x),
                                Ok(name) => Ok(
                                    new_contact(
                                        line_1,
                                        line_2,
                                        city,
                                        country_code,
                                        postal_or_zip,
                                        name,
                                    ),
                                ),
                            },
                        },
                    },
                },
            },
        }
    }
}

fn decrypt_field(secret_key: &str, field: &String) -> (r: Result<String, DecryptError>)
    ensures
        match r {
            Ok(s) => decrypted_text(secret_key@, field@) == Ok::<Seq<char>, DecryptError>(s@),
            Err(x) => decrypted_text(secret_key@, field@) == Err::<Seq<char>, DecryptError>(x),
        },
{
    decrypt_string(secret_key, field.clone())
}

/// The contact of the letter's recipient for a mail event, decrypted with
/// the backend's hex-encoded secret key where the address is encrypted.
pub fn target_contact(secret_key: &str, event: &MailEvent) -> (r: Result<Contact, DecryptError>)
    ensures
        match r {
            Ok(c) => target_contact_of(secret_key@, *event) == Ok::<ContactView, DecryptError>(c@),
            Err(x) => target_contact_of(secret_key@, *event) == Err::<ContactView, DecryptError>(x),
        },
{
    let a = &event.postal_address;
    if !event.address_encrypted {
        return Ok(
            Contact::new(
                a.address_line_1.clone(),
                a.address_line_2.clone(),
                a.city.clone(),
                a.country_code.clone(),
                a.postal_or_zip.clone(),
                a.name.clone(),
            ),
        );
    }
    let line_1 = match decrypt_field(secret_key, &a.address_line_1) {
        Ok(t) => t,
        Err(x) => return Err(x),
    };
    let line_2 = match decrypt_field(secret_key, &a.address_line_2) {
        Ok(t) => t,
        Err(x) => return Err(x),
    };
    let city = match decrypt_field(secret_key, &a.city) {
        Ok(t) => t,
        Err(x) => return Err(x),
    };
    let country_code = match decrypt_field(secret_key, &a.country_code) {
        Ok(t) => t,
        Err(x) => return Err(x),
    };
    let postal_or_zip = match decrypt_field(secret_key, &a.postal_or_zip) {
        Ok(t) => t,
        Err(x) => return Err(x),
    };
    let name = match decrypt_field(secret_key, &a.name) {
        Ok(t) => t,
        Err(x) => return Err(x),
    };
    Ok(Contact::new(line_1, line_2, city, country_code, postal_or_zip, name))
}

/// The body of the letter for an event: the HTML as emitted, or decrypted.
pub open spec fn letter_message_of(secret_key: Seq<char>, e: MailEvent) -> Result<
    Seq<char>,
    DecryptError,
> {
    if !e.msg_encrypted {
        Ok(e.msg_html@)
    } else {
        decrypted_text(secret_key, e.msg_html@)
    }
}

/// The body of the letter for a mail event.
pub fn letter_message(secret_key: &str, event: &MailEvent) -> (r: Result<String, DecryptError>)
    ensures
        match r {
            Ok(s) => letter_message_of(secret_key@, *event) == Ok::<Seq<char>, DecryptError>(s@),
            Err(x) => letter_message_of(secret_key@, *event) == Err::<Seq<char>, DecryptError>(x),
        },
{
    if !event.msg_encrypted {
        Ok(event.msg_html.clone())
    } else {
        decrypt_field(secret_key, &event.msg_html)
    }
}

/// The text of a transaction hash as ethers writes it with `{:?}`.
pub open spec fn tx_hash_text(tx_hash: Seq<u8>) -> Seq<char> {
    seq!['0', 'x'] + lower_hex(tx_hash)
}

/// The idempotency key of the letter for the log entry at `tx_index` in the
/// transaction `tx_hash`.
pub open spec fn event_idem_key(tx_hash: Seq<u8>, tx_index: u64) -> Seq<char> {
    idem_key_of(tx_hash_text(tx_hash), decimal(tx_index as nat))
}

/// The letter for a mail event, from the backend's sender contact to the
/// recipient's contact, keyed by the log entry that carried the event: its
/// transaction hash as ethers writes it, and its transaction index.
pub fn event_letter(
    secret_key: &str,
    event: &MailEvent,
    from: Contact,
    target: Contact,
    tx_hash: [u8; 32],
    tx_index: u64,
) -> (r: Result<Letter, DecryptError>)
    ensures
        match r {
            Ok(l) => letter_message_of(secret_key@, *event) is Ok && l@ == new_letter(
                from@,
                target@,
                letter_message_of(secret_key@, *event)->Ok_0,
                tx_hash_text(tx_hash@),
                decimal(tx_index as nat),
            ),
            Err(x) => letter_message_of(secret_key@, *event) == Err::<Seq<char>, DecryptError>(x),
        },
{
    let msg = match letter_message(secret_key, event) {
        Ok(m) => m,
        Err(x) => return Err(x),
    };
    let idem_key = h256_debug_text(tx_hash);
    let index = u64_to_decimal(tx_index);
    Ok(Letter::new(from, target, msg, idem_key, index))
}

proof fn lemma_hex_char_injective(a: nat, b: nat)
    requires
        a < 16,
        b < 16,
        hex_char(a) == hex_char(b),
    ensures
        a == b,
{
    assert(hex_char(a) as u32 == if a < 10 { 48 + a } else { 87 + a });
    assert(hex_char(b) as u32 == if b < 10 { 48 + b } else { 87 + b });
}

proof fn lemma_tx_hash_text_injective(h1: Seq<u8>, h2: Seq<u8>)
    requires
        h1.len() == h2.len(),
        tx_hash_text(h1) == tx_hash_text(h2),
    ensures
        h1 == h2,
{
    assert forall|i: int| 0 <= i < h1.len() implies h1[i] == h2[i] by {
        assert(tx_hash_text(h1)[2 + 2 * i] == lower_hex(h1)[2 * i]);
        assert(tx_hash_text(h2)[2 + 2 * i] == lower_hex(h2)[2 * i]);
        assert(tx_hash_text(h1)[2 + 2 * i + 1] == lower_hex(h1)[2 * i + 1]);
        assert(tx_hash_text(h2)[2 + 2 * i + 1] == lower_hex(h2)[2 * i + 1]);
        assert((2 * i) / 2 == i && (2 * i) % 2 == 0);
        assert((2 * i + 1) / 2 == i && (2 * i + 1) % 2 == 1);
        lemma_hex_char_injective((h1[i] / 16) as nat, (h2[i] / 16) as nat);
        lemma_hex_char_injective((h1[i] % 16) as nat, (h2[i] % 16) as nat);
    }
    assert(h1 =~= h2);
}

proof fn lemma_tx_hash_text_has_no_dash(h: Seq<u8>)
    ensures
        !tx_hash_text(h).contains('-'),
{
    assert forall|i: int| 0 <= i < tx_hash_text(h).len() implies tx_hash_text(h)[i] != '-' by {
        if i >= 2 {
            let j = i - 2;
            let v: nat = if j % 2 == 0 { (h[j / 2] / 16) as nat } else { (h[j / 2] % 16) as nat };
            assert(tx_hash_text(h)[i] == hex_char(v));
            assert(hex_char(v) as u32 == if v < 10 { 48 + v } else { 87 + v });
        }
    }
}

/// Letters for different log entries (transaction hash and index) carry
/// different idempotency keys, so the mail API never takes one for another.
pub proof fn lemma_event_keys_distinct(h1: Seq<u8>, i1: u64, h2: Seq<u8>, i2: u64)
    requires
        h1.len() == 32,
        h2.len() == 32,
        h1 != h2 || i1 != i2,
    ensures
        event_idem_key(h1, i1) != event_idem_key(h2, i2),
{
    lemma_tx_hash_text_has_no_dash(h1);
    lemma_tx_hash_text_has_no_dash(h2);
    if tx_hash_text(h1) == tx_hash_text(h2) {
        lemma_tx_hash_text_injective(h1, h2);
        if decimal(i1 as nat) == decimal(i2 as nat) {
            lemma_decimal_injective(i1 as nat, i2 as nat);
        }
    }
    lemma_idem_keys_distinct(
        tx_hash_text(h1),
        decimal(i1 as nat),
        tx_hash_text(h2),
        decimal(i2 as nat),
    );
}

/// An encrypted address is decrypted field by field: when every field
/// decrypts, each field of the contact is the decryption of the same field of
/// the event (the name going to the first name), and nothing else is set.
pub proof fn lemma_encrypted_address_decrypted(
    secret_key: Seq<char>,
    e: MailEvent,
    line_1: Seq<char>,
    line_2: Seq<char>,
    city: Seq<char>,
    country_code: Seq<char>,
    postal_or_zip: Seq<char>,
    name: Seq<char>,
)
    requires
        e.address_encrypted,
        decrypted_text(secret_key, e.postal_address.address_line_1@) == Ok::<Seq<char>, DecryptError>(line_1),
        decrypted_text(secret_key, e.postal_address.address_line_2@) == Ok::<Seq<char>, DecryptError>(line_2),
        decrypted_text(secret_key, e.postal_address.city@) == Ok::<Seq<char>, DecryptError>(city),
        decrypted_text(secret_key, e.postal_address.country_code@) == Ok::<Seq<char>, DecryptError>(country_code),
        decrypted_text(secret_key, e.postal_address.postal_or_zip@) == Ok::<Seq<char>, DecryptError>(postal_or_zip),
        decrypted_text(secret_key, e.postal_address.name@) == Ok::<Seq<char>, DecryptError>(name),
    ensures
        target_contact_of(secret_key, e) is Ok,
        target_contact_of(secret_key, e)->Ok_0.address_line_1 == line_1,
        target_contact_of(secret_key, e)->Ok_0.address_line_2 == Some(line_2),
        target_contact_of(secret_key, e)->Ok_0.city == Some(city),
        target_contact_of(secret_key, e)->Ok_0.country_code == country_code,
        target_contact_of(secret_key, e)->Ok_0.postal_or_zip == Some(postal_or_zip),
        target_contact_of(secret_key, e)->Ok_0.first_name == Some(name),
        target_contact_of(secret_key, e)->Ok_0.id is None,
        target_contact_of(secret_key, e)->Ok_0.last_name is None,
        target_contact_of(secret_key, e)->Ok_0.country is None,
        target_contact_of(secret_key, e)->Ok_0.province_state is None,
{
}

/// A plain address goes out as emitted, whatever the key.
pub proof fn lemma_plain_address_kept(secret_key: Seq<char>, e: MailEvent)
    requires
        !e.address_encrypted,
    ensures
        target_contact_of(secret_key, e) is Ok,
        target_contact_of(secret_key, e)->Ok_0.address_line_1 == e.postal_address.address_line_1@,
        target_contact_of(secret_key, e)->Ok_0.address_line_2 == Some(e.postal_address.address_line_2@),
        target_contact_of(secret_key, e)->Ok_0.city == Some(e.postal_address.city@),
        target_contact_of(secret_key, e)->Ok_0.country_code == e.postal_address.country_code@,
        target_contact_of(secret_key, e)->Ok_0.postal_or_zip == Some(e.postal_address.postal_or_zip@),
        target_contact_of(secret_key, e)->Ok_0.first_name == Some(e.postal_address.name@),
        target_contact_of(secret_key, e)->Ok_0.id is None,
{
}

/// When an encrypted address has a field that does not decrypt, the contact
/// is refused with the error of the first such field, in the order line 1,
/// line 2, city, country code, postal code, name.
pub proof fn lemma_encrypted_address_first_error(secret_key: Seq<char>, e: MailEvent, k: int)
    requires
        e.address_encrypted,
        0 <= k < 6,
        decrypted_text(secret_key, address_field(e, k)) is Err,
        forall|j: int| 0 <= j < k ==> (#[trigger] decrypted_text(secret_key, address_field(e, j))) is Ok,
    ensures
        target_contact_of(secret_key, e) == Err::<ContactView, DecryptError>(
            decrypted_text(secret_key, address_field(e, k))->Err_0,
        ),
{
    assert(decrypted_text(secret_key, address_field(e, 0)) is Ok || k == 0);
    assert(k <= 1 || decrypted_text(secret_key, address_field(e, 1)) is Ok);
    assert(k <= 2 || decrypted_text(secret_key, address_field(e, 2)) is Ok);
    assert(k <= 3 || decrypted_text(secret_key, address_field(e, 3)) is Ok);
    assert(k <= 4 || decrypted_text(secret_key, address_field(e, 4)) is Ok);
}

/// The address fields of an event in the order in which they are decrypted.
pub open spec fn address_field(e: MailEvent, k: int) -> Seq<char> {
    let a = e.postal_address;
    if k == 0 {
        a.address_line_1@
    } else if k == 1 {
        a.address_line_2@
    } else if k == 2 {
        a.city@
    } else if k == 3 {
        a.country_code@
    } else if k == 4 {
        a.postal_or_zip@
    } else {
        a.name@
    }
}

/// The letter's body depends on the message flag alone: an encrypted message
/// is decrypted, whether or not the address is encrypted too; a plain one is
/// kept as emitted.
pub proof fn lemma_letter_message_flag(secret_key: Seq<char>, e: MailEvent)
    ensures
        e.msg_encrypted ==> letter_message_of(secret_key, e) == decrypted_text(
            secret_key,
            e.msg_html@,
        ),
        !e.msg_encrypted ==> letter_message_of(secret_key, e) == Ok::<Seq<char>, DecryptError>(
            e.msg_html@,
        ),
{
}

/// The same event with the address flag flipped has the same letter body.
pub proof fn lemma_letter_message_ignores_address_flag(
    secret_key: Seq<char>,
    e1: MailEvent,
    e2: MailEvent,
)
    requires
        e1.msg_html == e2.msg_html,
        e1.msg_encrypted == e2.msg_encrypted,
    ensures
        letter_message_of(secret_key, e1) == letter_message_of(secret_key, e2),
{
}

} // verus!
