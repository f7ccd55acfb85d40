//! The records exchanged with the print-mail API and the requests the
//! backend sends it: creating a contact, looking one up, sending a letter.

use vstd::prelude::*;
use vstd::string::StringExecFns;

use crate::pdf::{pdf_output_path, pdf_path_of};

verus! {

/// The text of an optional string.
pub open spec fn opt_text(o: Option<String>) -> Option<Seq<char>> {
    match o {
        Some(s) => Some(s@),
        None => None,
    }
}

/// The texts of a list of name/value pairs.
pub open spec fn text_pairs(v: Seq<(String, String)>) -> Seq<(Seq<char>, Seq<char>)> {
    v.map_values(|p: (String, String)| (p.0@, p.1@))
}

/// A postal contact of the mail API.
#[derive(Debug)]
pub struct Contact {
    pub address_line_1: String,
    pub country_code: String,
    pub id: Option<String>,
    pub first_name: Option<String>,
    pub last_name: Option<String>,
    pub address_line_2: Option<String>,
    pub city: Option<String>,
    pub country: Option<String>,
    pub postal_or_zip: Option<String>,
    pub province_state: Option<String>,
}

/// The texts of a contact.
pub struct ContactView {
    pub address_line_1: Seq<char>,
    pub country_code: Seq<char>,
    pub id: Option<Seq<char>>,
    pub first_name: Option<Seq<char>>,
    pub last_name: Option<Seq<char>>,
    pub address_line_2: Option<Seq<char>>,
    pub city: Option<Seq<char>>,
    pub country: Option<Seq<char>>,
    pub postal_or_zip: Option<Seq<char>>,
    pub province_state: Option<Seq<char>>,
}

impl View for Contact {
    type V = ContactView;

    open spec fn view(&self) -> ContactView {
        ContactView {
            address_line_1: self.address_line_1@,
            country_code: self.country_code@,
            id: opt_text(self.id),
            first_name: opt_text(self.first_name),
            last_name: opt_text(self.last_name),
            address_line_2: opt_text(self.address_line_2),
            city: opt_text(self.city),
            country: opt_text(self.country),
            postal_or_zip: opt_text(self.postal_or_zip),
            province_state: opt_text(self.province_state),
        }
    }
}

/// The contact that `Contact::new` makes of an address: the name goes to the
/// first name; there is no id, last name, country or province yet.
pub open spec fn new_contact(
    address_line_1: Seq<char>,
    address_line_2: Seq<char>,
    city: Seq<char>,
    country_code: Seq<char>,
    postal_or_zip: Seq<char>,
    name: Seq<char>,
) -> ContactView {
    ContactView {
        address_line_1,
        country_code,
        id: None,
        first_name: Some(name),
        last_name: None,
        address_line_2: Some(address_line_2),
        city: Some(city),
        country: None,
        postal_or_zip: Some(postal_or_zip),
        province_state: None,
    }
}

impl Contact {
    /// A contact for the recipient of a letter, not yet known to the API.
    pub fn new(
        address_line_1: String,
        address_line_2: String,
        city: String,
        country_code: String,
        postal_or_zip: String,
        name: String,
    ) -> (c: Self)
        ensures
            c@ == new_contact(
                address_line_1@,
                address_line_2@,
                city@,
                country_code@,
                postal_or_zip@,
                name@,
            ),
    {
        Contact {
            address_line_1,
            country_code,
            first_name: Some(name),
            postal_or_zip: Some(postal_or_zip),
            address_line_2: Some(address_line_2),
            city: Some(city),
            country: None,
            province_state: None,
            last_name: None,
            id: None,
        }
    }
}

/// A letter of the mail API.
#[derive(Debug)]
pub struct Letter {
    pub from: Contact,
    pub to: Contact,
    pub html: Option<String>,
    pub template: Option<String>,
    pub idem_key: Option<String>,
    pub id: Option<String>,
    pub address_placement: Option<String>,
    pub double_sided: Option<bool>,
    pub color: Option<bool>,
    pub perforated_page: Option<String>,
    pub extra_service: Option<String>,
    pub envelope_type: Option<String>,
    pub return_envelope: Option<String>,
    pub send_date: Option<String>,
    pub description: Option<String>,
    pub express: Option<String>,
    pub mailing_class: Option<String>,
    pub size: Option<String>,
}

/// The texts and flags of a letter.
pub struct LetterView {
    pub from: ContactView,
    pub to: ContactView,
    pub html: Option<Seq<char>>,
    pub template: Option<Seq<char>>,
    pub idem_key: Option<Seq<char>>,
    pub id: Option<Seq<char>>,
    pub address_placement: Option<Seq<char>>,
    pub double_sided: Option<bool>,
    pub color: Option<bool>,
    pub perforated_page: Option<Seq<char>>,
    pub extra_service: Option<Seq<char>>,
    pub envelope_type: Option<Seq<char>>,
    pub return_envelope: Option<Seq<char>>,
    pub send_date: Option<Seq<char>>,
    pub description: Option<Seq<char>>,
    pub express: Option<Seq<char>>,
    pub mailing_class: Option<Seq<char>>,
    pub size: Option<Seq<char>>,
}

impl View for Letter {
    type V = LetterView;

    open spec fn view(&self) -> LetterView {
        LetterView {
            from: self.from@,
            to: self.to@,
            html: opt_text(self.html),
            template: opt_text(self.template),
            idem_key: opt_text(self.idem_key),
            id: opt_text(self.id),
            address_placement: opt_text(self.address_placement),
            double_sided: self.double_sided,
            color: self.color,
            perforated_page: opt_text(self.perforated_page),
            extra_service: opt_text(self.extra_service),
            envelope_type: opt_text(self.envelope_type),
            return_envelope: opt_text(self.return_envelope),
            send_date: opt_text(self.send_date),
            description: opt_text(self.description),
            express: opt_text(self.express),
            mailing_class: opt_text(self.mailing_class),
            size: opt_text(self.size),
        }
    }
}

/// The idempotency key of the letter for a transaction: its hash, `-`, and
/// its index.
pub open spec fn idem_key_of(tx_hash: Seq<char>, tx_index: Seq<char>) -> Seq<char> {
    tx_hash + "-"@ + tx_index
}

/// The letter that `Letter::new` makes: only the contacts, the HTML body and
/// the idempotency key are set.
pub open spec fn new_letter(
    from: ContactView,
    to: ContactView,
    html: Seq<char>,
    tx_hash: Seq<char>,
    tx_index: Seq<char>,
) -> LetterView {
    LetterView {
        from,
        to,
        html: Some(html),
        template: None,
        idem_key: Some(idem_key_of(tx_hash, tx_index)),
        id: None,
        address_placement: None,
        double_sided: None,
        color: None,
        perforated_page: None,
        extra_service: None,
        envelope_type: None,
        return_envelope: None,
        send_date: None,
        description: None,
        express: None,
        mailing_class: None,
        size: None,
    }
}

impl Letter {
    /// A letter from one contact to another, keyed by the transaction that
    /// asked for it, so that the API sends it once however often it is posted.
    pub fn new(from: Contact, to: Contact, html: String, tx_hash: String, tx_index: String) -> (l:
        Self)
        ensures
            l@ == new_letter(from@, to@, html@, tx_hash@, tx_index@),
    {
        let mut idem_key = tx_hash;
        idem_key.append("-");
        idem_key.append(tx_index.as_str());
        Letter {
            idem_key: Some(idem_key),
            from,
            to,
            html: Some(html),
            id: None,
            address_placement: None,
            double_sided: None,
            color: None,
            perforated_page: None,
            extra_service: None,
            envelope_type: None,
            return_envelope: None,
            send_date: None,
            description: None,
            express: None,
            mailing_class: None,
            size: None,
            template: None,
        }
    }
}

/// Two letters for different transactions never share an idempotency key,
/// as long as the hashes hold no `-` (ethers writes them as `0x` and hex).
pub proof fn lemma_idem_keys_distinct(h1: Seq<char>, i1: Seq<char>, h2: Seq<char>, i2: Seq<char>)
    requires
        !h1.contains('-'),
        !h2.contains('-'),
        h1 != h2 || i1 != i2,
    ensures
        idem_key_of(h1, i1) != idem_key_of(h2, i2),
{
    reveal_strlit("-");
    let k1 = idem_key_of(h1, i1);
    let k2 = idem_key_of(h2, i2);
    if k1 == k2 {
        assert(k1[h1.len() as int] == '-');
        assert(k2[h2.len() as int] == '-');
        if h1.len() < h2.len() {
            assert(h2[h1.len() as int] == k2[h1.len() as int]);
            assert(h2.contains('-'));
        } else if h2.len() < h1.len() {
            assert(h1[h2.len() as int] == k1[h2.len() as int]);
            assert(h1.contains('-'));
        } else {
            assert(h1 =~= k1.subrange(0, h1.len() as int));
            assert(h2 =~= k2.subrange(0, h2.len() as int));
            assert(i1 =~= k1.subrange(h1.len() as int + 1, k1.len() as int));
            assert(i2 =~= k2.subrange(h2.len() as int + 1, k2.len() as int));
        }
    }
}

/// A request to the mail API with its URL and headers.
pub struct ApiRequest {
    pub uri: String,
    pub headers: Vec<(String, String)>,
}

/// The headers of a JSON request to the mail API.
pub open spec fn json_headers(mail_api_key: Seq<char>) -> Seq<(Seq<char>, Seq<char>)> {
    seq![("x-api-key"@, mail_api_key), ("Content-Type"@, "application/json"@)]
}

fn json_headers_for(mail_api_key: &str) -> (h: Vec<(String, String)>)
    ensures
        text_pairs(h@) == json_headers(mail_api_key@),
{
    let mut h: Vec<(String, String)> = Vec::new();
    h.push((String::from_str("x-api-key"), String::from_str(mail_api_key)));
    h.push((String::from_str("Content-Type"), String::from_str("application/json")));
    assert(text_pairs(h@) =~= json_headers(mail_api_key@));
    h
}

/// The URL of the contact collection.
pub open spec fn contacts_uri(mail_api_url: Seq<char>) -> Seq<char> {
    mail_api_url + "/print-mail/v1/contacts"@
}

/// The URL of one contact.
pub open spec fn contact_uri(mail_api_url: Seq<char>, id: Seq<char>) -> Seq<char> {
    mail_api_url + "/print-mail/v1/contacts/"@ + id
}

/// The URL of the letter collection.
pub open spec fn letters_uri(mail_api_url: Seq<char>) -> Seq<char> {
    mail_api_url + "/print-mail/v1/letters"@
}

/// The request that creates a contact: a JSON `POST` of the contact to the
/// contact collection.
pub fn create_contact_request(mail_api_url: &str, mail_api_key: &str) -> (r: ApiRequest)
    ensures
        r.uri@ == contacts_uri(mail_api_url@),
        text_pairs(r.headers@) == json_headers(mail_api_key@),
{
    let mut uri = String::from_str(mail_api_url);
    uri.append("/print-mail/v1/contacts");
    ApiRequest { uri, headers: json_headers_for(mail_api_key) }
}

/// The request that looks a contact up by id: a JSON `GET` of its URL.
pub fn contact_lookup_request(mail_api_url: &str, mail_api_key: &str, id: &str) -> (r:
    ApiRequest)
    ensures
        r.uri@ == contact_uri(mail_api_url@, id@),
        text_pairs(r.headers@) == json_headers(mail_api_key@),
{
    let mut uri = String::from_str(mail_api_url);
    uri.append("/print-mail/v1/contacts/");
    uri.append(id);
    ApiRequest { uri, headers: json_headers_for(mail_api_key) }
}

/// The multipart request that sends a letter: the PDF of its body, the ids
/// of its two contacts, and its idempotency key.
pub struct LetterRequest {
    pub uri: String,
    pub headers: Vec<(String, String)>,
    /// The text fields of the form, in order.
    pub fields: Vec<(String, String)>,
    /// The name of the form part that carries the PDF.
    pub pdf_field: String,
    /// The id under which the PDF is rendered and its file name in the form.
    pub pdf_id: String,
    /// Where the rendered PDF is read from.
    pub pdf_path: String,
    pub pdf_mime: String,
    /// The HTML body that the PDF is rendered from.
    pub html: String,
}

/// The headers of a letter request.
pub open spec fn letter_headers(mail_api_key: Seq<char>, idem_key: Seq<char>) -> Seq<
    (Seq<char>, Seq<char>),
> {
    seq![("x-api-key"@, mail_api_key), ("Idempotency-key"@, idem_key)]
}

/// The text fields of a letter form.
pub open spec fn letter_fields(from_id: Seq<char>, to_id: Seq<char>) -> Seq<
    (Seq<char>, Seq<char>),
> {
    seq![
        ("from"@, from_id),
        ("to"@, to_id),
        ("addressPlacement"@, "insert_blank_page"@),
        ("color"@, "true"@),
    ]
}

/// Whether a letter has what sending it needs: an idempotency key, a body,
/// and contacts that the API knows (with ids).
pub open spec fn letter_sendable(l: LetterView) -> bool {
    &&& l.idem_key is Some
    &&& l.html is Some
    &&& l.from.id is Some
    &&& l.to.id is Some
}

/// A letter request always carries the API key and the letter's idempotency
/// key, whatever their lengths, and the form names both contacts by id, puts
/// the address on a blank first page and prints in color.
pub proof fn lemma_letter_request_parts(
    mail_api_key: Seq<char>,
    idem_key: Seq<char>,
    from_id: Seq<char>,
    to_id: Seq<char>,
)
    ensures
        letter_headers(mail_api_key, idem_key).len() == 2,
        letter_headers(mail_api_key, idem_key)[0] == ("x-api-key"@, mail_api_key),
        letter_headers(mail_api_key, idem_key)[1] == ("Idempotency-key"@, idem_key),
        letter_fields(from_id, to_id).len() == 4,
        letter_fields(from_id, to_id)[0] == ("from"@, from_id),
        letter_fields(from_id, to_id)[1] == ("to"@, to_id),
        letter_fields(from_id, to_id)[2] == ("addressPlacement"@, "insert_blank_page"@),
        letter_fields(from_id, to_id)[3] == ("color"@, "true"@),
        json_headers(mail_api_key).len() == 2,
        json_headers(mail_api_key)[0] == ("x-api-key"@, mail_api_key),
        json_headers(mail_api_key)[1] == ("Content-Type"@, "application/json"@),
{
}

/// The URL of one contact is the contact collection's URL, `/`, and its id;
/// letters live beside contacts under `/print-mail/v1/`.
pub proof fn lemma_api_uris(mail_api_url: Seq<char>, id: Seq<char>)
    ensures
        contact_uri(mail_api_url, id) == contacts_uri(mail_api_url) + seq!['/'] + id,
        contacts_uri(mail_api_url) == mail_api_url + "/print-mail/v1/contacts"@,
        letters_uri(mail_api_url) == mail_api_url + "/print-mail/v1/letters"@,
{
    reveal_strlit("/print-mail/v1/contacts/");
    reveal_strlit("/print-mail/v1/contacts");
    assert(contact_uri(mail_api_url, id) =~= contacts_uri(mail_api_url) + seq!['/'] + id);
}

/// `Contact::new` keeps each part of the address in its own field, the name
/// in the first name, and sets nothing else.
pub proof fn lemma_new_contact_fields(
    address_line_1: Seq<char>,
    address_line_2: Seq<char>,
    city: Seq<char>,
    country_code: Seq<char>,
    postal_or_zip: Seq<char>,
    name: Seq<char>,
)
    ensures
        ({
            let c = new_contact(address_line_1, address_line_2, city, country_code, postal_or_zip, name);
            &&& c.address_line_1 == address_line_1
            &&& c.address_line_2 == Some(address_line_2)
            &&& c.city == Some(city)
            &&& c.country_code == country_code
            &&& c.postal_or_zip == Some(postal_or_zip)
            &&& c.first_name == Some(name)
            &&& c.id is None
            &&& c.last_name is None
            &&& c.country is None
            &&& c.province_state is None
        }),
{
}

/// `Letter::new` keeps both contacts and the body, keys the letter by the
/// transaction hash, a dash and the index, and sets nothing else.
pub proof fn lemma_new_letter_fields(
    from: ContactView,
    to: ContactView,
    html: Seq<char>,
    tx_hash: Seq<char>,
    tx_index: Seq<char>,
)
    ensures
        ({
            let l = new_letter(from, to, html, tx_hash, tx_index);
            &&& l.from == from
            &&& l.to == to
            &&& l.html == Some(html)
            &&& l.idem_key == Some(tx_hash + seq!['-'] + tx_index)
            &&& l.id is None
            &&& l.template is None
            &&& l.address_placement is None
            &&& l.double_sided is None
            &&& l.color is None
            &&& l.description is None
            &&& l.size is None
        }),
{
    reveal_strlit("-");
    assert(idem_key_of(tx_hash, tx_index) =~= tx_hash + seq!['-'] + tx_index);
}

fn text_of(o: &Option<String>) -> (s: String)
    requires
        o is Some,
    ensures
        s@ == o->0@,
{
    match o {
        Some(t) => t.clone(),
        None => String::new(),
    }
}

/// The request that sends a letter to the letter collection; the PDF is
/// rendered from the letter's body under its idempotency key.
pub fn letter_request(letter: &Letter, mail_api_url: &str, mail_api_key: &str) -> (r:
    LetterRequest)
    requires
        letter_sendable(letter@),
    ensures
        r.uri@ == letters_uri(mail_api_url@),
        text_pairs(r.headers@) == letter_headers(mail_api_key@, letter@.idem_key->0),
        text_pairs(r.fields@) == letter_fields(letter@.from.id->0, letter@.to.id->0),
        r.pdf_field@ == "pdf"@,
        r.pdf_id@ == letter@.idem_key->0,
        r.pdf_path@ == pdf_path_of(letter@.idem_key->0),
        r.pdf_mime@ == "application/pdf"@,
        r.html@ == letter@.html->0,
{
    let idem_key = text_of(&letter.idem_key);
    let html = text_of(&letter.html);
    let from_id = text_of(&letter.from.id);
    let to_id = text_of(&letter.to.id);
    let mut uri = String::from_str(mail_api_url);
    uri.append("/print-mail/v1/letters");
    let mut headers: Vec<(String, String)> = Vec::new();
    headers.push((String::from_str("x-api-key"), String::from_str(mail_api_key)));
    headers.push((String::from_str("Idempotency-key"), idem_key.clone()));
    let mut fields: Vec<(String, String)> = Vec::new();
    fields.push((String::from_str("from"), from_id));
    fields.push((String::from_str("to"), to_id));
    fields.push((String::from_str("addressPlacement"), String::from_str("insert_blank_page")));
    fields.push((String::from_str("color"), String::from_str("true")));
    assert(text_pairs(headers@) =~= letter_headers(mail_api_key@, letter@.idem_key->0));
    assert(text_pairs(fields@) =~= letter_fields(letter@.from.id->0, letter@.to.id->0));
    let pdf_path = pdf_output_path(idem_key.as_str());
    LetterRequest {
        uri,
        headers,
        fields,
        pdf_field: String::from_str("pdf"),
        pdf_id: idem_key,
        pdf_path,
        pdf_mime: String::from_str("application/pdf"),
        html,
    }
}

} // verus!
