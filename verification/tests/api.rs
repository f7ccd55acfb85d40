use mail::api::{
    contact_lookup_request, create_contact_request, letter_request, Contact, Letter,
};

fn contact() -> Contact {
    Contact::new(
        "the street".to_string(),
        "unit 1".to_string(),
        "City".to_string(),
        "US".to_string(),
        "12345".to_string(),
        "name".to_string(),
    )
}

fn pairs(v: &[(String, String)]) -> Vec<(&str, &str)> {
    v.iter().map(|(a, b)| (a.as_str(), b.as_str())).collect()
}

#[test]
fn contact_new_fills_address_and_first_name() {
    let c = contact();
    assert_eq!(c.address_line_1, "the street");
    assert_eq!(c.address_line_2.as_deref(), Some("unit 1"));
    assert_eq!(c.city.as_deref(), Some("City"));
    assert_eq!(c.country_code, "US");
    assert_eq!(c.postal_or_zip.as_deref(), Some("12345"));
    assert_eq!(c.first_name.as_deref(), Some("name"));
    assert_eq!(c.id, None);
    assert_eq!(c.last_name, None);
    assert_eq!(c.country, None);
    assert_eq!(c.province_state, None);
}

#[test]
fn letter_new_keys_by_transaction() {
    let l = Letter::new(contact(), contact(), "Hello world".to_string(), "0xabc".to_string(), "1".to_string());
    assert_eq!(l.idem_key.as_deref(), Some("0xabc-1"));
    assert_eq!(l.html.as_deref(), Some("Hello world"));
    assert_eq!(l.from.address_line_1, "the street");
    assert_eq!(l.to.country_code, "US");
    assert_eq!(l.id, None);
    assert_eq!(l.template, None);
    assert_eq!(l.color, None);
    assert_eq!(l.double_sided, None);
    assert_eq!(l.address_placement, None);
    assert_eq!(l.size, None);
}

#[test]
fn contact_requests() {
    let r = create_contact_request("https://api.postgrid.com", "k3y");
    assert_eq!(r.uri, "https://api.postgrid.com/print-mail/v1/contacts");
    assert_eq!(pairs(&r.headers), vec![("x-api-key", "k3y"), ("Content-Type", "application/json")]);
    let r = contact_lookup_request("https://api.postgrid.com", "k3y", "contact_4TpcSvfXbgccXpQNkUjUVR");
    assert_eq!(r.uri, "https://api.postgrid.com/print-mail/v1/contacts/contact_4TpcSvfXbgccXpQNkUjUVR");
    assert_eq!(pairs(&r.headers), vec![("x-api-key", "k3y"), ("Content-Type", "application/json")]);
}

#[test]
fn letter_request_form() {
    let mut from = contact();
    from.id = Some("contact_from".to_string());
    let mut to = contact();
    to.id = Some("contact_to".to_string());
    let l = Letter::new(from, to, "<p>hi</p>".to_string(), "0xfeed".to_string(), "3".to_string());
    let r = letter_request(&l, "https://api.postgrid.com", "k3y");
    assert_eq!(r.uri, "https://api.postgrid.com/print-mail/v1/letters");
    assert_eq!(pairs(&r.headers), vec![("x-api-key", "k3y"), ("Idempotency-key", "0xfeed-3")]);
    assert_eq!(
        pairs(&r.fields),
        vec![
            ("from", "contact_from"),
            ("to", "contact_to"),
            ("addressPlacement", "insert_blank_page"),
            ("color", "true"),
        ]
    );
    assert_eq!(r.pdf_field, "pdf");
    assert_eq!(r.pdf_id, "0xfeed-3");
    assert_eq!(r.pdf_path, "out/0xfeed-3.pdf");
    assert_eq!(r.pdf_mime, "application/pdf");
    assert_eq!(r.html, "<p>hi</p>");
}

#[test]
fn idem_keys_of_different_transactions_differ() {
    let key = |h: &str, i: &str| {
        Letter::new(contact(), contact(), String::new(), h.to_string(), i.to_string()).idem_key
    };
    assert_ne!(key("0xa", "1"), key("0xa", "2"));
    assert_ne!(key("0xa", "1"), key("0xb", "1"));
    assert_eq!(key("0xa", "1"), key("0xa", "1"));
    // Without the hex form of the hash, a dash could move between the parts.
    assert_eq!(key("a-b", "c"), key("a", "b-c"));
}
