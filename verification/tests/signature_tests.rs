use twilio_rs::form::FormParams;
use twilio_rs::order::str_before;
use twilio_rs::signature::{canonical_string, compute_signature, validate_twilio_signature};

fn form(pairs: &[(&str, &str)]) -> FormParams {
    let mut fields = FormParams::new();
    for (key, value) in pairs {
        fields.insert(key.to_string(), value.to_string());
    }
    fields
}

const HOOK: &str = "https://example.org/hook";
const HOOK_SIGNATURE: &str = "zQghL++Jtoq1ZjoVunqlsMY5qc8=";

#[test]
fn known_request_has_the_known_signature() {
    let fields = form(&[("Body", "hi"), ("From", "whatsapp:+1")]);
    assert_eq!(canonical_string(HOOK, &fields), "https://example.org/hookBodyhiFromwhatsapp:+1");
    assert_eq!(compute_signature(HOOK, &fields, "s3cret"), HOOK_SIGNATURE);
    assert!(validate_twilio_signature(HOOK, &fields, HOOK_SIGNATURE, "s3cret"));
}

#[test]
fn altered_digest_is_rejected() {
    let fields = form(&[("Body", "hi"), ("From", "whatsapp:+1")]);
    assert!(!validate_twilio_signature(HOOK, &fields, "zQghL++Jtoq1ZjoVunqlsMY5qc9=", "s3cret"));
    assert!(!validate_twilio_signature(HOOK, &fields, "ZQghL++Jtoq1ZjoVunqlsMY5qc8=", "s3cret"));
    assert!(!validate_twilio_signature(HOOK, &fields, "zQghL++Jtoq1ZjoVunqlsMY5qc8", "s3cret"));
    assert!(!validate_twilio_signature(HOOK, &fields, "", "s3cret"));
}

#[test]
fn comparison_is_case_sensitive() {
    let fields = form(&[("Body", "hi"), ("From", "whatsapp:+1")]);
    let lowered = HOOK_SIGNATURE.to_lowercase();
    assert_ne!(lowered, HOOK_SIGNATURE);
    assert!(!validate_twilio_signature(HOOK, &fields, &lowered, "s3cret"));
}

#[test]
fn another_secret_gives_another_signature() {
    let fields = form(&[("Body", "hi"), ("From", "whatsapp:+1")]);
    assert_eq!(compute_signature(HOOK, &fields, ""), "S2moNJ6lfDpdaVPZcUQ4d0hbCFY=");
    assert!(!validate_twilio_signature(HOOK, &fields, HOOK_SIGNATURE, "s3cre"));
}

#[test]
fn insertion_order_does_not_matter() {
    let forward = form(&[("Body", "hi"), ("From", "whatsapp:+1")]);
    let backward = form(&[("From", "whatsapp:+1"), ("Body", "hi")]);
    assert_eq!(canonical_string(HOOK, &forward), canonical_string(HOOK, &backward));
    assert_eq!(
        compute_signature(HOOK, &forward, "s3cret"),
        compute_signature(HOOK, &backward, "s3cret")
    );
    assert!(validate_twilio_signature(HOOK, &backward, HOOK_SIGNATURE, "s3cret"));
}

#[test]
fn every_arrangement_of_six_fields_signs_alike() {
    let pairs = [
        ("From", "whatsapp:+15551234567"),
        ("To", "whatsapp:+15550001111"),
        ("Body", "Hello"),
        ("MessageSid", "SM1"),
        ("ProfileName", "Ann"),
        ("WaId", "15551234567"),
    ];
    let url = "https://myapp.com/twilio/whatsapp";
    for shift in 0..pairs.len() {
        let mut rotated = pairs.to_vec();
        rotated.rotate_left(shift);
        let fields = form(&rotated);
        assert_eq!(compute_signature(url, &fields, "token"), "/m5zHgeRKsNxrTdNsUJ1+NmbYsI=");
        rotated.reverse();
        let fields = form(&rotated);
        assert_eq!(compute_signature(url, &fields, "token"), "/m5zHgeRKsNxrTdNsUJ1+NmbYsI=");
    }
}

#[test]
fn verification_is_deterministic() {
    let fields = form(&[("Body", "hi"), ("From", "whatsapp:+1")]);
    let first = validate_twilio_signature(HOOK, &fields, HOOK_SIGNATURE, "s3cret");
    let second = validate_twilio_signature(HOOK, &fields, HOOK_SIGNATURE, "s3cret");
    assert_eq!(first, second);
    let first = validate_twilio_signature(HOOK, &fields, "nonsense", "s3cret");
    let second = validate_twilio_signature(HOOK, &fields, "nonsense", "s3cret");
    assert_eq!(first, second);
    assert_eq!(
        compute_signature(HOOK, &fields, "s3cret"),
        compute_signature(HOOK, &fields, "s3cret")
    );
}

#[test]
fn changing_any_single_value_breaks_the_signature() {
    let pairs = [("Body", "hi"), ("From", "whatsapp:+1"), ("MessageSid", "SM9")];
    let signed = form(&pairs);
    let signature = compute_signature(HOOK, &signed, "s3cret");
    assert!(validate_twilio_signature(HOOK, &signed, &signature, "s3cret"));
    for (name, value) in pairs {
        for tampered_value in [format!("{}x", value), String::new(), value.to_uppercase()] {
            if tampered_value == value {
                continue;
            }
            let mut tampered = form(&pairs);
            tampered.insert(name.to_string(), tampered_value);
            assert!(!validate_twilio_signature(HOOK, &tampered, &signature, "s3cret"));
        }
    }
}

#[test]
fn changing_the_url_breaks_the_signature() {
    let fields = form(&[("Body", "hi"), ("From", "whatsapp:+1")]);
    for url in [
        "http://example.org/hook",
        "https://example.org/hook/",
        "https://example.org/hook?x=1",
        "https://example.com/hook",
        "",
    ] {
        assert!(!validate_twilio_signature(url, &fields, HOOK_SIGNATURE, "s3cret"));
    }
}

#[test]
fn adding_or_dropping_a_field_breaks_the_signature() {
    let more = form(&[("Body", "hi"), ("From", "whatsapp:+1"), ("To", "whatsapp:+2")]);
    assert!(!validate_twilio_signature(HOOK, &more, HOOK_SIGNATURE, "s3cret"));
    let fewer = form(&[("Body", "hi")]);
    assert!(!validate_twilio_signature(HOOK, &fewer, HOOK_SIGNATURE, "s3cret"));
}

#[test]
fn empty_form_signs_the_url_alone() {
    let fields = FormParams::new();
    assert_eq!(canonical_string(HOOK, &fields), HOOK);
    assert_eq!(compute_signature(HOOK, &fields, "s3cret"), "7Dy4m/kIrGhk0HYt5NFT7XrcTWs=");
}

#[test]
fn names_are_sorted_by_their_bytes() {
    let fields = form(&[
        ("b", "1"),
        ("B", "2"),
        ("a", "3"),
        ("é", "4"),
        ("To", "x"),
        ("ToCountry", "US"),
    ]);
    assert_eq!(canonical_string(HOOK, &fields), "https://example.org/hookB2ToxToCountryUSa3b1é4");
    assert_eq!(compute_signature(HOOK, &fields, "s3cret"), "7ScNWw+TE8ePaXXw6s149WEt8b8=");
}

#[test]
fn str_before_is_the_byte_order() {
    assert!(str_before("", "a"));
    assert!(!str_before("a", ""));
    assert!(!str_before("", ""));
    assert!(!str_before("abc", "abc"));
    assert!(str_before("To", "ToCountry"));
    assert!(!str_before("ToCountry", "To"));
    assert!(str_before("B", "a"));
    assert!(!str_before("a", "B"));
    assert!(str_before("z", "é"));
    assert!(str_before("ab", "b"));
    for (a, b) in [("Body", "From"), ("x", "xy"), ("10", "9"), ("é", "ê")] {
        assert_eq!(str_before(a, b), a < b);
        assert_eq!(str_before(b, a), b < a);
    }
}

#[test]
fn insert_replaces_the_value_of_a_present_name() {
    let mut fields = FormParams::new();
    assert_eq!(fields.len(), 0);
    assert!(!fields.contains_key("Body"));
    assert_eq!(fields.get("Body"), None);
    fields.insert("Body".to_string(), "first".to_string());
    fields.insert("From".to_string(), "whatsapp:+1".to_string());
    fields.insert("Body".to_string(), "second".to_string());
    assert_eq!(fields.len(), 2);
    assert_eq!(fields.get("Body"), Some(&"second".to_string()));
    assert_eq!(fields.get("From"), Some(&"whatsapp:+1".to_string()));
    assert_eq!(fields.get("body"), None);
    assert!(fields.contains_key("From"));
    assert_eq!(fields.key_at(0), "Body");
    assert_eq!(fields.value_at(0), "second");
    assert_eq!(fields.key_at(1), "From");
    assert_eq!(fields.value_at(1), "whatsapp:+1");
}

#[test]
fn replaced_value_is_the_one_that_is_signed() {
    let mut fields = FormParams::new();
    fields.insert("Body".to_string(), "draft".to_string());
    fields.insert("From".to_string(), "whatsapp:+1".to_string());
    fields.insert("Body".to_string(), "hi".to_string());
    assert!(validate_twilio_signature(HOOK, &fields, HOOK_SIGNATURE, "s3cret"));
}

#[test]
fn tags_are_compared_by_their_base64_text() {
    let vectors: [(&str, &str); 7] = [
        ("", ""),
        ("f", "Zg=="),
        ("fo", "Zm8="),
        ("foo", "Zm9v"),
        ("foob", "Zm9vYg=="),
        ("fooba", "Zm9vYmE="),
        ("foobar", "Zm9vYmFy"),
    ];
    for (bytes, text) in vectors {
        assert!(twilio_rs::signature::tag_matches(bytes.as_bytes(), text));
        assert!(!twilio_rs::signature::tag_matches(bytes.as_bytes(), bytes) || bytes.is_empty());
    }
    assert!(twilio_rs::signature::tag_matches(&[0xfb, 0xff, 0xfe], "+//+"));
    assert!(twilio_rs::signature::tag_matches(&[0, 0, 0], "AAAA"));
    assert!(twilio_rs::signature::tag_matches(&[0xff], "/w=="));
    assert!(!twilio_rs::signature::tag_matches(&[0xff], "/w"));
    assert!(!twilio_rs::signature::tag_matches(&[0xfb, 0xff, 0xfe], "-__-"));
    assert!(!twilio_rs::signature::tag_matches(b"foo", "zm9v"));
}
