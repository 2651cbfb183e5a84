use github_notification_service::signature::{
    sign, starts_with_scheme_tag, strip_scheme_tag, verify_signature, SignatureError,
    SIGNATURE_SCHEME_TAG,
};

const FOX: &[u8] = b"The quick brown fox jumps over the lazy dog";
const FOX_TAG: &str = "f7bc83f430538424b13298e6aa6fb143ef4d59a14946175997479dbc2d1a3cd8";

#[test]
fn sign_gives_the_tagged_hex_of_the_known_vector() {
    assert_eq!(sign(FOX, "key"), format!("sha256={}", FOX_TAG));
}

#[test]
fn sign_depends_on_payload_and_secret() {
    let base = sign(b"payload", "secret");
    assert_ne!(base, sign(b"payloae", "secret"));
    assert_ne!(base, sign(b"payload", "secres"));
    assert_eq!(base, sign(b"payload", "secret"));
    assert_eq!(base.len(), SIGNATURE_SCHEME_TAG.len() + 64);
}

#[test]
fn known_vector_verifies() {
    assert_eq!(verify_signature(FOX, FOX_TAG, "key"), Ok(()));
}

#[test]
fn issued_signature_verifies() {
    let payloads: Vec<&[u8]> = vec![b"", b"{}", b"{\"action\":\"followed\"}", &[0u8, 255, 7, 128]];
    let secrets = vec!["s", "secret", "a much longer secret, longer than one block of the hash, which is sixty-four bytes", "s\u{e9}cret"];
    for payload in payloads.iter() {
        for secret in secrets.iter() {
            let header = sign(payload, secret);
            assert_eq!(verify_signature(payload, strip_scheme_tag(&header), secret), Ok(()));
        }
    }
}

#[test]
fn flipping_any_payload_bit_is_refused() {
    let payload = b"{\"action\":\"followed\"}".to_vec();
    let header = sign(&payload, "secret");
    let signature = strip_scheme_tag(&header);
    for i in 0..payload.len() {
        for bit in 0..8 {
            let mut tampered = payload.clone();
            tampered[i] ^= 1 << bit;
            assert_eq!(
                verify_signature(&tampered, signature, "secret"),
                Err(SignatureError::Mismatch)
            );
        }
    }
}

#[test]
fn changing_any_digit_value_is_refused() {
    let header = sign(b"payload", "secret");
    let signature = strip_scheme_tag(&header).to_string();
    for i in 0..signature.len() {
        let mut digits: Vec<char> = signature.chars().collect();
        digits[i] = if digits[i] == '0' { '1' } else { '0' };
        let altered: String = digits.into_iter().collect();
        assert_eq!(
            verify_signature(b"payload", &altered, "secret"),
            Err(SignatureError::Mismatch)
        );
    }
}

#[test]
fn letter_case_of_digits_is_free() {
    let upper = FOX_TAG.to_uppercase();
    assert_ne!(upper, FOX_TAG);
    assert_eq!(verify_signature(FOX, &upper, "key"), Ok(()));
}

#[test]
fn wrong_secret_is_refused() {
    assert_eq!(verify_signature(FOX, FOX_TAG, "kez"), Err(SignatureError::Mismatch));
}

#[test]
fn tag_of_wrong_length_is_refused() {
    assert_eq!(verify_signature(FOX, "", "key"), Err(SignatureError::Mismatch));
    assert_eq!(verify_signature(FOX, "f7bc", "key"), Err(SignatureError::Mismatch));
    let longer = format!("{}00", FOX_TAG);
    assert_eq!(verify_signature(FOX, &longer, "key"), Err(SignatureError::Mismatch));
    assert_eq!(verify_signature(FOX, &FOX_TAG[..62], "key"), Err(SignatureError::Mismatch));
}

#[test]
fn malformed_hex_is_refused() {
    assert_eq!(verify_signature(FOX, "abc", "key"), Err(SignatureError::MalformedHex));
    assert_eq!(verify_signature(FOX, "zz", "key"), Err(SignatureError::MalformedHex));
    assert_eq!(verify_signature(FOX, "0g", "key"), Err(SignatureError::MalformedHex));
    assert_eq!(verify_signature(FOX, " f7b", "key"), Err(SignatureError::MalformedHex));
    assert_eq!(verify_signature(FOX, "\u{e9}", "key"), Err(SignatureError::MalformedHex));
    assert_eq!(verify_signature(FOX, "\u{e9}a", "key"), Err(SignatureError::MalformedHex));
    let tagged = format!("sha256={}", FOX_TAG);
    assert_eq!(verify_signature(FOX, &tagged, "key"), Err(SignatureError::MalformedHex));
}

#[test]
fn empty_secret_authenticates_nothing() {
    let header = sign(b"payload", "");
    assert_eq!(
        verify_signature(b"payload", strip_scheme_tag(&header), ""),
        Err(SignatureError::MissingSecret)
    );
    assert_eq!(verify_signature(b"payload", "zz", ""), Err(SignatureError::MissingSecret));
}

#[test]
fn scheme_tag_is_stripped_as_often_as_it_leads() {
    assert_eq!(strip_scheme_tag("sha256=abcd"), "abcd");
    assert_eq!(strip_scheme_tag("abcd"), "abcd");
    assert_eq!(strip_scheme_tag("sha256=sha256=abcd"), "abcd");
    assert_eq!(strip_scheme_tag("sha256="), "");
    assert_eq!(strip_scheme_tag(""), "");
    assert_eq!(strip_scheme_tag("sha256"), "sha256");
    assert_eq!(strip_scheme_tag("sha25=ab"), "sha25=ab");
    assert_eq!(strip_scheme_tag("SHA256=ab"), "SHA256=ab");
    assert_eq!(strip_scheme_tag("absha256="), "absha256=");
    assert_eq!(strip_scheme_tag("sha256=\u{e9}sha256="), "\u{e9}sha256=");
}

#[test]
fn scheme_tag_is_recognised_only_at_the_front() {
    assert!(starts_with_scheme_tag("sha256="));
    assert!(starts_with_scheme_tag("sha256=00"));
    assert!(!starts_with_scheme_tag("sha256"));
    assert!(!starts_with_scheme_tag(" sha256="));
    assert!(!starts_with_scheme_tag(""));
    assert!(!starts_with_scheme_tag("sha257=00"));
}

#[test]
fn refusals_describe_themselves() {
    assert_eq!(SignatureError::Mismatch.describe(), "Invalid signature");
    assert_eq!(SignatureError::MalformedHex.describe(), "Signature is not valid hex");
    assert_eq!(SignatureError::MissingSecret.describe(), "Webhook secret is not configured");
}
