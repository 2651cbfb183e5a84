//! Webhook signature verification: hex framing of the presented signature
//! and the keyed-hash check against the shared secret.

use vstd::prelude::*;
use vstd::string::*;
use vstd::utf8::encode_utf8;

verus! {

/// Value of one hexadecimal digit, in either letter case; `None` for any
/// other character.
pub open spec fn hex_digit_value(c: char) -> Option<int> {
    if '0' <= c && c <= '9' {
        Some(c as int - '0' as int)
    } else if 'a' <= c && c <= 'f' {
        Some(c as int - 'a' as int + 10)
    } else if 'A' <= c && c <= 'F' {
        Some(c as int - 'A' as int + 10)
    } else {
        None
    }
}

/// The lowercase hexadecimal digit that stands for `n`, for `0 <= n < 16`.
pub open spec fn hex_digit_char(n: int) -> char {
    if n < 10 {
        ('0' as int + n) as char
    } else {
        ('a' as int + n - 10) as char
    }
}

/// A well-formed hex string: an even number of characters, each of them a
/// hexadecimal digit.
pub open spec fn is_hex_string(s: Seq<char>) -> bool {
    &&& s.len() % 2 == 0
    &&& forall|i: int| 0 <= i < s.len() ==> (#[trigger] hex_digit_value(s[i])) is Some
}

/// The byte that the digit pair at positions `2 * i` and `2 * i + 1` spells.
pub open spec fn hex_pair_value(s: Seq<char>, i: int) -> u8 {
    (16 * hex_digit_value(s[2 * i]).unwrap() + hex_digit_value(s[2 * i + 1]).unwrap()) as u8
}

/// The bytes that a well-formed hex string spells, high digit first.
pub open spec fn hex_decode(s: Seq<char>) -> Seq<u8> {
    Seq::new((s.len() / 2) as nat, |i: int| hex_pair_value(s, i))
}

/// The lowercase hex spelling of `bytes`: two digits per byte, high digit
/// first.
pub open spec fn hex_encode(bytes: Seq<u8>) -> Seq<char> {
    Seq::new(
        2 * bytes.len(),
        |i: int|
            if i % 2 == 0 {
                hex_digit_char(bytes[i / 2] as int / 16)
            } else {
                hex_digit_char(bytes[i / 2] as int % 16)
            },
    )
}

/// HMAC-SHA256 of `message` under `key`, as RFC 2104 and FIPS 180-4 define
/// it. The function is left without a body: the library computes it only
/// through the `hmac` and `sha2` crates.
pub uninterp spec fn hmac_sha256(key: Seq<u8>, message: Seq<u8>) -> Seq<u8>;

#[verifier::external_type_specification]
#[verifier::external_body]
pub struct ExFromHexError(hex::FromHexError);

/// Calls `hex::decode`. Trusted: the call succeeds exactly on strings of
/// even length made of hexadecimal digits in either case, and then returns
/// one byte per digit pair, high digit first. A character outside ASCII
/// never decodes, since each of its UTF-8 bytes is above `0x7f`.
#[verifier::external_body]
fn decode_hex(text: &str) -> (decoded: Result<Vec<u8>, hex::FromHexError>)
    ensures
        decoded is Ok <==> is_hex_string(text@),
        decoded is Ok ==> decoded->Ok_0@ == hex_decode(text@),
{
    hex::decode(text)
}

/// Calls `hex::encode`. Trusted: the result spells each byte as two
/// lowercase hexadecimal digits, high digit first.
#[verifier::external_body]
fn encode_hex(bytes: &[u8]) -> (text: String)
    ensures
        text@ == hex_encode(bytes@),
{
    hex::encode(bytes)
}

/// Computes an HMAC-SHA256 tag with `hmac::Hmac<sha2::Sha256>`: keys the
/// MAC with `Mac::new_from_slice`, feeds it `message` and takes
/// `Mac::finalize`. Trusted: the bytes returned are the tag of `message`
/// under `key`. HMAC takes a key of any length, so keying never fails.
#[verifier::external_body]
fn compute_tag(key: &[u8], message: &[u8]) -> (tag: Vec<u8>)
    ensures
        tag@ == hmac_sha256(key@, message@),
{
    let mut mac = <hmac::Hmac<sha2::Sha256> as hmac::Mac>::new_from_slice(key).unwrap();
    hmac::Mac::update(&mut mac, message);
    hmac::Mac::finalize(mac).into_bytes().to_vec()
}

/// Checks a presented tag with `Mac::verify_slice` of
/// `hmac::Hmac<sha2::Sha256>`, which compares in constant time. Trusted: the
/// answer is `true` exactly when `presented` is the tag of `message` under
/// `key`, and only a tag of 32 bytes, the output size of SHA-256, is ever
/// accepted.
#[verifier::external_body]
fn tag_matches(key: &[u8], message: &[u8], presented: &[u8]) -> (matches: bool)
    ensures
        matches == (presented@ == hmac_sha256(key@, message@)),
        matches ==> presented@.len() == 32,
{
    let mut mac = <hmac::Hmac<sha2::Sha256> as hmac::Mac>::new_from_slice(key).unwrap();
    hmac::Mac::update(&mut mac, message);
    hmac::Mac::verify_slice(mac, presented).is_ok()
}

/// The scheme tag that precedes the hex digits in a signature header.
pub const SIGNATURE_SCHEME_TAG: &'static str = "sha256=";

/// The scheme tag as a sequence of characters.
pub open spec fn scheme_tag() -> Seq<char> {
    SIGNATURE_SCHEME_TAG@
}

/// Whether `s` begins with the scheme tag.
pub open spec fn has_scheme_tag(s: Seq<char>) -> bool {
    s.len() >= scheme_tag().len() && s.subrange(0, scheme_tag().len() as int) == scheme_tag()
}

/// `s` with every leading repetition of the scheme tag removed.
pub open spec fn strip_tag(s: Seq<char>) -> Seq<char>
    decreases s.len(),
{
    if scheme_tag().len() > 0 && has_scheme_tag(s) {
        strip_tag(s.skip(scheme_tag().len() as int))
    } else {
        s
    }
}

/// Why a presented signature was refused.
#[derive(Clone, Copy, Debug, PartialEq, Eq, Structural)]
pub enum SignatureError {
    /// No shared secret is configured, so nothing can be authenticated.
    MissingSecret,
    /// The presented signature is not a well-formed hex string.
    MalformedHex,
    /// The presented signature is not the tag of the payload.
    Mismatch,
}

impl SignatureError {
    /// The text of each refusal.
    pub open spec fn description(self) -> Seq<char> {
        match self {
            SignatureError::MissingSecret => "Webhook secret is not configured"@,
            SignatureError::MalformedHex => "Signature is not valid hex"@,
            SignatureError::Mismatch => "Invalid signature"@,
        }
    }

    /// A human-readable cause for the refusal.
    pub fn describe(&self) -> (text: &'static str)
        ensures
            text@ == self.description(),
    {
        match self {
            SignatureError::MissingSecret => "Webhook secret is not configured",
            SignatureError::MalformedHex => "Signature is not valid hex",
            SignatureError::Mismatch => "Invalid signature",
        }
    }
}

/// The tag that authenticates `payload` under `secret`: the HMAC-SHA256 of
/// the payload bytes, keyed with the UTF-8 bytes of the secret.
pub open spec fn expected_tag(payload: Seq<u8>, secret: Seq<char>) -> Seq<u8> {
    hmac_sha256(encode_utf8(secret), payload)
}

/// The verdict on a presented signature (scheme tag already removed).
///
/// An empty secret authenticates nothing; otherwise the signature must be
/// well-formed hex, and must spell the expected tag.
pub open spec fn verification(payload: Seq<u8>, signature: Seq<char>, secret: Seq<char>) -> Result<
    (),
    SignatureError,
> {
    if secret.len() == 0 {
        Err(SignatureError::MissingSecret)
    } else if !is_hex_string(signature) {
        Err(SignatureError::MalformedHex)
    } else if hex_decode(signature) != expected_tag(payload, secret) {
        Err(SignatureError::Mismatch)
    } else {
        Ok(())
    }
}

/// The header value that authenticates `payload` under `secret`: the scheme
/// tag followed by the lowercase hex spelling of the expected tag.
pub open spec fn signature_header(payload: Seq<u8>, secret: Seq<char>) -> Seq<char> {
    scheme_tag() + hex_encode(expected_tag(payload, secret))
}

/// Whether `text` begins with the scheme tag.
pub fn starts_with_scheme_tag(text: &str) -> (found: bool)
    ensures
        found == has_scheme_tag(text@),
{
    proof {
        reveal_strlit("sha256=");
    }
    let tag = SIGNATURE_SCHEME_TAG;
    let tag_len: usize = tag.unicode_len();
    let text_len: usize = text.unicode_len();
    if text_len < tag_len {
        return false;
    }
    let mut i: usize = 0;
    while i < tag_len
        invariant
            tag@ == scheme_tag(),
            tag_len == tag@.len(),
            text_len == text@.len(),
            tag_len <= text_len,
            i <= tag_len,
            forall|j: int| 0 <= j < i ==> text@[j] == tag@[j],
        decreases tag_len - i,
    {
        if text.get_char(i) != tag.get_char(i) {
            assert(text@.subrange(0, tag_len as int)[i as int] != tag@[i as int]);
            return false;
        }
        i = i + 1;
    }
    assert(text@.subrange(0, tag_len as int) =~= tag@);
    true
}

/// Removes the scheme tag from the front of a signature header, as often
/// as it stands there. A header without the tag is returned whole.
pub fn strip_scheme_tag<'a>(header: &'a str) -> (rest: &'a str)
    ensures
        rest@ == strip_tag(header@),
{
    proof {
        reveal_strlit("sha256=");
    }
    let tag_len: usize = SIGNATURE_SCHEME_TAG.unicode_len();
    let mut rest = header;
    let mut remaining: usize = rest.unicode_len();
    while starts_with_scheme_tag(rest)
        invariant
            tag_len == scheme_tag().len(),
            tag_len > 0,
            remaining == rest@.len(),
            strip_tag(rest@) == strip_tag(header@),
        decreases remaining,
    {
        assert(rest@.skip(tag_len as int) =~= rest@.subrange(tag_len as int, remaining as int));
        rest = rest.substring_char(tag_len, remaining);
        remaining = remaining - tag_len;
    }
    rest
}

/// Checks a presented signature against the raw payload bytes.
///
/// `signature` is the hex part of the header, without the scheme tag. The
/// tag is recomputed over `payload` exactly as it was received and compared
/// in constant time. Nothing here panics: a signature that is not hex, or
/// spells a tag of the wrong length, is an ordinary refusal. An accepted
/// signature has 64 digits, two for each of the 32 bytes of the tag.
pub fn verify_signature(payload: &[u8], signature: &str, secret: &str) -> (verdict: Result<
    (),
    SignatureError,
>)
    ensures
        verdict == verification(payload@, signature@, secret@),
        verdict is Ok ==> signature@.len() == 64,
{
    if secret.is_empty() {
        return Err(SignatureError::MissingSecret);
    }
    let presented = match decode_hex(signature) {
        Ok(bytes) => bytes,
        Err(_) => {
            return Err(SignatureError::MalformedHex);
        },
    };
    if tag_matches(secret.as_bytes(), payload, presented.as_slice()) {
        Ok(())
    } else {
        Err(SignatureError::Mismatch)
    }
}

/// Produces the signature header for `payload` under `secret`.
pub fn sign(payload: &[u8], secret: &str) -> (header: String)
    ensures
        header@ == signature_header(payload@, secret@),
{
    let tag = compute_tag(secret.as_bytes(), payload);
    let digits = encode_hex(tag.as_slice());
    let mut header = String::from_str(SIGNATURE_SCHEME_TAG);
    header.append(digits.as_str());
    header
}

/// Encoding bytes as hex and decoding the digits gives the bytes back.
pub proof fn lemma_hex_round_trip(bytes: Seq<u8>)
    ensures
        is_hex_string(hex_encode(bytes)),
        hex_decode(hex_encode(bytes)) == bytes,
{
    let text = hex_encode(bytes);
    assert forall|i: int| 0 <= i < text.len() implies (#[trigger] hex_digit_value(text[i])) is Some by {
        let b = bytes[i / 2] as int;
        assert(0 <= b / 16 < 16 && 0 <= b % 16 < 16);
    }
    assert forall|i: int| 0 <= i < bytes.len() implies hex_decode(text)[i] == bytes[i] by {
        let b = bytes[i] as int;
        assert((2 * i) / 2 == i && (2 * i) % 2 == 0);
        assert((2 * i + 1) / 2 == i && (2 * i + 1) % 2 == 1);
        assert(text[2 * i] == hex_digit_char(b / 16));
        assert(text[2 * i + 1] == hex_digit_char(b % 16));
        assert(0 <= b / 16 < 16 && 0 <= b % 16 < 16);
        assert(16 * (b / 16) + b % 16 == b);
    }
    assert(hex_decode(text) =~= bytes);
}

/// Hex digits never begin with the scheme tag, so stripping the tag from a
/// tagged hex spelling leaves exactly the digits.
pub proof fn lemma_strip_tagged_hex(bytes: Seq<u8>)
    ensures
        strip_tag(scheme_tag() + hex_encode(bytes)) == hex_encode(bytes),
{
    reveal_strlit("sha256=");
    let digits = hex_encode(bytes);
    let tagged = scheme_tag() + digits;
    let n = scheme_tag().len() as int;
    assert(tagged.subrange(0, n) =~= scheme_tag());
    assert(tagged.skip(n) =~= digits);
    if has_scheme_tag(digits) {
        assert(digits.subrange(0, n)[0] == scheme_tag()[0]);
        assert(digits[0] == 's');
        assert(0 <= bytes[0] as int / 16 < 16);
        assert(hex_digit_value(digits[0]) is Some);
    }
    assert(strip_tag(digits) == digits);
    assert(strip_tag(tagged) == strip_tag(tagged.skip(n)));
}

/// Every signature issued by [`sign`] verifies: for any payload and any
/// non-empty secret, the issued header, once its scheme tag is removed, is
/// accepted for that payload and secret.
pub proof fn law_issued_signature_verifies(payload: Seq<u8>, secret: Seq<char>)
    requires
        secret.len() > 0,
    ensures
        verification(payload, strip_tag(signature_header(payload, secret)), secret) is Ok,
{
    lemma_strip_tagged_hex(expected_tag(payload, secret));
    lemma_hex_round_trip(expected_tag(payload, secret));
}

/// Two hex strings have the same digit value at every position.
pub open spec fn same_digits(a: Seq<char>, b: Seq<char>) -> bool {
    &&& a.len() == b.len()
    &&& forall|i: int| 0 <= i < a.len() ==> hex_digit_value(#[trigger] a[i]) == hex_digit_value(b[i])
}

/// Well-formed hex strings that spell the same bytes agree digit for digit.
proof fn lemma_equal_bytes_same_digits(a: Seq<char>, b: Seq<char>)
    requires
        is_hex_string(a),
        is_hex_string(b),
        hex_decode(a) == hex_decode(b),
    ensures
        same_digits(a, b),
{
    assert(hex_decode(a).len() == a.len() / 2);
    assert(hex_decode(b).len() == b.len() / 2);
    assert(a.len() == b.len());
    assert forall|i: int| 0 <= i < a.len() implies hex_digit_value(#[trigger] a[i])
        == hex_digit_value(b[i]) by {
        let k = i / 2;
        assert(0 <= k < a.len() / 2);
        assert(hex_decode(a)[k] == hex_pair_value(a, k));
        assert(hex_decode(b)[k] == hex_pair_value(b, k));
        lemma_pair_digits(a, k);
        lemma_pair_digits(b, k);
        assert(i == 2 * k || i == 2 * k + 1);
    }
}

/// A string that agrees digit for digit with a well-formed hex string is
/// itself well formed and spells the same bytes.
proof fn lemma_same_digits_equal_bytes(a: Seq<char>, b: Seq<char>)
    requires
        is_hex_string(b),
        same_digits(a, b),
    ensures
        is_hex_string(a),
        hex_decode(a) == hex_decode(b),
{
    assert forall|i: int| 0 <= i < a.len() implies (#[trigger] hex_digit_value(a[i])) is Some by {
        assert(hex_digit_value(b[i]) is Some);
    }
    assert forall|k: int| 0 <= k < hex_decode(a).len() implies hex_decode(a)[k] == hex_decode(
        b,
    )[k] by {
        assert(hex_digit_value(a[2 * k]) == hex_digit_value(b[2 * k]));
        assert(hex_digit_value(a[2 * k + 1]) == hex_digit_value(b[2 * k + 1]));
    }
    assert(hex_decode(a) =~= hex_decode(b));
}

/// A signature is accepted only if it spells the expected tag digit for
/// digit: it has the length of the issued digits, and at every position its
/// digit has the value of the issued one. Changing a digit to one of another
/// value, or adding or removing a character, therefore leads to refusal;
/// only the letter case of a digit is free.
pub proof fn law_accepted_signature_spells_tag(
    payload: Seq<u8>,
    signature: Seq<char>,
    secret: Seq<char>,
)
    ensures
        verification(payload, signature, secret) is Ok <==> secret.len() > 0 && same_digits(
            signature,
            hex_encode(expected_tag(payload, secret)),
        ),
{
    let tag = expected_tag(payload, secret);
    let issued = hex_encode(tag);
    lemma_hex_round_trip(tag);
    if verification(payload, signature, secret) is Ok {
        lemma_equal_bytes_same_digits(signature, issued);
    }
    if secret.len() > 0 && same_digits(signature, issued) {
        lemma_same_digits_equal_bytes(signature, issued);
    }
}

/// In a well-formed hex string the byte spelled by a digit pair determines
/// both digit values.
proof fn lemma_pair_digits(s: Seq<char>, k: int)
    requires
        is_hex_string(s),
        0 <= k < s.len() / 2,
    ensures
        hex_digit_value(s[2 * k]) == Some(hex_pair_value(s, k) as int / 16),
        hex_digit_value(s[2 * k + 1]) == Some(hex_pair_value(s, k) as int % 16),
{
    let hi = hex_digit_value(s[2 * k]);
    let lo = hex_digit_value(s[2 * k + 1]);
    assert(hi is Some && lo is Some);
    assert(0 <= hi.unwrap() < 16 && 0 <= lo.unwrap() < 16);
}

/// A signature issued for one payload is refused for any payload with a
/// different tag under the same secret.
pub proof fn law_signature_binds_payload(payload: Seq<u8>, other: Seq<u8>, secret: Seq<char>)
    requires
        secret.len() > 0,
        expected_tag(other, secret) != expected_tag(payload, secret),
    ensures
        verification(other, strip_tag(signature_header(payload, secret)), secret) == Err::<
            (),
            SignatureError,
        >(SignatureError::Mismatch),
{
    lemma_strip_tagged_hex(expected_tag(payload, secret));
    lemma_hex_round_trip(expected_tag(payload, secret));
}

} // verus!
