//! Authentication of inbound webhooks.
//!
//! A request is authentic when the `sha256=`-prefixed, hex-encoded
//! HMAC-SHA256 of `message_id ++ timestamp ++ body` under the shared secret
//! equals the signature header. Verification fails closed: a missing or
//! empty header value makes it false, never an error. The comparison with
//! the supplied signature is constant-time.

use vstd::prelude::*;
use vstd::string::StringExecFns;
use vstd::utf8::encode_utf8;

verus! {

/// The HMAC-SHA256 tag of `msg` under `key`: a function of the two byte
/// sequences alone.
pub uninterp spec fn hmac_sha256_of(key: Seq<u8>, msg: Seq<u8>) -> Seq<u8>;

/// Relies on `hmac::Hmac<sha2::Sha256>` (`new_from_slice`, `update`,
/// `finalize`): the tag depends on key and message alone and is 32 bytes;
/// HMAC accepts a key of any length.
#[verifier::external_body]
fn hmac_sha256(key: &[u8], msg: &[u8]) -> (r: Vec<u8>)
    ensures
        r@ == hmac_sha256_of(key@, msg@),
        r@.len() == 32,
{
    let mut mac = <hmac::Hmac<sha2::Sha256> as hmac::KeyInit>::new_from_slice(key)
        .expect("HMAC accepts keys of any length");
    hmac::Mac::update(&mut mac, msg);
    hmac::Mac::finalize(mac).into_bytes().to_vec()
}

/// Relies on `subtle::ConstantTimeEq` for `[u8]`: equality of the two byte
/// slices, false on differing lengths, computed in constant time over the
/// contents; equal UTF-8 bytes mean equal strings and conversely. The
/// routine returns early when the lengths differ, so timing can reveal at
/// most the expected signature's length — which is fixed and public (the
/// prefix plus 64 hex digits), never the secret or the tag.
#[verifier::external_body]
fn constant_time_str_eq(a: &str, b: &str) -> (r: bool)
    ensures
        r == (a@ == b@),
{
    subtle::ConstantTimeEq::ct_eq(a.as_bytes(), b.as_bytes()).into()
}

/// The lowercase hexadecimal character for a value below sixteen.
pub open spec fn hex_digit(d: nat) -> char {
    if d < 10 {
        ((48 + d) as char)
    } else {
        ((87 + d) as char)
    }
}

/// The lowercase hexadecimal rendering of a byte sequence, two characters
/// per byte.
pub open spec fn hex_of(bytes: Seq<u8>) -> Seq<char>
    decreases bytes.len(),
{
    if bytes.len() == 0 {
        Seq::empty()
    } else {
        seq![
            hex_digit((bytes[0] / 16) as nat),
            hex_digit((bytes[0] % 16) as nat),
        ] + hex_of(bytes.drop_first())
    }
}

proof fn lemma_hex_of_snoc(bytes: Seq<u8>, b: u8)
    ensures
        hex_of(bytes.push(b)) == hex_of(bytes) + seq![
            hex_digit((b / 16) as nat),
            hex_digit((b % 16) as nat),
        ],
    decreases bytes.len(),
{
    if bytes.len() == 0 {
        assert(bytes.push(b) =~= seq![b]);
        assert(hex_of(seq![b].drop_first()) =~= hex_of(Seq::<u8>::empty()));
        assert(seq![b].drop_first() =~= Seq::<u8>::empty());
        assert(hex_of(bytes.push(b)) =~= hex_of(bytes) + seq![
            hex_digit((b / 16) as nat),
            hex_digit((b % 16) as nat),
        ]);
    } else {
        assert(bytes.push(b).drop_first() =~= bytes.drop_first().push(b));
        lemma_hex_of_snoc(bytes.drop_first(), b);
        assert(hex_of(bytes.push(b)) =~= hex_of(bytes) + seq![
            hex_digit((b / 16) as nat),
            hex_digit((b % 16) as nat),
        ]);
    }
}

/// Appends the lowercase hexadecimal rendering of `bytes` to `out`.
fn push_hex(out: &mut String, bytes: &[u8])
    ensures
        final(out)@ == old(out)@ + hex_of(bytes@),
{
    let n = bytes.len();
    proof {
        assert(bytes@.take(0) =~= Seq::<u8>::empty());
        assert(out@ =~= old(out)@ + hex_of(bytes@.take(0)));
    }
    for i in 0..n
        invariant
            n == bytes@.len(),
            out@ == old(out)@ + hex_of(bytes@.take(i as int)),
    {
        let b = bytes[i];
        let hi: u8 = b / 16;
        let lo: u8 = b % 16;
        let hc: char = if hi < 10 {
            (48 + hi) as char
        } else {
            (87 + hi) as char
        };
        let lc: char = if lo < 10 {
            (48 + lo) as char
        } else {
            (87 + lo) as char
        };
        out.push(hc);
        out.push(lc);
        proof {
            assert(bytes@.take(i + 1) =~= bytes@.take(i as int).push(b));
            lemma_hex_of_snoc(bytes@.take(i as int), b);
            assert(out@ =~= old(out)@ + hex_of(bytes@.take(i + 1)));
        }
    }
    proof {
        assert(bytes@.take(n as int) =~= bytes@);
    }
}

/// The exact byte sequence that the MAC is computed over: the message id,
/// the timestamp and the raw body, concatenated and UTF-8 encoded.
pub open spec fn mac_input(message_id: Seq<char>, timestamp: Seq<char>, body: Seq<char>) -> Seq<
    u8,
> {
    encode_utf8(message_id + timestamp + body)
}

/// The signature a sender that holds `secret` puts on a message:
/// `sha256=` followed by the lowercase hex of the HMAC-SHA256 tag.
pub open spec fn expected_signature(
    secret: Seq<char>,
    message_id: Seq<char>,
    timestamp: Seq<char>,
    body: Seq<char>,
) -> Seq<char> {
    "sha256="@ + hex_of(hmac_sha256_of(encode_utf8(secret), mac_input(message_id, timestamp, body)))
}

/// Computes the signature that `verify` accepts for this message: what the
/// platform sends when it signs `message_id ++ timestamp ++ body` with the
/// shared secret.
pub fn signature_for(secret: &str, message_id: &str, timestamp: &str, body: &str) -> (r: String)
    ensures
        r@ == expected_signature(secret@, message_id@, timestamp@, body@),
{
    let mut input = message_id.to_owned();
    input.append(timestamp);
    input.append(body);
    let tag = hmac_sha256(secret.as_bytes(), input.as_str().as_bytes());
    let mut out = "sha256=".to_owned();
    push_hex(&mut out, tag.as_slice());
    out
}

/// Whether the supplied headers authenticate `body` under `secret`: all
/// three header values present and non-empty, and the signature equal to
/// the expected one.
pub open spec fn verify_ok(
    signature: Option<Seq<char>>,
    message_id: Option<Seq<char>>,
    timestamp: Option<Seq<char>>,
    body: Seq<char>,
    secret: Seq<char>,
) -> bool {
    &&& signature matches Some(sig) && sig.len() > 0
    &&& message_id matches Some(id) && id.len() > 0
    &&& timestamp matches Some(ts) && ts.len() > 0
    &&& signature->0 == expected_signature(secret, message_id->0, timestamp->0, body)
}

/// Verifies the signature header against the one computed from the shared
/// secret and the message: true exactly on authentic requests, false when a
/// header is missing or empty. Pure and deterministic; the comparison is
/// constant-time.
pub fn verify(
    signature: Option<&str>,
    message_id: Option<&str>,
    timestamp: Option<&str>,
    body: &str,
    secret: &str,
) -> (r: bool)
    ensures
        r == verify_ok(
            view_opt_str(signature),
            view_opt_str(message_id),
            view_opt_str(timestamp),
            body@,
            secret@,
        ),
{
    let sig = match signature {
        Some(s) => s,
        None => return false,
    };
    let id = match message_id {
        Some(s) => s,
        None => return false,
    };
    let ts = match timestamp {
        Some(s) => s,
        None => return false,
    };
    if sig.is_empty() || id.is_empty() || ts.is_empty() {
        return false;
    }
    let expected = signature_for(secret, id, ts, body);
    constant_time_str_eq(sig, expected.as_str())
}

/// The character sequences behind an optional header value.
pub open spec fn view_opt_str(s: Option<&str>) -> Option<Seq<char>> {
    match s {
        Some(v) => Some(v@),
        None => None,
    }
}

/// Verification fails closed: with any of the three required header values
/// absent or empty, no message verifies — whatever the body, the secret and
/// the other headers hold.
pub proof fn lemma_verify_fails_closed(
    signature: Option<Seq<char>>,
    message_id: Option<Seq<char>>,
    timestamp: Option<Seq<char>>,
    body: Seq<char>,
    secret: Seq<char>,
)
    requires
        signature is None || signature == Some(Seq::<char>::empty()) || message_id is None
            || message_id == Some(Seq::<char>::empty()) || timestamp is None || timestamp == Some(
            Seq::<char>::empty(),
        ),
    ensures
        !verify_ok(signature, message_id, timestamp, body, secret),
{
}

/// A message carrying the correctly computed signature verifies, for every
/// secret, message id, timestamp and body with the ids and timestamps
/// non-empty that the scheme admits.
pub proof fn lemma_correct_signature_verifies(
    message_id: Seq<char>,
    timestamp: Seq<char>,
    body: Seq<char>,
    secret: Seq<char>,
)
    requires
        message_id.len() > 0,
        timestamp.len() > 0,
    ensures
        verify_ok(
            Some(expected_signature(secret, message_id, timestamp, body)),
            Some(message_id),
            Some(timestamp),
            body,
            secret,
        ),
{
    reveal_strlit("sha256=");
    assert(expected_signature(secret, message_id, timestamp, body).len() >= "sha256="@.len());
}

/// A signature altered in any way — any flipped byte of it — is rejected:
/// verification accepts exactly the one expected signature for a given
/// secret, message id, timestamp and body.
pub proof fn lemma_altered_signature_rejected(
    signature: Seq<char>,
    message_id: Seq<char>,
    timestamp: Seq<char>,
    body: Seq<char>,
    secret: Seq<char>,
)
    requires
        signature != expected_signature(secret, message_id, timestamp, body),
    ensures
        !verify_ok(Some(signature), Some(message_id), Some(timestamp), body, secret),
{
}

} // verus!
