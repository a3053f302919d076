//! Push notifications from the git host: signature verification and routing.
use vstd::prelude::*;
use vstd::string::*;
use hmac::{Hmac, Mac};
use sha2::Sha256;
use crate::models::{branch_of_ref, GitHubPushEvent};
use crate::scheduler::Job;
use crate::text::same_text;

verus! {

/// What HMAC-SHA256 yields for a key and a message.
pub uninterp spec fn hmac_sha256_of(key: Seq<u8>, msg: Seq<u8>) -> Seq<u8>;

/// ASCII code of the lower-case hex digit for `d` (`d < 16`).
pub open spec fn hex_digit(d: nat) -> u8 {
    if d < 10 {
        (48 + d) as u8
    } else {
        (87 + d) as u8
    }
}

/// Lower-case hex text of bytes, two digits per byte, as ASCII codes.
pub open spec fn hex_text(b: Seq<u8>) -> Seq<u8>
    decreases b.len(),
{
    if b.len() == 0 {
        Seq::empty()
    } else {
        hex_text(b.drop_last()) + seq![
            hex_digit((b.last() / 16) as nat),
            hex_digit((b.last() % 16) as nat),
        ]
    }
}

/// `sha256=`
pub open spec fn signature_prefix() -> Seq<u8> {
    seq![115u8, 104u8, 97u8, 50u8, 53u8, 54u8, 61u8]
}

/// The signature header without its optional `sha256=` prefix.
pub open spec fn signature_digest(sig: Seq<u8>) -> Seq<u8> {
    if sig.len() >= 7 && sig.subrange(0, 7) == signature_prefix() {
        sig.subrange(7, sig.len() as int)
    } else {
        sig
    }
}

/// A signature header value accepted for the expected hex digest.
pub open spec fn signature_ok(sig: Seq<u8>, expected_hex: Seq<u8>) -> bool {
    signature_digest(sig) == expected_hex
}

/// The hex digest a body must be signed with under a secret.
pub open spec fn expected_signature(secret: Seq<u8>, body: Seq<u8>) -> Seq<u8> {
    hex_text(hmac_sha256_of(secret, body))
}

/// Relies on `Hmac::<Sha256>::new_from_slice`, `Mac::update` and
/// `Mac::finalize`: HMAC-SHA256 of `msg` under `key`. `new_from_slice`
/// accepts keys of every length.
#[verifier::external_body]
fn hmac_sha256(key: &[u8], msg: &[u8]) -> (r: Option<Vec<u8>>)
    ensures
        r is Some,
        r.unwrap()@ == hmac_sha256_of(key@, msg@),
{
    let mut mac = <Hmac<Sha256> as Mac>::new_from_slice(key).ok()?;
    mac.update(msg);
    Some(mac.finalize().into_bytes().to_vec())
}

/// Relies on `hex::encode`: two lower-case hex digits per byte, as the
/// bytes of the returned string.
#[verifier::external_body]
fn hex_encode(b: &[u8]) -> (r: Vec<u8>)
    ensures
        r@ == hex_text(b@),
{
    hex::encode(b).into_bytes()
}

proof fn lemma_or_xor_zero(acc: u8, x: u8, y: u8)
    ensures
        (acc | (x ^ y)) == 0 <==> (acc == 0 && x == y),
{
    assert((acc | (x ^ y)) == 0 <==> (acc == 0 && x == y)) by (bit_vector);
}

/// Equality of two byte strings that looks at every byte when the lengths
/// agree: the differences are OR-ed together and tested once at the end.
pub fn constant_time_eq(a: &[u8], b: &[u8]) -> (r: bool)
    ensures
        r == (a@ == b@),
{
    if a.len() != b.len() {
        return false;
    }
    let mut acc: u8 = 0;
    let mut i: usize = 0;
    while i < a.len()
        invariant
            a@.len() == b@.len(),
            i <= a@.len(),
            (acc == 0) <==> (forall|k: int| 0 <= k < i ==> a@[k] == b@[k]),
        decreases a@.len() - i,
    {
        let x = a[i];
        let y = b[i];
        proof {
            lemma_or_xor_zero(acc, x, y);
        }
        acc = acc | (x ^ y);
        i = i + 1;
    }
    proof {
        if acc == 0 {
            assert(a@ =~= b@);
        }
    }
    acc == 0
}

/// Whether a signature header value matches the expected hex digest; the
/// `sha256=` prefix is optional.
pub fn signature_matches(signature: &[u8], expected_hex: &[u8]) -> (r: bool)
    ensures
        r == signature_ok(signature@, expected_hex@),
{
    let n = signature.len();
    let has_prefix = n >= 7 && signature[0] == 115u8 && signature[1] == 104u8 && signature[2]
        == 97u8 && signature[3] == 50u8 && signature[4] == 53u8 && signature[5] == 54u8
        && signature[6] == 61u8;
    proof {
        if n >= 7 {
            let p = signature@.subrange(0, 7);
            if p == signature_prefix() {
                assert(p[0] == signature@[0] && p[1] == signature@[1] && p[2] == signature@[2]);
                assert(p[3] == signature@[3] && p[4] == signature@[4] && p[5] == signature@[5]);
                assert(p[6] == signature@[6]);
            }
            if has_prefix {
                assert(p =~= signature_prefix());
            }
        }
    }
    if has_prefix {
        let mut digest: Vec<u8> = Vec::new();
        let mut i: usize = 7;
        while i < n
            invariant
                n == signature@.len(),
                7 <= i <= n,
                digest@ == signature@.subrange(7, i as int),
            decreases n - i,
        {
            digest.push(signature[i]);
            proof {
                assert(signature@.subrange(7, i + 1) == signature@.subrange(7, i as int).push(
                    signature@[i as int],
                ));
            }
            i = i + 1;
        }
        constant_time_eq(digest.as_slice(), expected_hex)
    } else {
        constant_time_eq(signature, expected_hex)
    }
}

/// Result of checking a push notification's signature.
#[derive(Debug, Clone, Copy, PartialEq, Eq, Structural)]
pub enum SignatureCheck {
    /// The header matches the body under the secret.
    Valid,
    /// No signature header was sent; the notification is accepted.
    Missing,
    /// The header does not match.
    Invalid,
    /// The HMAC could not be set up.
    HmacFailure,
}

/// Checks the `x-hub-signature-256` header value (if any) against the
/// HMAC-SHA256 of the body under the project's secret (its UTF-8 bytes).
pub fn verify_signature(secret: &str, body: &[u8], signature: Option<&[u8]>) -> (r: SignatureCheck)
    ensures
        signature is None ==> r == SignatureCheck::Missing,
        signature matches Some(s) ==> (r == SignatureCheck::Valid <==> signature_ok(
            s@,
            expected_signature(secret.spec_bytes(), body@),
        )),
        signature matches Some(s) ==> (r == SignatureCheck::Invalid <==> !signature_ok(
            s@,
            expected_signature(secret.spec_bytes(), body@),
        )),
{
    match signature {
        None => SignatureCheck::Missing,
        Some(sig) => {
            let key = secret.as_bytes_vec();
            match hmac_sha256(key.as_slice(), body) {
                None => SignatureCheck::HmacFailure,
                Some(mac) => {
                    let expected = hex_encode(mac.as_slice());
                    if signature_matches(sig, expected.as_slice()) {
                        SignatureCheck::Valid
                    } else {
                        SignatureCheck::Invalid
                    }
                },
            }
        },
    }
}

/// The rebuild a push asks for: one of the project when the pushed ref is
/// the head of its tracked branch, none otherwise.
pub fn route_push(slug: &str, tracked_branch: &str, event: &GitHubPushEvent) -> (r: Option<Job>)
    ensures
        r is Some <==> branch_of_ref(event.git_ref@) == Some(tracked_branch@),
        r matches Some(j) ==> (j matches Job::Rebuild { slug: s, commit_sha: Some(c) } && s@
            == slug@ && c@ == event.after@),
{
    match event.branch() {
        Some(b) => {
            if same_text(b, tracked_branch) {
                Some(
                    Job::Rebuild {
                        slug: String::from_str(slug),
                        commit_sha: Some(event.after.clone()),
                    },
                )
            } else {
                None
            }
        },
        None => None,
    }
}

/// HTTP status of each way a notification can end.
#[derive(Debug, Clone, Copy, PartialEq, Eq, Structural)]
pub enum WebhookReply {
    Accepted,
    BadPayload,
    Unauthorized,
    NotFound,
    HmacFailure,
}

impl WebhookReply {
    /// 200, 400, 401, 404 or 500.
    pub fn status_code(&self) -> (r: u16)
        ensures
            r == match self {
                WebhookReply::Accepted => 200u16,
                WebhookReply::BadPayload => 400u16,
                WebhookReply::Unauthorized => 401u16,
                WebhookReply::NotFound => 404u16,
                WebhookReply::HmacFailure => 500u16,
            },
    {
        match self {
            WebhookReply::Accepted => 200,
            WebhookReply::BadPayload => 400,
            WebhookReply::Unauthorized => 401,
            WebhookReply::NotFound => 404,
            WebhookReply::HmacFailure => 500,
        }
    }
}

impl SignatureCheck {
    /// The reply that ends the request here, if the check stops it: a bad
    /// signature is 401, an HMAC failure 500.
    pub fn rejection(&self) -> (r: Option<WebhookReply>)
        ensures
            r == match self {
                SignatureCheck::Invalid => Some(WebhookReply::Unauthorized),
                SignatureCheck::HmacFailure => Some(WebhookReply::HmacFailure),
                _ => None::<WebhookReply>,
            },
    {
        match self {
            SignatureCheck::Invalid => Some(WebhookReply::Unauthorized),
            SignatureCheck::HmacFailure => Some(WebhookReply::HmacFailure),
            _ => None,
        }
    }
}

proof fn lemma_hex_text_digits(b: Seq<u8>)
    ensures
        hex_text(b).len() == 2 * b.len(),
        forall|i: int|
            0 <= i < hex_text(b).len() ==> (48 <= #[trigger] hex_text(b)[i] <= 57) || (97
                <= hex_text(b)[i] <= 102),
    decreases b.len(),
{
    if b.len() > 0 {
        lemma_hex_text_digits(b.drop_last());
        let h = hex_text(b.drop_last());
        let t = seq![hex_digit((b.last() / 16) as nat), hex_digit((b.last() % 16) as nat)];
        assert forall|i: int| 0 <= i < hex_text(b).len() implies (48 <= #[trigger] hex_text(b)[i]
            <= 57) || (97 <= hex_text(b)[i] <= 102) by {
            if i < h.len() {
                assert(hex_text(b)[i] == h[i]);
            } else {
                assert(hex_text(b)[i] == t[i - h.len()]);
            }
        }
    }
}

/// A header `sha256=<hex digest>`, or the bare hex digest, is accepted for
/// that digest; changing any single byte of either form makes it rejected.
pub proof fn lemma_signature_exact(mac: Seq<u8>, k: int, v: u8)
    ensures
        signature_ok(signature_prefix() + hex_text(mac), hex_text(mac)),
        signature_ok(hex_text(mac), hex_text(mac)),
        0 <= k < 7 + hex_text(mac).len() && v != (signature_prefix() + hex_text(mac))[k]
            ==> !signature_ok((signature_prefix() + hex_text(mac)).update(k, v), hex_text(mac)),
        0 <= k < hex_text(mac).len() && v != hex_text(mac)[k] ==> !signature_ok(
            hex_text(mac).update(k, v),
            hex_text(mac),
        ),
{
    let expected = hex_text(mac);
    lemma_hex_text_digits(mac);
    let full = signature_prefix() + expected;
    assert(full.subrange(0, 7) =~= signature_prefix());
    assert(full.subrange(7, full.len() as int) =~= expected);
    if expected.len() >= 7 {
        assert(expected.subrange(0, 7)[0] == expected[0]);
        assert(expected.subrange(0, 7) != signature_prefix());
    }
    if 0 <= k < 7 + expected.len() && v != full[k] {
        let alt = full.update(k, v);
        if k < 7 {
            assert(alt.subrange(0, 7)[k] != signature_prefix()[k]);
            assert(alt.subrange(0, 7) != signature_prefix());
            assert(alt.len() != expected.len());
        } else {
            assert(alt.subrange(0, 7) =~= signature_prefix());
            assert(alt.subrange(7, alt.len() as int)[k - 7] != expected[k - 7]);
        }
    }
    if 0 <= k < expected.len() && v != expected[k] {
        let alt = expected.update(k, v);
        if alt.len() >= 7 && alt.subrange(0, 7) == signature_prefix() {
            assert(alt.subrange(7, alt.len() as int).len() != expected.len());
        } else {
            assert(alt[k] != expected[k]);
        }
    }
}

} // verus!
