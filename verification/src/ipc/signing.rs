//! Signing and verifying requests.
use crate::endian::{be_bytes, big_endian, lemma_big_endian_round_trip, lemma_fits};
use crate::hexadecimal::{decode, encode, hex_decoded, hex_encoded, law_hex_round_trip};
use crate::ipc::canonical::{canonical_command_bytes, canonical_text, law_canonical_unambiguous};
use crate::ipc::{Command, CommandView, Request, RequestView};
use hmac::Mac;
use vstd::prelude::*;
use vstd::utf8::encode_utf8;

verus! {

/// The HMAC-SHA256 of a message under a key.
pub uninterp spec fn hmac_sha256_digest(key: Seq<u8>, message: Seq<u8>) -> Seq<u8>;

/// HMAC-SHA256 from the crates `hmac` and `sha2`: a key of any length is taken,
/// and the digest, 32 bytes long, is a function of the key and the message
/// alone, named `hmac_sha256_digest`. Which bytes it holds is not claimed.
#[verifier::external_body]
fn hmac_sha256(key: &[u8], message: &[u8]) -> (r: Vec<u8>)
    ensures
        r@ == hmac_sha256_digest(key@, message@),
        r@.len() == 32,
{
    let mut mac =
        hmac::Hmac::<sha2::Sha256>::new_from_slice(key).expect("HMAC accepts any key length");
    mac.update(message);
    mac.finalize().into_bytes().to_vec()
}

/// What is signed: the timestamp in eight big-endian bytes, then the canonical
/// JSON of the command.
pub open spec fn signing_message(timestamp_nanos: u64, command: CommandView) -> Seq<u8> {
    big_endian(timestamp_nanos as nat, 8) + encode_utf8(canonical_text(command))
}

/// The digest that a request with this timestamp and command must carry.
pub open spec fn request_digest(
    secret: Seq<u8>,
    timestamp_nanos: u64,
    command: CommandView,
) -> Seq<u8> {
    hmac_sha256_digest(secret, signing_message(timestamp_nanos, command))
}

/// Whether a request carries the hexadecimal text, in either case, of the
/// digest for its own timestamp and command.
pub open spec fn is_signed(secret: Seq<u8>, request: RequestView) -> bool {
    hex_decoded(request.hmac) == Some(
        request_digest(secret, request.timestamp_nanos, request.command),
    )
}

/// The bytes that are signed for a timestamp and a command.
pub fn signing_bytes(timestamp_nanos: u64, command: &Command) -> (r: Vec<u8>)
    ensures
        r@ == signing_message(timestamp_nanos, command@),
{
    let mut message: Vec<u8> = be_bytes(timestamp_nanos, 8);
    let mut body: Vec<u8> = canonical_command_bytes(command);
    message.append(&mut body);
    message
}

/// The HMAC for a timestamp and a command: the digest as 64 lowercase
/// hexadecimal digits.
pub fn compute_hmac(secret: &[u8], timestamp_nanos: u64, command: &Command) -> (r: String)
    ensures
        r@ == hex_encoded(request_digest(secret@, timestamp_nanos, command@)),
        r@.len() == 64,
{
    let message: Vec<u8> = signing_bytes(timestamp_nanos, command);
    let digest: Vec<u8> = hmac_sha256(secret, message.as_slice());
    encode(digest.as_slice())
}

/// Whether two byte strings are equal, in time that depends on their lengths only.
pub fn constant_time_eq(a: &[u8], b: &[u8]) -> (r: bool)
    ensures
        r == (a@ == b@),
{
    if a.len() != b.len() {
        return false;
    }
    let mut diff: u8 = 0;
    let mut i: usize = 0;
    assert(a@.take(0) == b@.take(0));
    while i < a.len()
        invariant
            i <= a.len(),
            a.len() == b.len(),
            diff == 0 <==> a@.take(i as int) == b@.take(i as int),
        decreases a.len() - i,
    {
        let x: u8 = a[i];
        let y: u8 = b[i];
        let d: u8 = diff;
        assert((d | (x ^ y)) == 0 <==> (d == 0 && x == y)) by (bit_vector);
        proof {
            let p = a@.take(i + 1);
            let q = b@.take(i + 1);
            assert(p.drop_last() == a@.take(i as int));
            assert(q.drop_last() == b@.take(i as int));
            if p.drop_last() == q.drop_last() && x == y {
                assert(p == p.drop_last().push(x));
                assert(q == q.drop_last().push(y));
            }
            if p == q {
                assert(p[i as int] == x && q[i as int] == y);
            }
        }
        diff = diff | (x ^ y);
        i = i + 1;
    }
    assert(a@.take(i as int) == a@);
    assert(b@.take(i as int) == b@);
    diff == 0
}

/// Whether a claimed HMAC text stands for the same bytes as the expected one;
/// a text that is not hexadecimal matches nothing.
pub fn hmac_texts_match(claimed: &str, expected: &str) -> (r: bool)
    ensures
        r == (hex_decoded(claimed@) is Some && hex_decoded(claimed@) == hex_decoded(expected@)),
{
    let claimed_bytes: Vec<u8> = match decode(claimed) {
        Ok(b) => b,
        Err(_) => return false,
    };
    let expected_bytes: Vec<u8> = match decode(expected) {
        Ok(b) => b,
        Err(_) => return false,
    };
    constant_time_eq(claimed_bytes.as_slice(), expected_bytes.as_slice())
}

/// Whether `request` carries the HMAC of its own timestamp and command under
/// `secret`.
pub fn verify_hmac(secret: &[u8], request: &Request) -> (r: bool)
    ensures
        r == is_signed(secret@, request@),
{
    let expected: String = compute_hmac(secret, request.timestamp_nanos, &request.command);
    proof {
        law_hex_round_trip(request_digest(secret@, request.timestamp_nanos, request.command@));
    }
    hmac_texts_match(request.hmac.as_str(), expected.as_str())
}

/// A request signed with a secret verifies under that secret.
pub proof fn law_signed_request_verifies(
    secret: Seq<u8>,
    timestamp_nanos: u64,
    command: CommandView,
)
    ensures
        is_signed(
            secret,
            (RequestView {
                timestamp_nanos,
                hmac: hex_encoded(request_digest(secret, timestamp_nanos, command)),
                command,
            }),
        ),
{
    law_hex_round_trip(request_digest(secret, timestamp_nanos, command));
}

/// What is signed pins down both the timestamp and the command: no two requests
/// that differ in either have the same bytes to sign.
pub proof fn law_signing_unambiguous(t: u64, c: CommandView, u: u64, d: CommandView)
    requires
        signing_message(t, c) == signing_message(u, d),
    ensures
        t == u,
        c == d,
{
    lemma_fits(t as nat);
    lemma_fits(u as nat);
    lemma_big_endian_round_trip(t as nat, 8);
    lemma_big_endian_round_trip(u as nat, 8);
    let p = signing_message(t, c);
    let q = signing_message(u, d);
    assert(p.take(8) == big_endian(t as nat, 8));
    assert(q.take(8) == big_endian(u as nat, 8));
    assert(p.skip(8) == encode_utf8(canonical_text(c)));
    assert(q.skip(8) == encode_utf8(canonical_text(d)));
    law_canonical_unambiguous(c, d);
}

/// A request that carries the HMAC made for another timestamp, command or
/// secret is accepted exactly if HMAC-SHA256 itself gives one digest to the two
/// keys and messages, and the messages differ whenever the timestamp or the
/// command does.
pub proof fn law_tampering_needs_a_collision(
    made: Seq<u8>,
    t: u64,
    c: CommandView,
    checked: Seq<u8>,
    u: u64,
    d: CommandView,
)
    ensures
        is_signed(
            checked,
            (RequestView {
                timestamp_nanos: u,
                hmac: hex_encoded(request_digest(made, t, c)),
                command: d,
            }),
        ) <==> hmac_sha256_digest(made, signing_message(t, c)) == hmac_sha256_digest(
            checked,
            signing_message(u, d),
        ),
        t != u || c != d ==> signing_message(t, c) != signing_message(u, d),
{
    law_hex_round_trip(request_digest(made, t, c));
    if signing_message(t, c) == signing_message(u, d) {
        law_signing_unambiguous(t, c, u, d);
    }
}

} // verus!
