//! Token authentication: each device holds a token, and two devices trust
//! each other when the SHA-256 digests of their tokens agree.
use vstd::prelude::*;
use vstd::string::*;
use vstd::utf8::encode_utf8;
use sha2::Digest;
use crate::platform::{is_uuid_v4_text, random_uuid_string};
use crate::state::AppState;

verus! {

/// The SHA-256 digest of `data`, as computed by the `sha2` crate.
pub uninterp spec fn sha256(data: Seq<u8>) -> Seq<u8>;

/// Calls `sha2::Sha256::digest` on `data`. The contract names the digest
/// (`sha256`) and states its length, 32 bytes, which the crate's output size
/// `U32` fixes; the digest itself is not written out.
#[verifier::external_body]
fn sha256_digest(data: &[u8]) -> (d: Vec<u8>)
    ensures
        d@ == sha256(data@),
        d@.len() == 32,
{
    sha2::Sha256::digest(data).to_vec()
}

/// The lowercase hex digit for `n` (below 16).
pub open spec fn hex_digit(n: u8) -> char {
    if n < 10 {
        (48 + n) as char
    } else {
        (87 + n) as char
    }
}

/// Lowercase hex text of `bytes`: two digits per byte, high nibble first.
pub open spec fn hex_lower(bytes: Seq<u8>) -> Seq<char>
    decreases bytes.len(),
{
    if bytes.len() == 0 {
        Seq::empty()
    } else {
        hex_lower(bytes.drop_last()) + seq![
            hex_digit(bytes.last() / 16),
            hex_digit(bytes.last() % 16),
        ]
    }
}

/// Calls `hex::encode` on `data`. The crate maps each byte, high nibble
/// first, through the table `0123456789abcdef`; the contract states exactly
/// that.
#[verifier::external_body]
fn hex_encode(data: &[u8]) -> (s: String)
    ensures
        s@ == hex_lower(data@),
{
    hex::encode(data)
}

/// The text a device sends in place of its token: the lowercase hex of the
/// SHA-256 digest of the token's UTF-8 bytes.
pub open spec fn token_digest(token: Seq<char>) -> Seq<char> {
    hex_lower(sha256(encode_utf8(token)))
}

/// The characters of an optional string.
pub open spec fn opt_view(o: Option<String>) -> Option<Seq<char>> {
    match o {
        Some(s) => Some(s@),
        None => None,
    }
}

/// A device whose token is `stored` accepts the digest `digest`.
pub open spec fn digest_accepted(stored: Option<Seq<char>>, digest: Seq<char>) -> bool {
    match stored {
        Some(t) => token_digest(t) == digest,
        None => false,
    }
}

/// The message of the error that `set_token` returns for an empty token.
pub open spec fn empty_token_message() -> Seq<char> {
    "Token cannot be empty"@
}

/// Hashes a token for comparison.
pub fn hash_token(token: &str) -> (h: String)
    ensures
        h@ == token_digest(token@),
        h@.len() == 64,
{
    let digest = sha256_digest(token.as_bytes());
    proof {
        lemma_hex_length(digest@);
    }
    hex_encode(digest.as_slice())
}

/// Draws a fresh random token and stores it.
pub fn generate_token(state: &mut AppState) -> (r: Result<String, String>)
    ensures
        r is Ok,
        is_uuid_v4_text(r->Ok_0@),
        final(state).token == Some(r->Ok_0),
        *final(state) == (AppState { token: final(state).token, ..*old(state) }),
{
    let token = random_uuid_string();
    state.token = Some(token.clone());
    Ok(token)
}

/// Stores `token`, refusing an empty one.
pub fn set_token(token: String, state: &mut AppState) -> (r: Result<(), String>)
    ensures
        token@.len() == 0 ==> (r matches Err(e) && e@ == empty_token_message() && *final(state)
            == *old(state)),
        token@.len() != 0 ==> r is Ok && final(state).token == Some(token) && *final(state) == (
        AppState { token: final(state).token, ..*old(state) }),
{
    if token.as_str().is_empty() {
        return Err(String::from_str("Token cannot be empty"));
    }
    state.token = Some(token);
    Ok(())
}

/// The stored token, if any.
pub fn get_token(state: &AppState) -> (r: Result<Option<String>, String>)
    ensures
        r == Ok::<Option<String>, String>(state.token),
{
    match &state.token {
        Some(t) => Ok(Some(t.clone())),
        None => Ok(None),
    }
}

/// Whether `token` hashes to the same digest as the stored token; `false`
/// when no token is stored.
pub fn verify_token(token: &str, state: &AppState) -> (r: Result<bool, String>)
    ensures
        r == Ok::<bool, String>(digest_accepted(opt_view(state.token), token_digest(token@))),
{
    match &state.token {
        Some(stored) => {
            let given = hash_token(token);
            let expected = hash_token(stored.as_str());
            Ok(given == expected)
        },
        None => Ok(false),
    }
}

/// Whether the stored token hashes to `digest`; `false` when no token is
/// stored. This is the check a device makes of a digest sent by a peer.
pub fn accepts_digest(state: &AppState, digest: &String) -> (b: bool)
    ensures
        b == digest_accepted(opt_view(state.token), digest@),
{
    match &state.token {
        Some(stored) => {
            let expected = hash_token(stored.as_str());
            expected == *digest
        },
        None => false,
    }
}

/// After `set_token` stores a token, `get_token` reads it back and
/// `verify_token` accepts it.
pub proof fn lemma_set_then_get_and_verify(before: AppState, after: AppState, token: String)
    requires
        token@.len() != 0,
        after == (AppState { token: Some(token), ..before }),
    ensures
        after.token == Some(token),
        opt_view(after.token) == Some(token@),
        digest_accepted(opt_view(after.token), token_digest(token@)),
{
}

/// Verification is symmetric: a device holding `a` accepts `b` exactly when
/// a device holding `b` accepts `a`.
pub proof fn lemma_verify_symmetric(a: Seq<char>, b: Seq<char>)
    ensures
        digest_accepted(Some(a), token_digest(b)) == digest_accepted(Some(b), token_digest(a)),
{
}

/// Without a stored token nothing verifies.
pub proof fn lemma_no_token_rejects(digest: Seq<char>)
    ensures
        !digest_accepted(None, digest),
{
}

/// Hex text has two characters per byte.
pub proof fn lemma_hex_length(bytes: Seq<u8>)
    ensures
        hex_lower(bytes).len() == 2 * bytes.len(),
    decreases bytes.len(),
{
    if bytes.len() > 0 {
        lemma_hex_length(bytes.drop_last());
    }
}

/// Distinct nibbles have distinct hex digits.
proof fn lemma_hex_digit_injective(a: u8, b: u8)
    requires
        a < 16,
        b < 16,
        hex_digit(a) == hex_digit(b),
    ensures
        a == b,
{
    let ca = hex_digit(a);
    let cb = hex_digit(b);
    assert((ca as u32) == (if a < 10 { 48 + a } else { 87 + a }));
    assert((cb as u32) == (if b < 10 { 48 + b } else { 87 + b }));
}

/// Hex text determines its bytes.
pub proof fn lemma_hex_injective(a: Seq<u8>, b: Seq<u8>)
    requires
        hex_lower(a) == hex_lower(b),
    ensures
        a == b,
    decreases a.len(),
{
    lemma_hex_length(a);
    lemma_hex_length(b);
    if a.len() > 0 {
        let ha = hex_lower(a);
        let n = ha.len();
        let pa = hex_lower(a.drop_last());
        let pb = hex_lower(b.drop_last());
        lemma_hex_length(a.drop_last());
        lemma_hex_length(b.drop_last());
        assert(ha[n - 2] == hex_digit(a.last() / 16));
        assert(hex_lower(b)[n - 2] == hex_digit(b.last() / 16));
        assert(ha[n - 1] == hex_digit(a.last() % 16));
        assert(hex_lower(b)[n - 1] == hex_digit(b.last() % 16));
        lemma_hex_digit_injective(a.last() / 16, b.last() / 16);
        lemma_hex_digit_injective(a.last() % 16, b.last() % 16);
        assert(a.last() == b.last());
        assert(pa =~= ha.subrange(0, n - 2));
        assert(pb =~= hex_lower(b).subrange(0, n - 2));
        lemma_hex_injective(a.drop_last(), b.drop_last());
        assert(a =~= a.drop_last().push(a.last()));
        assert(b =~= b.drop_last().push(b.last()));
    } else {
        assert(a =~= b);
    }
}

/// A token verifies against a stored one exactly when the SHA-256 digests
/// of their UTF-8 bytes are equal: the hex step loses nothing.
pub proof fn lemma_verify_is_digest_equality(given: Seq<char>, stored: Seq<char>)
    ensures
        digest_accepted(Some(stored), token_digest(given)) <==> sha256(encode_utf8(stored))
            == sha256(encode_utf8(given)),
{
    if digest_accepted(Some(stored), token_digest(given)) {
        lemma_hex_injective(sha256(encode_utf8(stored)), sha256(encode_utf8(given)));
    }
}

} // verus!
