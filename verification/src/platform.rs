//! What the library learns from the machine it runs on: random identifiers
//! and the host's name.
use vstd::prelude::*;

verus! {

/// `c` is one of the characters `0`-`9`, `a`-`f`.
pub open spec fn is_lower_hex_digit(c: char) -> bool {
    ('0' <= c && c <= '9') || ('a' <= c && c <= 'f')
}

/// The positions of the four hyphens in the hyphenated text of a UUID.
pub open spec fn is_uuid_hyphen_position(i: int) -> bool {
    i == 8 || i == 13 || i == 18 || i == 23
}

/// `s` is the lowercase hyphenated text of a version-4 UUID: 36 characters,
/// hyphens at positions 8, 13, 18 and 23, lowercase hex digits elsewhere, and
/// the version digit `4` at position 14.
pub open spec fn is_uuid_v4_text(s: Seq<char>) -> bool {
    &&& s.len() == 36
    &&& forall|i: int|
        0 <= i < 36 ==> if is_uuid_hyphen_position(i) {
            #[trigger] s[i] == '-'
        } else {
            is_lower_hex_digit(s[i])
        }
    &&& s[14] == '4'
}

/// A text made of UUID characters holds no `.`.
pub proof fn lemma_uuid_text_has_no_dot(s: Seq<char>)
    requires
        is_uuid_v4_text(s),
    ensures
        forall|i: int| 0 <= i < s.len() ==> #[trigger] s[i] != '.',
{
    assert forall|i: int| 0 <= i < s.len() implies #[trigger] s[i] != '.' by {
        if is_uuid_hyphen_position(i) {
            assert(s[i] == '-');
        } else {
            assert(is_lower_hex_digit(s[i]));
        }
    }
}

/// Calls `uuid::Uuid::new_v4()` and renders it with `to_string()`.
/// The value is random; the contract states only its shape, which the
/// crate's `format_hyphenated` (lowercase, version nibble 4) fixes.
#[verifier::external_body]
pub(crate) fn random_uuid_string() -> (s: String)
    ensures
        is_uuid_v4_text(s@),
{
    uuid::Uuid::new_v4().to_string()
}

/// Calls `hostname::get()` and renders the name with `to_string_lossy()`;
/// `None` where the crate reports an error. The name depends on the
/// machine, so nothing is stated of it.
#[verifier::external_body]
pub(crate) fn local_host_name() -> (r: Option<String>) {
    match hostname::get() {
        Ok(h) => Some(h.to_string_lossy().to_string()),
        Err(_) => None,
    }
}

} // verus!
