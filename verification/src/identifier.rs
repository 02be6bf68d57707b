use vstd::prelude::*;

verus! {

/// A digit or one of the letters `a` to `f`.
pub open spec fn is_lower_hex(c: char) -> bool {
    ('0' <= c && c <= '9') || ('a' <= c && c <= 'f')
}

/// Where the hyphens of the textual form stand.
pub open spec fn is_hyphen_position(i: int) -> bool {
    i == 8 || i == 13 || i == 18 || i == 23
}

/// The textual form of a random identifier: 36 characters, five groups of lower-case
/// hexadecimal digits separated by hyphens, the third group starting with the
/// version digit `4`.
pub open spec fn is_identifier_text(s: Seq<char>) -> bool {
    &&& s.len() == 36
    &&& forall|i: int|
        0 <= i < 36 ==> if is_hyphen_position(i) {
            #[trigger] s[i] == '-'
        } else {
            is_lower_hex(s[i])
        }
    &&& s[14] == '4'
}

/// Draws an identifier with `uuid::Uuid::new_v4` and writes it out through its
/// `Display` form. Trusted: the text has the hyphenated lower-case shape with the
/// version digit in place. Which identifier is drawn depends on the random source,
/// so two calls are unrelated.
#[verifier::external_body]
pub(crate) fn draw_identifier() -> (id: String)
    ensures
        is_identifier_text(id@),
{
    uuid::Uuid::new_v4().to_string()
}

/// No identifier contains a path separator, so it is a single path segment.
pub proof fn lemma_identifier_is_segment(s: Seq<char>)
    requires
        is_identifier_text(s),
    ensures
        !s.contains('/'),
{
    if s.contains('/') {
        let i = choose|i: int| 0 <= i < s.len() && s[i] == '/';
        assert(s[i] == '-' || is_lower_hex(s[i]));
    }
}

} // verus!
