//! HTML escaping of untrusted text.

use vstd::prelude::*;

verus! {

/// What a single character becomes once it is safe to place in HTML text.
pub open spec fn escaped_char(c: char) -> Seq<char> {
    if c == '&' {
        seq!['&', 'a', 'm', 'p', ';']
    } else if c == '<' {
        seq!['&', 'l', 't', ';']
    } else if c == '>' {
        seq!['&', 'g', 't', ';']
    } else {
        seq![c]
    }
}

/// The text `s` with every `&`, `<` and `>` replaced by its entity and every
/// other character kept as it is.
pub open spec fn escaped(s: Seq<char>) -> Seq<char>
    decreases s.len(),
{
    if s.len() == 0 {
        Seq::empty()
    } else {
        escaped(s.drop_last()) + escaped_char(s.last())
    }
}

/// Trusted: calls `html_escape::encode_text`, which is documented to replace
/// `&` by `&amp;`, `<` by `&lt;` and `>` by `&gt;` and to leave every other
/// character untouched. The contract states exactly that.
#[verifier::external_body]
pub(crate) fn escape_text(text: &str) -> (r: String)
    ensures
        r@ == escaped(text@),
{
    html_escape::encode_text(text).into_owned()
}

} // verus!
