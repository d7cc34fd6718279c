//! Query strings in `application/x-www-form-urlencoded` form.

use vstd::prelude::*;

verus! {

/// A text as `url::form_urlencoded` writes it into a query string: letters,
/// digits and `*-._` as they are, a space as `+`, every other byte as `%` and
/// two hexadecimal digits.
pub uninterp spec fn form_encoded(text: Seq<char>) -> Seq<char>;

/// A query string with one more pair behind it.
pub open spec fn with_pair(query: Seq<char>, name: Seq<char>, value: Seq<char>) -> Seq<char> {
    let separator = if query.len() > 0 {
        seq!['&']
    } else {
        Seq::<char>::empty()
    };
    query + separator + form_encoded(name) + seq!['='] + form_encoded(value)
}

/// Appends a pair with `url::form_urlencoded::Serializer::append_pair`. The
/// serializer writes `&` if the target is not empty, then the encoded name,
/// `=`, and the encoded value.
#[verifier::external_body]
pub(crate) fn append_pair(query: String, name: &str, value: &str) -> (extended: String)
    ensures
        extended@ == query@ + (if query@.len() > 0 {
            seq!['&']
        } else {
            Seq::<char>::empty()
        }) + form_encoded(name@) + seq!['='] + form_encoded(value@),
{
    url::form_urlencoded::Serializer::new(query).append_pair(name, value).finish()
}

} // verus!
