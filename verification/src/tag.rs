//! The tag model: what the service says of a tag, and the typed tag that its
//! datatype makes of it.

use vstd::prelude::*;
use crate::error::{Error, ErrorKind, ErrorView};
use crate::reply::join3;

verus! {

/// The datatype of a tag whose value is a real number.
pub const REAL: &'static str = "REAL";

/// A process tag with its current value. `V` is the type of a numeric value.
#[derive(Debug, Clone)]
pub enum Tag<V> {
    Real { key: String, description: String, value: V, unit: String, status: String },
    Int { key: String, description: String, value: V, unit: String, status: String },
}

/// A tag as the service describes it, its value and datatype still text.
#[derive(Debug, Clone)]
pub struct PartialTag {
    pub description: String,
    pub value: String,
    pub unit: String,
    pub datatype: String,
    pub status: String,
}

/// The message for a value that is no number.
pub open spec fn bad_value(reason: Seq<char>) -> Seq<char> {
    "Could not parse tag value ("@ + reason + ")."@
}

/// The message for a datatype that the client does not know; it names the datatype.
pub open spec fn unrecognized(datatype: Seq<char>) -> Seq<char> {
    "Unrecognized tag datatype ("@ + datatype + ")."@
}

/// That `result` is the real-valued tag `tag_key` described by `partial`,
/// whose value was parsed with the answer `parsed`.
pub open spec fn real_tag<V>(
    tag_key: Seq<char>,
    partial: PartialTag,
    parsed: Result<V, String>,
    result: Result<Tag<V>, Error>,
) -> bool {
    match parsed {
        Ok(number) => result matches Ok(Tag::Real { key, description, value, unit, status })
            && key@ == tag_key && description == partial.description && value == number && unit
            == partial.unit && status == partial.status,
        Err(reason) => result matches Err(e) && e@ == (ErrorView {
            kind: ErrorKind::ParseError,
            message: bad_value(reason@),
        }),
    }
}

/// That `parse_real`, given the text of a value, answered `parsed`.
pub open spec fn parsed_by<V, P: Fn(&String) -> Result<V, String>>(
    parse_real: P,
    text: String,
    parsed: Result<V, String>,
) -> bool {
    parse_real.ensures((&text,), parsed)
}

/// That `result` is the typed tag that the datatype of `partial` makes of it.
///
/// Only the datatype `REAL` is known: its value is handed to `parse_real`, and
/// the tag holds the number, or the result is a `ParseError` with the parser's
/// reason. Any other datatype is a `ParseError` that names it.
pub open spec fn promoted<V, P: Fn(&String) -> Result<V, String>>(
    tag_key: Seq<char>,
    partial: PartialTag,
    parse_real: P,
    result: Result<Tag<V>, Error>,
) -> bool {
    if partial.datatype@ == REAL@ {
        exists|parsed: Result<V, String>| #[trigger]
            parsed_by(parse_real, partial.value, parsed) && real_tag(
                tag_key,
                partial,
                parsed,
                result,
            )
    } else {
        result matches Err(e) && e@ == (ErrorView {
            kind: ErrorKind::ParseError,
            message: unrecognized(partial.datatype@),
        })
    }
}

impl PartialTag {
    /// The real-valued tag `tag_key` with this description, given what parsing
    /// its value gave.
    pub fn into_real<V>(self, tag_key: &str, parsed: Result<V, String>) -> (result: Result<
        Tag<V>,
        Error,
    >)
        ensures
            real_tag(tag_key@, self, parsed, result),
    {
        match parsed {
            Ok(value) => Ok(
                Tag::Real {
                    key: String::from_str(tag_key),
                    description: self.description,
                    value,
                    unit: self.unit,
                    status: self.status,
                },
            ),
            Err(reason) => Err(
                Error::ParseError(join3("Could not parse tag value (", reason.as_str(), ").")),
            ),
        }
    }

    /// The typed tag `tag_key` that the datatype makes of this description;
    /// `parse_real` reads the value of a real-valued tag.
    pub fn promote<V, P: Fn(&String) -> Result<V, String>>(self, tag_key: &str, parse_real: P) -> (result:
        Result<Tag<V>, Error>)
        requires
            forall|text: &String| parse_real.requires((text,)),
        ensures
            promoted(tag_key@, self, parse_real, result),
    {
        if self.datatype == String::from_str(REAL) {
            let parsed = parse_real(&self.value);
            assert(parsed_by(parse_real, self.value, parsed));
            self.into_real(tag_key, parsed)
        } else {
            Err(
                Error::ParseError(
                    join3("Unrecognized tag datatype (", self.datatype.as_str(), ")."),
                ),
            )
        }
    }
}

} // verus!
