//! The names of objects in a repository.
use vstd::prelude::*;
use vstd::string::*;

use crate::text;

verus! {

/// How many hexadecimal digits a full object id has.
pub const ID_LENGTH: usize = 40;

/// How many digits of an object id are shown.
pub const SHORT_ID_LENGTH: usize = 8;

/// Whether a character is a hexadecimal digit.
pub open spec fn hex_digit(c: char) -> bool {
    ||| '0' <= c && c <= '9'
    ||| 'a' <= c && c <= 'f'
    ||| 'A' <= c && c <= 'F'
}

/// Whether a text is an object id: at least one and at most forty hexadecimal
/// digits.
pub open spec fn is_object_id(s: Seq<char>) -> bool {
    &&& 0 < s.len() <= ID_LENGTH
    &&& forall|i: int| 0 <= i < s.len() ==> hex_digit(#[trigger] s[i])
}

/// The full id that an object id stands for: its digits in lower case, filled
/// up with zeros.
pub open spec fn full_id(s: Seq<char>) -> Seq<char> {
    text::ascii_lower(s) + Seq::new((ID_LENGTH - s.len()) as nat, |i: int| '0')
}

/// What is said of a text that is not an object id.
pub open spec fn bad_id_message(s: &str) -> Seq<char> {
    if s@.len() == 0 {
        "unable to parse OID - too short; class=Invalid (3)"@
    } else if s.spec_bytes().len() > ID_LENGTH {
        "unable to parse OID - too long; class=Invalid (3)"@
    } else {
        "unable to parse OID - contains invalid characters; class=Invalid (3)"@
    }
}

/// Calls `git2::Oid::from_str` and writes out the id or the error that it
/// returns. The call accepts one to forty hexadecimal digits, reads the missing
/// ones as zeros, and says of any other text whether it is too short, too long
/// or holds another character.
#[verifier::external_body]
pub(crate) fn parse_id(s: &str) -> (r: Result<String, String>)
    ensures
        r is Ok <==> is_object_id(s@),
        r is Ok ==> r->Ok_0@ == full_id(s@),
        r is Err ==> r->Err_0@ == bad_id_message(s),
{
    match git2::Oid::from_str(s) {
        Ok(id) => Ok(id.to_string()),
        Err(error) => Err(error.to_string()),
    }
}

/// The short form of an object id: its first eight digits.
pub open spec fn short_form(id: Seq<char>) -> Seq<char> {
    if id.len() <= SHORT_ID_LENGTH {
        id
    } else {
        id.subrange(0, SHORT_ID_LENGTH as int)
    }
}

/// The short form of an object id.
pub fn short_id(id: &str) -> (r: String)
    ensures
        r@ == short_form(id@),
{
    let chars = text::chars_of(id);
    if chars.len() <= SHORT_ID_LENGTH {
        id.to_owned()
    } else {
        text::text_of(&chars, 0, SHORT_ID_LENGTH)
    }
}

}
