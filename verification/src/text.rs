//! Text: the conversion of modified UTF-8 to text that names can be matched
//! against.

use std::borrow::Cow;
use vstd::prelude::*;
use vstd::utf8::{decode_utf8, encode_utf8, encode_utf8_decode_utf8};

verus! {

/// The error type of the `mutf8` crate. Nothing is known of a value of it.
#[verifier::external_type_specification]
#[verifier::external_body]
pub struct ExMutf8Error(mutf8::error::Error);

/// What `mutf8::mutf8_to_utf8` makes of `input`: the converted bytes, or
/// `None` where it fails.
pub uninterp spec fn mutf8_to_utf8_text(input: Seq<u8>) -> Option<Seq<u8>>;

/// `mutf8::mutf8_to_utf8` converts modified UTF-8 to UTF-8. Its result is a
/// function of the input bytes alone, and that function is given the name
/// [`mutf8_to_utf8_text`]: the bytes of an `Ok`, `None` for an `Err`. Nothing
/// more is claimed of it.
pub assume_specification[ mutf8::mutf8_to_utf8 ](input: &[u8]) -> (r: mutf8::error::Result<
    Cow<[u8]>,
>)
    ensures
        match r {
            Ok(utf8) => mutf8_to_utf8_text(input@) == Some(utf8@),
            Err(_) => mutf8_to_utf8_text(input@) is None,
        },
;

/// What `String::from_utf8_lossy` makes of `bytes`: the text it returns.
pub uninterp spec fn utf8_lossy_text(bytes: Seq<u8>) -> Seq<char>;

/// `String::from_utf8_lossy` reads bytes as UTF-8 and puts U+FFFD in place
/// of what is not. Its result is a function of the bytes alone, and that
/// function is given the name [`utf8_lossy_text`]; nothing more is claimed
/// of it.
pub assume_specification[ std::string::String::from_utf8_lossy ](v: &[u8]) -> (text: Cow<
    '_,
    str,
>)
    ensures
        text@ == utf8_lossy_text(v@),
;

pub trait CowExt<'a> {
    fn to_str_lossy(self) -> Cow<'a, str>;
}

impl<'a> CowExt<'a> for Cow<'a, [u8]> {
    /// These bytes as text, with U+FFFD in place of what is not UTF-8.
    fn to_str_lossy(self) -> (text: Cow<'a, str>)
        ensures
            text@ == utf8_lossy_text(self@),
    {
        match self {
            Cow::Borrowed(slice) => String::from_utf8_lossy(slice),
            Cow::Owned(bytes) => Cow::Owned(
                cow_into_string(String::from_utf8_lossy(bytes.as_slice())),
            ),
        }
    }
}

/// The text of `text`, owned.
pub fn cow_into_string(text: Cow<'_, str>) -> (s: String)
    ensures
        s@ == text@,
{
    match text {
        Cow::Borrowed(borrowed) => borrowed.to_owned(),
        Cow::Owned(owned) => owned,
    }
}

/// The text of `text`, borrowed.
pub fn cow_as_str<'b>(text: &'b Cow<'_, str>) -> (s: &'b str)
    ensures
        s@ == text@,
{
    match text {
        Cow::Borrowed(borrowed) => borrowed,
        Cow::Owned(owned) => owned.as_str(),
    }
}

/// Whether two texts are the same, character for character.
pub fn str_equal(a: &str, b: &str) -> (equal: bool)
    ensures
        equal == (a@ == b@),
{
    let left: &[u8] = a.as_bytes();
    let right: &[u8] = b.as_bytes();
    proof {
        encode_utf8_decode_utf8(a@);
        encode_utf8_decode_utf8(b@);
    }
    if left.len() != right.len() {
        return false;
    }
    let mut i: usize = 0;
    while i < left.len()
        invariant
            i <= left@.len(),
            left@.len() == right@.len(),
            left@ == encode_utf8(a@),
            right@ == encode_utf8(b@),
            decode_utf8(encode_utf8(a@)) == a@,
            decode_utf8(encode_utf8(b@)) == b@,
            forall|j: int| 0 <= j < i ==> left@[j] == right@[j],
        decreases left@.len() - i,
    {
        if left[i] != right[i] {
            return false;
        }
        i = i + 1;
    }
    assert(left@ =~= right@);
    true
}

} // verus!
