//! The functions of other crates that the logic calls. What their contracts
//! say is taken from those crates, not proved here.
use vstd::prelude::*;
use vstd::utf8::*;

use crate::text;

verus! {

/// Why `serde_json` could not read or write a text.
#[verifier::external_type_specification]
#[verifier::external_body]
pub struct ExJsonError(serde_json::Error);

/// Why `shell_words` could not split a command line.
#[verifier::external_type_specification]
#[verifier::external_body]
pub struct ExWordsError(shell_words::ParseError);

/// The texts of a successful result.
pub open spec fn ok_texts<E>(r: Result<Vec<String>, E>) -> Option<Seq<Seq<char>>> {
    match r {
        Ok(v) => Some(text::texts(v@)),
        Err(_) => None,
    }
}

/// The list of strings that `serde_json::from_str` reads out of a text.
pub uninterp spec fn json_string_list(json: Seq<char>) -> Option<Seq<Seq<char>>>;

/// The text that `serde_json::to_string` writes for a list of strings.
pub uninterp spec fn string_list_json(list: Seq<Seq<char>>) -> Seq<char>;

/// The words into which `shell_words::split` takes a command line apart.
pub uninterp spec fn shell_split(line: Seq<char>) -> Option<Seq<Seq<char>>>;

/// The text that `String::from_utf8_lossy` makes of bytes.
pub uninterp spec fn utf8_lossy(bytes: Seq<u8>) -> Seq<char>;

/// Calls `serde_json::from_str::<Vec<String>>`. What it reads depends on the
/// text alone.
#[verifier::external_body]
pub(crate) fn parse_string_list(json: &str) -> (r: Result<Vec<String>, serde_json::Error>)
    ensures
        ok_texts(r) == json_string_list(json@),
{
    serde_json::from_str::<Vec<String>>(json)
}

/// Calls `serde_json::to_string` on a list of strings. Writing strings into
/// memory does not fail, the text depends on the strings alone, and
/// `serde_json::from_str` reads the same strings back out of it.
#[verifier::external_body]
pub(crate) fn write_string_list(list: &Vec<String>) -> (r: Result<String, serde_json::Error>)
    ensures
        r is Ok,
        r->Ok_0@ == string_list_json(text::texts(list@)),
        json_string_list(r->Ok_0@) == Some(text::texts(list@)),
{
    serde_json::to_string(list)
}

/// Calls `shell_words::split`. The words depend on the line alone; there are
/// none where a quote in the line is left open.
#[verifier::external_body]
pub(crate) fn split_words(line: &str) -> (r: Result<Vec<String>, shell_words::ParseError>)
    ensures
        ok_texts(r) == shell_split(line@),
{
    shell_words::split(line)
}

/// Calls `String::from_utf8_lossy`. The text depends on the bytes alone, and
/// bytes that are valid UTF-8 stand for the text that they encode.
#[verifier::external_body]
pub(crate) fn decode_lossy(bytes: &[u8]) -> (r: String)
    ensures
        r@ == utf8_lossy(bytes@),
        valid_utf8(bytes@) ==> r@ == decode_utf8(bytes@),
{
    String::from_utf8_lossy(bytes).into_owned()
}

/// A digit of a number in base sixteen, in lower case.
pub open spec fn is_hex_digit(c: char) -> bool {
    '0' <= c <= '9' || 'a' <= c <= 'f'
}

/// The text of a random UUID: groups of hexadecimal digits between hyphens,
/// with the digits that tell its version and variant.
pub open spec fn is_random_uuid(s: Seq<char>) -> bool {
    &&& s.len() == 36
    &&& forall|i: int|
        0 <= i < 36 ==> if i == 8 || i == 13 || i == 18 || i == 23 {
            #[trigger] s[i] == '-'
        } else {
            is_hex_digit(s[i])
        }
    &&& s[14] == '4'
    &&& (s[19] == '8' || s[19] == '9' || s[19] == 'a' || s[19] == 'b')
}

/// Calls `uuid::Uuid::new_v4` and writes the UUID as text. Which one it is
/// depends on chance: only its form is known. It panics where the operating
/// system has no random numbers to give, which no argument decides.
#[verifier::external_body]
pub(crate) fn random_uuid() -> (r: String)
    ensures
        is_random_uuid(r@),
{
    uuid::Uuid::new_v4().to_string()
}

} // verus!
