//! Text as ASCII: what is written for a name that holds letters outside
//! ASCII.

use vstd::prelude::*;
use vstd::utf8::is_ascii_chars;

verus! {

/// The ASCII transliteration that the `unidecode` crate gives for a text.
/// Its tables are not written out here: this is only a name for what it
/// returns.
pub uninterp spec fn transliterated(text: Seq<char>) -> Seq<char>;

/// Calls `unidecode::unidecode`.
///
/// Believed, not proved: the crate maps each character through a fixed
/// table, so the result depends on the text alone and can bear the name
/// [`transliterated`]; and, as the crate documents, the result is ASCII and
/// every ASCII character is mapped to itself, so that an ASCII text comes
/// back unchanged.
#[verifier::external_body]
fn transliterate(text: &str) -> (ascii: String)
    ensures
        ascii@ == transliterated(text@),
        is_ascii_chars(ascii@),
        is_ascii_chars(text@) ==> ascii@ == text@,
{
    unidecode::unidecode(text)
}

/// The text as it is written: transliterated to ASCII.
pub fn serialize(str: &String) -> (written: String)
    ensures
        written@ == transliterated(str@),
        is_ascii_chars(written@),
        is_ascii_chars(str@) ==> written@ == str@,
{
    transliterate(str.as_str())
}

/// The text as it is read: unchanged.
pub fn deserialize(written: String) -> (text: String)
    ensures
        text@ == written@,
{
    written
}

} // verus!
