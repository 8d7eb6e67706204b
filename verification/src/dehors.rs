//! The calls that leave this crate, each with the contract that the rest of
//! the library relies on. Nothing in this file is proved: a contract here is a
//! statement about code that Verus does not read.

use vstd::prelude::*;

verus! {

/// The text that `str::to_uppercase` returns for `s`: the Unicode upper-case
/// mapping of the standard library, applied to the whole text.
pub uninterp spec fn majuscules(s: Seq<char>) -> Seq<char>;

/// The text that `str::to_lowercase` returns for `s`: the Unicode lower-case
/// mapping of the standard library, applied to the whole text.
pub uninterp spec fn minuscules(s: Seq<char>) -> Seq<char>;

/// `str::to_uppercase` is a function of the characters of its argument alone;
/// its result is named [`majuscules`].
pub assume_specification[ str::to_uppercase ](s: &str) -> (r: String)
    ensures
        r@ == majuscules(s@),
;

/// `str::to_lowercase` is a function of the characters of its argument alone;
/// its result is named [`minuscules`].
pub assume_specification[ str::to_lowercase ](s: &str) -> (r: String)
    ensures
        r@ == minuscules(s@),
;

/// What `urlencoding::decode` makes of `s`: the text in which each `%` followed
/// by two hexadecimal digits has become the byte they write, read as UTF-8; or
/// `None` where those bytes are not UTF-8.
pub uninterp spec fn decodage_pourcent(s: Seq<char>) -> Option<Seq<char>>;

/// The error of `String::from_utf8`, which `urlencoding::decode` hands on.
#[verifier::external_type_specification]
#[verifier::external_body]
pub struct ExFromUtf8Error(std::string::FromUtf8Error);

/// Calls `urlencoding::decode`. The outcome depends on the characters of
/// `valeur` alone and is named [`decodage_pourcent`]: `Ok` holds the decoded
/// text, `Err` stands for `None`.
#[verifier::external_body]
pub(crate) fn decoder_pourcent(valeur: &str) -> (r: Result<String, std::string::FromUtf8Error>)
    ensures
        match r {
            Ok(t) => decodage_pourcent(valeur@) == Some(t@),
            Err(_) => decodage_pourcent(valeur@) is None,
        },
{
    match urlencoding::decode(valeur) {
        Ok(t) => Ok(t.into_owned()),
        Err(e) => Err(e),
    }
}

/// What `serde_json::to_string` writes for the text `s`: the JSON string
/// literal, quotes included, with the escapes that serde_json chooses; or
/// `None` where it reports an error.
pub uninterp spec fn texte_json(s: Seq<char>) -> Option<Seq<char>>;

/// The error type of serde_json.
#[verifier::external_type_specification]
#[verifier::external_body]
pub struct ExJsonError(serde_json::Error);

/// Calls `serde_json::to_string` on a text. The outcome depends on the
/// characters of `texte` alone and is named [`texte_json`]: `Ok` holds the
/// JSON literal, `Err` stands for `None`.
#[verifier::external_body]
pub(crate) fn ecrire_texte_json(texte: &str) -> (r: Result<String, serde_json::Error>)
    ensures
        match r {
            Ok(t) => texte_json(texte@) == Some(t@),
            Err(_) => texte_json(texte@) is None,
        },
{
    serde_json::to_string(texte)
}

} // verus!
