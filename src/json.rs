use vstd::prelude::*;

verus! {

/// The JSON text of a string: quoted, with the characters that JSON
/// forbids inside a string escaped.
pub uninterp spec fn json_string_of(s: Seq<char>) -> Seq<char>;

/// Text that JSON carries inside quotes unchanged: no quote, no backslash
/// and no control character.
pub open spec fn plain_text(s: Seq<char>) -> bool {
    forall|i: int|
        0 <= i < s.len() ==> s[i] != '"' && s[i] != '\\' && (s[i] as u32) >= 0x20u32
}

/// Relies on serde_json::to_string on a `str`: it writes the string quoted,
/// escaping only quote, backslash and control characters, into a `Vec<u8>`,
/// which cannot fail.
#[verifier::external_body]
pub(crate) fn encode_string(s: &str) -> (r: Result<String, String>)
    ensures
        r is Ok,
        r matches Ok(t) ==> t@ == json_string_of(s@),
        r matches Ok(t) ==> (plain_text(s@) ==> t@ == seq!['"'] + s@ + seq!['"']),
{
    match serde_json::to_string(s) {
        Ok(t) => Ok(t),
        Err(e) => Err(e.to_string()),
    }
}

} // verus!
