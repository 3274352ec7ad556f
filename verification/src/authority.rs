//! The authority of a URI, as `http::uri::Authority` parses it.
use vstd::prelude::*;
use vstd::string::*;
use crate::http_calls::{authority_accepts, parse_authority};
use crate::text::{
    char_eq_ignore_ascii_case, eq_ignore_ascii_case, has_no_ascii_upper,
    law_eq_ignore_ascii_case_equivalence, law_eq_ignore_ascii_case_lower, str_eq_ignore_ascii_case,
};
use vstd::std_specs::cmp::PartialEqSpec;

verus! {

/// The authority part of a URI (host, optional user info and port).
#[derive(Debug)]
pub struct Authority {
    text: String,
}

impl View for Authority {
    type V = Seq<char>;

    /// The text, as `as_str` gives it.
    closed spec fn view(&self) -> Seq<char> {
        self.text@
    }
}

impl Authority {
    /// The authority with the given text.
    pub(crate) fn from_text(text: String) -> (res: Authority)
        ensures
            res@ == text@,
    {
        Authority { text }
    }

    /// Parses an authority from bytes.
    pub fn try_from_bytes(src: &[u8]) -> (res: Result<Authority, http::uri::InvalidUri>)
        ensures
            res is Ok <==> authority_accepts(src@),
            res matches Ok(a) ==> vstd::utf8::encode_utf8(a@) == src@,
    {
        match parse_authority(src) {
            Ok(text) => Ok(Authority { text }),
            Err(e) => Err(e),
        }
    }

    /// Parses an authority from text, as `try_from_bytes` does its UTF-8 bytes;
    /// the authority keeps the text as it is.
    pub fn from_str(s: &str) -> (res: Result<Authority, http::uri::InvalidUri>)
        ensures
            res is Ok <==> authority_accepts(s.spec_bytes()),
            res matches Ok(a) ==> a@ == s@,
    {
        let res = Self::try_from_bytes(s.as_bytes());
        proof {
            if res is Ok {
                vstd::utf8::encode_utf8_decode_utf8(res->Ok_0@);
                vstd::utf8::encode_utf8_decode_utf8(s@);
            }
        }
        res
    }

    pub fn as_str(&self) -> (res: &str)
        ensures
            res@ == self@,
    {
        self.text.as_str()
    }

    /// The authority as `Display` writes it.
    pub fn to_string(&self) -> (res: String)
        ensures
            res@ == self@,
    {
        String::from_str(self.as_str())
    }

    /// Compares with a text, ignoring ASCII case.
    pub fn eq_str(&self, other: &str) -> (res: bool)
        ensures
            res == eq_ignore_ascii_case(self@, other@),
    {
        str_eq_ignore_ascii_case(self.as_str(), other)
    }
}

impl Clone for Authority {
    fn clone(&self) -> (res: Self)
        ensures
            res@ == self@,
    {
        Authority { text: self.text.clone() }
    }
}

impl PartialEq for Authority {
    fn eq(&self, other: &Authority) -> (res: bool) {
        str_eq_ignore_ascii_case(self.as_str(), other.as_str())
    }
}

impl vstd::std_specs::cmp::PartialEqSpecImpl for Authority {
    open spec fn obeys_eq_spec() -> bool {
        true
    }

    open spec fn eq_spec(&self, other: &Authority) -> bool {
        eq_ignore_ascii_case(self@, other@)
    }
}

impl Eq for Authority {}

/// Two authorities are equal only where their texts have the same length and
/// match character by character up to ASCII case; texts without upper-case
/// letters are equal authorities exactly where they are the same text.
pub proof fn law_authority_eq(a: Authority, b: Authority)
    ensures
        a.eq_spec(&b) ==> a@.len() == b@.len(),
        a.eq_spec(&b) ==> forall|i: int| 0 <= i < a@.len() ==> char_eq_ignore_ascii_case(a@[i], b@[i]),
        a.eq_spec(&b) == b.eq_spec(&a),
        has_no_ascii_upper(a@) && has_no_ascii_upper(b@) ==> (a.eq_spec(&b) <==> a@ == b@),
{
    law_eq_ignore_ascii_case_equivalence(a@, b@);
    if has_no_ascii_upper(a@) && has_no_ascii_upper(b@) {
        law_eq_ignore_ascii_case_lower(a@, b@);
    }
}

impl core::str::FromStr for Authority {
    type Err = http::uri::InvalidUri;

    fn from_str(s: &str) -> (res: Result<Authority, http::uri::InvalidUri>)
        ensures
            res is Ok <==> authority_accepts(s.spec_bytes()),
            res matches Ok(a) ==> a@ == s@,
    {
        Authority::from_str(s)
    }
}

} // verus!
