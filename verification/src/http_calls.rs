//! The calls into the `http` crate, each behind a trusted item.
//!
//! Every item here is believed by Verus without proof; its doc comment says
//! what is claimed of the `http` function it calls.
use vstd::prelude::*;

verus! {

/// `http::uri::InvalidUri`, the error of `http`'s URI component parsers. It is
/// carried through unchanged as the source of this crate's errors.
#[verifier::external_type_specification]
#[verifier::external_body]
pub struct ExInvalidUri(http::uri::InvalidUri);

/// A byte that `http` accepts in a scheme name other than `http`/`https`:
/// ASCII letters and digits, `+`, `-`, `.` and `~`.
pub open spec fn is_scheme_byte(b: u8) -> bool {
    ||| 0x30 <= b <= 0x39
    ||| 0x41 <= b <= 0x5a
    ||| 0x61 <= b <= 0x7a
    ||| b == 0x2b
    ||| b == 0x2d
    ||| b == 0x2e
    ||| b == 0x7e
}

/// The bytes `http`.
pub open spec fn http_bytes() -> Seq<u8> {
    seq![0x68u8, 0x74u8, 0x74u8, 0x70u8]
}

/// The bytes `https`.
pub open spec fn https_bytes() -> Seq<u8> {
    seq![0x68u8, 0x74u8, 0x74u8, 0x70u8, 0x73u8]
}

/// What `http::uri::Scheme::try_from(&[u8])` makes of `src`, as the name that
/// `Scheme::as_str` then gives: `http` and `https` exactly, or any other name
/// of at most 64 scheme bytes taken as it is; `None` where it returns an error.
pub open spec fn scheme_name_of(src: Seq<u8>) -> Option<Seq<char>> {
    if src == http_bytes() {
        Some(seq!['h', 't', 't', 'p'])
    } else if src == https_bytes() {
        Some(seq!['h', 't', 't', 'p', 's'])
    } else if src.len() <= 64 && forall|i: int| 0 <= i < src.len() ==> is_scheme_byte(#[trigger] src[i]) {
        Some(Seq::new(src.len(), |i: int| src[i] as char))
    } else {
        None
    }
}

/// Calls `http::uri::Scheme::try_from(&[u8])` and hands back the parsed scheme's
/// `as_str()`. Claimed: it succeeds exactly on the names of `scheme_name_of`,
/// with that name (the source matches `http` and `https` exactly, and checks
/// every other name against a table of scheme characters and a length of 64).
#[verifier::external_body]
pub(crate) fn parse_scheme(src: &[u8]) -> (res: Result<String, http::uri::InvalidUri>)
    ensures
        match res {
            Ok(name) => scheme_name_of(src@) == Some(name@),
            Err(_) => scheme_name_of(src@) is None,
        },
{
    match http::uri::Scheme::try_from(src) {
        Ok(scheme) => Ok(scheme.as_str().to_string()),
        Err(e) => Err(e),
    }
}

/// What `http::uri::PathAndQuery::try_from(&[u8])` makes of `src`, as the text
/// that the parsed value keeps (its `as_str()`, except that an empty path, which
/// `as_str` shows as `/`, keeps the empty text); `None` where it returns an
/// error.
pub uninterp spec fn parsed_path_and_query(src: Seq<u8>) -> Option<Seq<char>>;

/// Calls `http::uri::PathAndQuery::try_from(&[u8])` and hands back the text
/// that the parsed value keeps. `as_str` shows an empty path as `/`; `http`
/// tells the two apart in a URI's parts, since `Uri::into_parts` leaves out the
/// path-and-query of a URI without a scheme when it is empty. So the value is
/// made into such a URI (`Uri::from`) and its parts are taken. Claimed: the
/// outcome is `parsed_path_and_query` of the bytes. Which inputs parse, and to
/// what, is left to the name.
#[verifier::external_body]
pub(crate) fn parse_path_and_query(src: &[u8]) -> (res: Result<String, http::uri::InvalidUri>)
    ensures
        match res {
            Ok(data) => parsed_path_and_query(src@) == Some(data@),
            Err(_) => parsed_path_and_query(src@) is None,
        },
{
    let path_and_query = match http::uri::PathAndQuery::try_from(src) {
        Ok(path_and_query) => path_and_query,
        Err(e) => return Err(e),
    };
    match http::Uri::from(path_and_query).into_parts().path_and_query {
        Some(kept) => Ok(kept.as_str().to_string()),
        None => Ok(String::new()),
    }
}

/// Whether `http::uri::Authority::try_from(&[u8])` accepts `src`.
pub uninterp spec fn authority_accepts(src: Seq<u8>) -> bool;

/// Calls `http::uri::Authority::try_from(&[u8])` and hands back the parsed
/// value's `as_str()`. Claimed: it succeeds where `authority_accepts` holds, and
/// then the text is the input itself (the source keeps all the bytes it
/// checked). Which inputs it accepts is left to the name.
#[verifier::external_body]
pub(crate) fn parse_authority(src: &[u8]) -> (res: Result<String, http::uri::InvalidUri>)
    ensures
        res is Ok <==> authority_accepts(src@),
        res matches Ok(text) ==> vstd::utf8::encode_utf8(text@) == src@,
{
    match http::uri::Authority::try_from(src) {
        Ok(authority) => Ok(authority.as_str().to_string()),
        Err(e) => Err(e),
    }
}

/// What `http::Uri::try_from(&[u8])` makes of `src`: the scheme's and the
/// authority's `as_str()`, and the text that the path-and-query keeps (empty for
/// an empty path), of each part that `Uri::into_parts` then gives; `None` where
/// it returns an error.
pub uninterp spec fn parsed_uri(src: Seq<u8>) -> Option<
    (Option<Seq<char>>, Option<Seq<char>>, Option<Seq<char>>),
>;

/// Calls `http::Uri::try_from(&[u8])`, then `into_parts`, and hands back the
/// text of each part present. The path-and-query's kept text is found as
/// `parse_path_and_query` finds it, through `Uri::from` and `into_parts`.
/// Claimed: the outcome is `parsed_uri` of the bytes. Which inputs parse, and
/// to what, is left to the name.
#[verifier::external_body]
pub(crate) fn parse_uri(src: &[u8]) -> (res: Result<
    (Option<String>, Option<String>, Option<String>),
    http::uri::InvalidUri,
>)
    ensures
        match res {
            Ok((scheme, authority, path_and_query)) => parsed_uri(src@) == Some(
                (
                    match scheme { Some(s) => Some(s@), None => None },
                    match authority { Some(a) => Some(a@), None => None },
                    match path_and_query { Some(p) => Some(p@), None => None },
                ),
            ),
            Err(_) => parsed_uri(src@) is None,
        },
{
    let parts = match http::Uri::try_from(src) {
        Ok(uri) => uri.into_parts(),
        Err(e) => return Err(e),
    };
    let scheme = parts.scheme.as_ref().map(http::uri::Scheme::as_str).map(str::to_string);
    let authority = parts.authority.as_ref().map(http::uri::Authority::as_str).map(str::to_string);
    let path_and_query = match parts.path_and_query {
        Some(p) => match http::Uri::from(p).into_parts().path_and_query {
            Some(kept) => Some(kept.as_str().to_string()),
            None => Some(String::new()),
        },
        None => None,
    };
    Ok((scheme, authority, path_and_query))
}

} // verus!
