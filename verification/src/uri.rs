//! Base URIs, and the URIs that joining a reference onto one gives.
use vstd::prelude::*;
use vstd::string::*;
use crate::authority::Authority;
use crate::http_calls::{parse_uri, parsed_uri};
use crate::parts::{accepted_parts, parts_rejection, InvalidPartsError, Parts, UriParts};
use crate::path::{display_of, joined, path_of, query_of, Path, PathAndQuery};
use crate::scheme::{is_http_name, Scheme};
use crate::text::concat;

verus! {

/// The text `://`.
pub open spec fn scheme_separator() -> Seq<char> {
    seq![':', '/', '/']
}

/// `http::Uri` subset with `Scheme` and `Path` instead
#[derive(Debug, PartialEq, Eq)]
pub struct Uri {
    scheme: Scheme,
    authority: Authority,
    path: Path,
}

impl View for Uri {
    /// The scheme's name, the authority and the path.
    type V = (Seq<char>, Seq<char>, Seq<char>);

    closed spec fn view(&self) -> Self::V {
        (self.scheme@, self.authority@, self.path@)
    }
}

impl Clone for Uri {
    fn clone(&self) -> (res: Self)
        ensures
            res@ == self@,
    {
        Uri { scheme: self.scheme, authority: self.authority.clone(), path: self.path.clone() }
    }
}

impl Uri {
    pub fn scheme(&self) -> (res: &Scheme)
        ensures
            res@ == self@.0,
            is_http_name(self@.0),
    {
        &self.scheme
    }

    pub fn authority(&self) -> (res: &Authority)
        ensures
            res@ == self@.1,
    {
        &self.authority
    }

    pub fn path(&self) -> (res: &Path)
        ensures
            res@ == self@.2,
            query_of(self@.2) is None,
    {
        // `as_str` states what every path keeps.
        let _ = self.path.as_str();
        &self.path
    }

    pub fn from_parts(src: Parts) -> (res: Self)
        ensures
            res@ == src@,
    {
        let Parts { scheme, authority, path } = src;
        Self { scheme, authority, path }
    }

    /// The URI's parts.
    pub fn into_parts(self) -> (res: Parts)
        ensures
            res@ == self@,
    {
        Parts::new(self.scheme, self.authority, self.path)
    }

    /// The URI's parts as parts of any URI, all present.
    pub fn into_uri_parts(self) -> (res: UriParts)
        ensures
            res@ == (Some(self@.0), Some(self@.1), Some(self@.2)),
    {
        self.into_parts().into_uri_parts()
    }

    /// Joins a path (and query) onto this URI (treating the path as relative)
    pub fn join(self, path_and_query: PathAndQuery) -> (res: AbsoluteUri)
        ensures
            res@ == (self@.0, self@.1, joined(self@.2, path_and_query@)),
    {
        let Parts { scheme, authority, path } = self.into_parts();
        AbsoluteUri { scheme, authority, path_and_query: path.join(path_and_query) }
    }

    /// The URI as `Display` writes it: the scheme, `://`, the authority and the
    /// path.
    pub fn to_string(&self) -> (res: String)
        ensures
            res@ == self@.0 + scheme_separator() + self@.1 + display_of(self@.2),
    {
        proof {
            reveal_strlit("://");
            assert("://"@ =~= scheme_separator());
        }
        let mut res = concat(self.scheme.as_str(), "://");
        res.append(self.authority.as_str());
        let path = self.path.to_string();
        res.append(path.as_str());
        res
    }

    /// Accepts the parts of a URI that has a scheme that is HTTP or HTTPS, an
    /// authority, and a path without a query.
    pub fn try_from_parts(value: UriParts) -> (res: Result<Self, InvalidPartsError>)
        ensures
            match res {
                Ok(uri) => accepted_parts(value@) == Some(uri@),
                Err(e) => accepted_parts(value@) is None && parts_rejection(value@, e),
            },
    {
        match Parts::try_from_parts(value) {
            Ok(parts) => Ok(Self::from_parts(parts)),
            Err(e) => Err(e),
        }
    }

    /// What parsing gives where the URI parser found `parsed`.
    pub open spec fn parse_outcome(
        parsed: Option<(Option<Seq<char>>, Option<Seq<char>>, Option<Seq<char>>)>,
        res: Result<Uri, InvalidUriError>,
    ) -> bool {
        match parsed {
            None => res matches Err(e) && e.is_unparsable(),
            Some(parts) => match res {
                Ok(uri) => accepted_parts(parts) == Some(uri@),
                Err(e) => {
                    &&& accepted_parts(parts) is None
                    &&& e.invalid_parts() matches Some(pe)
                    &&& parts_rejection(parts, pe)
                },
            },
        }
    }

    /// Parses a base URI from bytes: it must parse as a URI whose parts are
    /// acceptable.
    pub fn try_from_bytes(value: &[u8]) -> (res: Result<Self, InvalidUriError>)
        ensures
            Self::parse_outcome(parsed_uri(value@), res),
    {
        match parse_uri(value) {
            Ok((scheme, authority, path_and_query)) => {
                let authority = match authority {
                    Some(text) => Some(Authority::from_text(text)),
                    None => None,
                };
                let path_and_query = match path_and_query {
                    Some(text) => Some(PathAndQuery::from_data(text)),
                    None => None,
                };
                let parts = UriParts { scheme, authority, path_and_query };
                match Self::try_from_parts(parts) {
                    Ok(uri) => Ok(uri),
                    Err(e) => Err(InvalidUriError(InvalidUriKind::InvalidParts { source: e })),
                }
            },
            Err(e) => Err(InvalidUriError(InvalidUriKind::ParseUri { source: e })),
        }
    }

    /// Parses a base URI from text, as `try_from_bytes` does its UTF-8 bytes.
    pub fn try_from_str(value: &str) -> (res: Result<Self, InvalidUriError>)
        ensures
            Self::parse_outcome(parsed_uri(value.spec_bytes()), res),
    {
        Self::try_from_bytes(value.as_bytes())
    }

    pub fn from_str(s: &str) -> (res: Result<Self, InvalidUriError>)
        ensures
            Self::parse_outcome(parsed_uri(s.spec_bytes()), res),
    {
        Self::try_from_str(s)
    }

    /// Parses a base URI from an owned text, as `try_from_bytes` does its UTF-8
    /// bytes.
    pub fn try_from_string(value: String) -> (res: Result<Self, InvalidUriError>)
        ensures
            Self::parse_outcome(parsed_uri(vstd::utf8::encode_utf8(value@)), res),
    {
        Self::try_from_bytes(value.as_str().as_bytes())
    }

    /// Parses a base URI from owned bytes, as `try_from_bytes` does.
    pub fn try_from_vec(value: Vec<u8>) -> (res: Result<Self, InvalidUriError>)
        ensures
            Self::parse_outcome(parsed_uri(value@), res),
    {
        Self::try_from_bytes(value.as_slice())
    }
}

/// A URI with a scheme, an authority and a path that may have a query: what
/// joining a path-and-query onto a base URI gives.
#[derive(Debug)]
pub struct AbsoluteUri {
    pub scheme: Scheme,
    pub authority: Authority,
    pub path_and_query: PathAndQuery,
}

impl View for AbsoluteUri {
    /// The scheme's name, the authority and the path-and-query.
    type V = (Seq<char>, Seq<char>, Seq<char>);

    open spec fn view(&self) -> Self::V {
        (self.scheme@, self.authority@, self.path_and_query@)
    }
}

/// A URI's path-and-query as `Display` writes it: the path, then `?` and the
/// query where there is one.
pub open spec fn path_and_query_display(text: Seq<char>) -> Seq<char> {
    match query_of(text) {
        Some(q) => path_of(text) + seq!['?'] + q,
        None => path_of(text),
    }
}

impl AbsoluteUri {
    /// The URI as `Display` writes it: the scheme, `://`, the authority, the path
    /// and, where there is one, `?` and the query.
    pub fn to_string(&self) -> (res: String)
        ensures
            res@ == self@.0 + scheme_separator() + self@.1 + path_and_query_display(self@.2),
    {
        proof {
            reveal_strlit("://");
            assert("://"@ =~= scheme_separator());
            reveal_strlit("?");
            assert("?"@ =~= seq!['?']);
        }
        let mut res = concat(self.scheme.as_str(), "://");
        res.append(self.authority.as_str());
        let path = self.path_and_query.path();
        res.append(path.as_str());
        match self.path_and_query.query() {
            Some(q) => {
                res.append("?");
                res.append(q.as_str());
            },
            None => {},
        }
        res
    }
}

/// Error of the conversions into a `Uri`.
#[derive(Debug)]
pub struct InvalidUriError(InvalidUriKind);

#[derive(Debug)]
enum InvalidUriKind {
    ParseUri { source: http::uri::InvalidUri },
    InvalidParts { source: InvalidPartsError },
}

impl InvalidUriError {
    /// The text could not be parsed as a URI at all.
    pub closed spec fn is_unparsable(&self) -> bool {
        self.0 is ParseUri
    }

    /// The URI's parts were not acceptable: the parts' error.
    pub closed spec fn invalid_parts(&self) -> Option<InvalidPartsError> {
        match self.0 {
            InvalidUriKind::InvalidParts { source } => Some(source),
            _ => None,
        }
    }

    pub proof fn lemma_kinds(&self)
        ensures
            self.is_unparsable() <==> self.invalid_parts() is None,
    {
    }

    /// The message, as `Display` writes it.
    pub fn to_string(&self) -> (res: String)
        ensures
            self.is_unparsable() ==> res@ == "could not parse Uri"@,
            self.invalid_parts() is Some ==> res@ == "invalid parts"@,
    {
        match &self.0 {
            InvalidUriKind::ParseUri { .. } => String::from_str("could not parse Uri"),
            InvalidUriKind::InvalidParts { .. } => String::from_str("invalid parts"),
        }
    }

    /// The parser's error, where the text could not be parsed.
    pub fn parse_source(&self) -> (res: Option<&http::uri::InvalidUri>)
        ensures
            res is Some <==> self.is_unparsable(),
    {
        match &self.0 {
            InvalidUriKind::ParseUri { source } => Some(source),
            InvalidUriKind::InvalidParts { .. } => None,
        }
    }

    /// The parts' error, where the parts were not acceptable.
    pub fn parts_source(&self) -> (res: Option<&InvalidPartsError>)
        ensures
            res is Some <==> self.invalid_parts() is Some,
            res matches Some(e) ==> self.invalid_parts() == Some(*e),
    {
        match &self.0 {
            InvalidUriKind::InvalidParts { source } => Some(source),
            InvalidUriKind::ParseUri { .. } => None,
        }
    }
}

impl core::str::FromStr for Uri {
    type Err = InvalidUriError;

    fn from_str(s: &str) -> (res: Result<Uri, InvalidUriError>)
        ensures
            Uri::parse_outcome(parsed_uri(s.spec_bytes()), res),
    {
        Uri::from_str(s)
    }
}

} // verus!
