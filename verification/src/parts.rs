//! The parts of a URI: those of any URI, and those of a base URI.
use vstd::prelude::*;
use vstd::string::*;
use crate::authority::Authority;
use crate::path::{query_of, InvalidPathError, Path, PathAndQuery};
use crate::scheme::{is_http_name, InvalidSchemeError, Scheme};

verus! {

/// The text of an optional part.
pub open spec fn text_of<T: View<V = Seq<char>>>(part: Option<T>) -> Option<Seq<char>> {
    match part {
        Some(p) => Some(p@),
        None => None,
    }
}

/// The parts of any URI, as `http::Uri::into_parts` gives them: each one
/// optional, the scheme by its name (as `http::uri::Scheme::as_str` gives it).
#[derive(Debug)]
pub struct UriParts {
    pub scheme: Option<String>,
    pub authority: Option<Authority>,
    pub path_and_query: Option<PathAndQuery>,
}

impl View for UriParts {
    type V = (Option<Seq<char>>, Option<Seq<char>>, Option<Seq<char>>);

    open spec fn view(&self) -> Self::V {
        (text_of(self.scheme), text_of(self.authority), text_of(self.path_and_query))
    }
}

impl UriParts {
    /// Parts with nothing in them.
    pub fn new() -> (res: UriParts)
        ensures
            res@ == (None::<Seq<char>>, None::<Seq<char>>, None::<Seq<char>>),
    {
        UriParts { scheme: None, authority: None, path_and_query: None }
    }
}

/// What a base URI is made of where `parts` are acceptable: its scheme name,
/// authority and path.
pub open spec fn accepted_parts(
    parts: (Option<Seq<char>>, Option<Seq<char>>, Option<Seq<char>>),
) -> Option<(Seq<char>, Seq<char>, Seq<char>)> {
    match parts {
        (Some(s), Some(a), Some(p)) => if is_http_name(s) && query_of(p) is None {
            Some((s, a, p))
        } else {
            None
        },
        _ => None,
    }
}

/// `e` is the error for `parts`: the scheme is checked first, then the
/// authority, then the path-and-query.
pub open spec fn parts_rejection(
    parts: (Option<Seq<char>>, Option<Seq<char>>, Option<Seq<char>>),
    e: InvalidPartsError,
) -> bool {
    match parts.0 {
        None => e.is_missing_scheme(),
        Some(s) => if !is_http_name(s) {
            e.invalid_scheme() matches Some(se) && se.rejected_name() == Some(s)
        } else {
            match parts.1 {
                None => e.is_missing_authority(),
                Some(_) => match parts.2 {
                    None => e.is_missing_path_and_query(),
                    Some(p) => e.invalid_path() matches Some(pe) && pe.rejected() == Some(p),
                },
            }
        },
    }
}

/// The parts of a base URI.
#[derive(Debug)]
#[non_exhaustive]
pub struct Parts {
    pub scheme: Scheme,
    pub authority: Authority,
    pub path: Path,
}

impl View for Parts {
    type V = (Seq<char>, Seq<char>, Seq<char>);

    open spec fn view(&self) -> Self::V {
        (self.scheme@, self.authority@, self.path@)
    }
}

impl Parts {
    pub fn new(scheme: Scheme, authority: Authority, path: Path) -> (res: Self)
        ensures
            res.scheme == scheme,
            res.authority == authority,
            res.path == path,
    {
        Self { authority, scheme, path }
    }

    /// Accepts the parts of a URI that has a scheme that is HTTP or HTTPS, an
    /// authority, and a path without a query.
    pub fn try_from_parts(value: UriParts) -> (res: Result<Self, InvalidPartsError>)
        ensures
            match res {
                Ok(parts) => accepted_parts(value@) == Some(parts@),
                Err(e) => accepted_parts(value@) is None && parts_rejection(value@, e),
            },
    {
        let UriParts { scheme, authority, path_and_query } = value;
        let scheme = match scheme {
            Some(name) => match Scheme::try_from_name(name.as_str()) {
                Ok(scheme) => scheme,
                Err(e) => {
                    return Err(InvalidPartsError(InvalidPartsKind::InvalidScheme { source: e }));
                },
            },
            None => {
                return Err(InvalidPartsError(InvalidPartsKind::MissingScheme));
            },
        };
        let authority = match authority {
            Some(authority) => authority,
            None => {
                return Err(InvalidPartsError(InvalidPartsKind::MissingAuthority));
            },
        };
        let path = match path_and_query {
            Some(path_and_query) => match Path::try_from_path_and_query(path_and_query) {
                Ok(path) => path,
                Err(e) => {
                    return Err(
                        InvalidPartsError(InvalidPartsKind::InvalidPathAndQuery { source: e }),
                    );
                },
            },
            None => {
                return Err(InvalidPartsError(InvalidPartsKind::MissingPathAndQuery));
            },
        };
        Ok(Self { scheme, authority, path })
    }

    /// The parts as parts of any URI, all present.
    pub fn into_uri_parts(self) -> (res: UriParts)
        ensures
            res@ == (Some(self@.0), Some(self@.1), Some(self@.2)),
    {
        UriParts {
            scheme: Some(String::from_str(self.scheme.as_str())),
            authority: Some(self.authority),
            path_and_query: Some(self.path.into_path_and_query()),
        }
    }
}

/// Error of the conversions into `Parts`.
#[derive(Debug)]
pub struct InvalidPartsError(InvalidPartsKind);

#[derive(Debug)]
enum InvalidPartsKind {
    InvalidScheme { source: InvalidSchemeError },
    MissingScheme,
    MissingAuthority,
    InvalidPathAndQuery { source: InvalidPathError },
    MissingPathAndQuery,
}

impl InvalidPartsError {
    /// The scheme is not HTTP or HTTPS: the scheme's error.
    pub closed spec fn invalid_scheme(&self) -> Option<InvalidSchemeError> {
        match self.0 {
            InvalidPartsKind::InvalidScheme { source } => Some(source),
            _ => None,
        }
    }

    pub closed spec fn is_missing_scheme(&self) -> bool {
        self.0 is MissingScheme
    }

    pub closed spec fn is_missing_authority(&self) -> bool {
        self.0 is MissingAuthority
    }

    /// The path-and-query has a query: the path's error.
    pub closed spec fn invalid_path(&self) -> Option<InvalidPathError> {
        match self.0 {
            InvalidPartsKind::InvalidPathAndQuery { source } => Some(source),
            _ => None,
        }
    }

    pub closed spec fn is_missing_path_and_query(&self) -> bool {
        self.0 is MissingPathAndQuery
    }

    /// Exactly one of the kinds holds.
    pub proof fn lemma_kinds(&self)
        ensures
            self.invalid_scheme() is Some <==> !(self.is_missing_scheme()
                || self.is_missing_authority() || self.invalid_path() is Some
                || self.is_missing_path_and_query()),
            self.is_missing_scheme() ==> !(self.is_missing_authority() || self.invalid_path() is Some
                || self.is_missing_path_and_query()),
            self.is_missing_authority() ==> !(self.invalid_path() is Some
                || self.is_missing_path_and_query()),
            self.invalid_path() is Some ==> !self.is_missing_path_and_query(),
    {
    }

    /// The message, as `Display` writes it.
    pub fn to_string(&self) -> (res: String)
        ensures
            self.invalid_scheme() is Some ==> res@ == "invalid scheme"@,
            self.is_missing_scheme() ==> res@ == "missing scheme"@,
            self.is_missing_authority() ==> res@ == "missing authority"@,
            self.invalid_path() is Some ==> res@ == "invalid path and query"@,
            self.is_missing_path_and_query() ==> res@ == "missing path and query"@,
    {
        match &self.0 {
            InvalidPartsKind::InvalidScheme { .. } => String::from_str("invalid scheme"),
            InvalidPartsKind::MissingScheme => String::from_str("missing scheme"),
            InvalidPartsKind::MissingAuthority => String::from_str("missing authority"),
            InvalidPartsKind::InvalidPathAndQuery { .. } => String::from_str("invalid path and query"),
            InvalidPartsKind::MissingPathAndQuery => String::from_str("missing path and query"),
        }
    }

    /// The scheme's error, where the scheme was rejected.
    pub fn scheme_source(&self) -> (res: Option<&InvalidSchemeError>)
        ensures
            res is Some <==> self.invalid_scheme() is Some,
            res matches Some(e) ==> self.invalid_scheme() == Some(*e),
    {
        match &self.0 {
            InvalidPartsKind::InvalidScheme { source } => Some(source),
            _ => None,
        }
    }

    /// The path's error, where the path-and-query was rejected.
    pub fn path_source(&self) -> (res: Option<&InvalidPathError>)
        ensures
            res is Some <==> self.invalid_path() is Some,
            res matches Some(e) ==> self.invalid_path() == Some(*e),
    {
        match &self.0 {
            InvalidPartsKind::InvalidPathAndQuery { source } => Some(source),
            _ => None,
        }
    }
}

} // verus!
