//! The scheme of a base URI: `http` or `https`.
use vstd::prelude::*;
use vstd::string::*;
use crate::http_calls::{parse_scheme, scheme_name_of};
use crate::text::{str_eq, str_eq_ignore_ascii_case, eq_ignore_ascii_case};

verus! {

/// The name `http`.
pub open spec fn http_name() -> Seq<char> {
    seq!['h', 't', 't', 'p']
}

/// The name `https`.
pub open spec fn https_name() -> Seq<char> {
    seq!['h', 't', 't', 'p', 's']
}

/// A name that a `Scheme` may have.
pub open spec fn is_http_name(name: Seq<char>) -> bool {
    name == http_name() || name == https_name()
}

/// A URI scheme that is either HTTP or HTTPS.
#[derive(Debug, Clone, Copy, PartialEq, Eq, Hash, Structural)]
pub enum Scheme {
    HTTP,
    HTTPS,
}

impl View for Scheme {
    type V = Seq<char>;

    /// The scheme's name.
    open spec fn view(&self) -> Seq<char> {
        match self {
            Scheme::HTTP => http_name(),
            Scheme::HTTPS => https_name(),
        }
    }
}

impl Scheme {
    pub fn as_str(&self) -> (res: &'static str)
        ensures
            res@ == self@,
    {
        proof {
            reveal_strlit("http");
            reveal_strlit("https");
        }
        match self {
            Scheme::HTTP => "http",
            Scheme::HTTPS => "https",
        }
    }

    /// The scheme as text, as `Display` writes it.
    pub fn to_string(&self) -> (res: String)
        ensures
            res@ == self@,
    {
        String::from_str(self.as_str())
    }

    /// Compares with a name, ignoring ASCII case.
    pub fn eq_str(&self, other: &str) -> (res: bool)
        ensures
            res == eq_ignore_ascii_case(self@, other@),
    {
        str_eq_ignore_ascii_case(self.as_str(), other)
    }

    /// Compares with the URI scheme named `name` (as `http::uri::Scheme::as_str`
    /// gives it): the same scheme exactly where the names are equal, since
    /// `http` gives the names `http` and `https` to its HTTP and HTTPS schemes
    /// only.
    pub fn eq_scheme_name(&self, name: &str) -> (res: bool)
        ensures
            res == (self@ == name@),
    {
        str_eq(self.as_str(), name)
    }

    /// Accepts the scheme named `name` (as `http::uri::Scheme::as_str` gives it)
    /// when it is HTTP or HTTPS.
    pub fn try_from_name(name: &str) -> (res: Result<Scheme, InvalidSchemeError>)
        ensures
            match res {
                Ok(scheme) => is_http_name(name@) && scheme@ == name@,
                Err(e) => !is_http_name(name@) && e.rejected_name() == Some(name@),
            },
    {
        proof {
            reveal_strlit("http");
            reveal_strlit("https");
            assert("http"@ =~= http_name());
            assert("https"@ =~= https_name());
        }
        if str_eq(name, "http") {
            Ok(Scheme::HTTP)
        } else if str_eq(name, "https") {
            Ok(Scheme::HTTPS)
        } else {
            Err(InvalidSchemeError(InvalidSchemeKind::NotHttp { scheme: String::from_str(name) }))
        }
    }

    /// Parses a scheme from bytes: it must parse as a URI scheme and be HTTP or
    /// HTTPS.
    pub fn try_from_bytes(value: &[u8]) -> (res: Result<Scheme, InvalidSchemeError>)
        ensures
            Self::parse_outcome(scheme_name_of(value@), res),
    {
        match parse_scheme(value) {
            Ok(name) => Self::try_from_name(name.as_str()),
            Err(e) => Err(InvalidSchemeError(InvalidSchemeKind::ParseScheme { source: e })),
        }
    }

    /// Parses a scheme from text, as `try_from_bytes` does its UTF-8 bytes.
    pub fn try_from_str(value: &str) -> (res: Result<Scheme, InvalidSchemeError>)
        ensures
            Self::parse_outcome(scheme_name_of(value.spec_bytes()), res),
    {
        Self::try_from_bytes(value.as_bytes())
    }

    pub fn from_str(s: &str) -> (res: Result<Scheme, InvalidSchemeError>)
        ensures
            Self::parse_outcome(scheme_name_of(s.spec_bytes()), res),
    {
        Self::try_from_str(s)
    }

    /// What parsing gives where the scheme parser found `parsed`.
    pub open spec fn parse_outcome(
        parsed: Option<Seq<char>>,
        res: Result<Scheme, InvalidSchemeError>,
    ) -> bool {
        match parsed {
            None => res matches Err(e) && e.is_unparsable(),
            Some(name) => match res {
                Ok(scheme) => is_http_name(name) && scheme@ == name,
                Err(e) => !is_http_name(name) && e.rejected_name() == Some(name),
            },
        }
    }
}

/// Error of the conversions into a `Scheme`.
#[derive(Debug)]
pub struct InvalidSchemeError(InvalidSchemeKind);

#[derive(Debug)]
enum InvalidSchemeKind {
    ParseScheme { source: http::uri::InvalidUri },
    NotHttp { scheme: String },
}

impl InvalidSchemeError {
    /// The text could not be parsed as a scheme at all.
    pub closed spec fn is_unparsable(&self) -> bool {
        self.0 is ParseScheme
    }

    /// The name of the scheme that was parsed but is not HTTP or HTTPS.
    pub closed spec fn rejected_name(&self) -> Option<Seq<char>> {
        match self.0 {
            InvalidSchemeKind::NotHttp { scheme } => Some(scheme@),
            _ => None,
        }
    }

    pub proof fn lemma_kinds(&self)
        ensures
            self.is_unparsable() <==> self.rejected_name() is None,
    {
    }

    /// The message, as `Display` writes it.
    pub fn to_string(&self) -> (res: String)
        ensures
            self.is_unparsable() ==> res@ == "could not parse scheme"@,
            self.rejected_name() matches Some(name) ==> res@ == "scheme not http/s: "@ + name,
    {
        match &self.0 {
            InvalidSchemeKind::ParseScheme { .. } => String::from_str("could not parse scheme"),
            InvalidSchemeKind::NotHttp { scheme } => {
                let mut res = String::from_str("scheme not http/s: ");
                res.append(scheme.as_str());
                res
            },
        }
    }

    /// The parser's error where the text could not be parsed.
    pub fn source(&self) -> (res: Option<&http::uri::InvalidUri>)
        ensures
            res is Some <==> self.is_unparsable(),
    {
        match &self.0 {
            InvalidSchemeKind::ParseScheme { source } => Some(source),
            InvalidSchemeKind::NotHttp { .. } => None,
        }
    }
}

impl core::str::FromStr for Scheme {
    type Err = InvalidSchemeError;

    fn from_str(s: &str) -> (res: Result<Scheme, InvalidSchemeError>)
        ensures
            Scheme::parse_outcome(scheme_name_of(s.spec_bytes()), res),
    {
        Scheme::from_str(s)
    }
}

} // verus!
