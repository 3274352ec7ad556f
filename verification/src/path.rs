//! Paths (with or without a query) and base paths, which never have a query.
use vstd::prelude::*;
use vstd::string::*;
use crate::order::{compare_texts, text_order};
use crate::http_calls::{parse_path_and_query, parsed_path_and_query};
use crate::text::{
    concat, find_char, first_index_of, last_index_of, lemma_last_index_of, rfind_char, str_eq,
    substring, chars_of,
};

verus! {

/// The text `/`.
pub open spec fn slash() -> Seq<char> {
    seq!['/']
}

/// The text that `as_str` gives for a path-and-query that keeps `data`: `/`
/// where the path is empty, the data itself otherwise.
pub open spec fn as_text(data: Seq<char>) -> Seq<char> {
    if data.len() == 0 {
        slash()
    } else {
        data
    }
}

/// A path-and-query whose text is just `/`: the empty path, or `/` itself.
pub open spec fn is_empty_path(data: Seq<char>) -> bool {
    as_text(data) == slash()
}

/// The query of a path-and-query: what follows its first `?`.
pub open spec fn query_of(text: Seq<char>) -> Option<Seq<char>> {
    match first_index_of(text, '?') {
        Some(i) => Some(text.skip(i + 1)),
        None => None,
    }
}

/// The path of a path-and-query: what comes before its first `?`, or `/`
/// where that is empty.
pub open spec fn path_of(text: Seq<char>) -> Seq<char> {
    match first_index_of(text, '?') {
        Some(i) => if i == 0 { slash() } else { text.take(i) },
        None => as_text(text),
    }
}

/// A path-and-query as `Display` writes it: with a leading `/` added unless it
/// starts with `/` or `*`.
pub open spec fn display_of(text: Seq<char>) -> Seq<char> {
    if text.len() > 0 && (text[0] == '/' || text[0] == '*') {
        text
    } else {
        slash() + text
    }
}

/// The part of a base path that a reference is appended to: everything before
/// its last `/` (RFC 3986, section 5.2.3).
pub open spec fn merge_base(path: Seq<char>) -> Seq<char> {
    match last_index_of(path, '/') {
        Some(i) => path.take(i),
        None => Seq::empty(),
    }
}

/// What `reference` joined onto the base path `base` keeps.
pub open spec fn joined(base: Seq<char>, reference: Seq<char>) -> Seq<char> {
    if is_empty_path(base) {
        reference
    } else if is_empty_path(reference) {
        base
    } else {
        merge_base(base) + reference
    }
}

/// A path with an optional query, as `http::uri::PathAndQuery` parses it. It
/// keeps the text it was parsed from (up to a fragment), which is empty for an
/// empty path; two path-and-queries are equal where they keep the same text.
#[derive(Debug, PartialEq, Eq, Hash)]
pub struct PathAndQuery {
    data: String,
}

impl View for PathAndQuery {
    type V = Seq<char>;

    /// The text it keeps (empty for an empty path).
    closed spec fn view(&self) -> Seq<char> {
        self.data@
    }
}

impl PathAndQuery {
    /// The path-and-query that keeps the given text.
    pub(crate) fn from_data(data: String) -> (res: PathAndQuery)
        ensures
            res@ == data@,
    {
        PathAndQuery { data }
    }

    /// Parses the bytes of a path with an optional query.
    pub fn try_from_bytes(src: &[u8]) -> (res: Result<PathAndQuery, http::uri::InvalidUri>)
        ensures
            match parsed_path_and_query(src@) {
                Some(data) => res matches Ok(p) && p@ == data,
                None => res is Err,
            },
    {
        match parse_path_and_query(src) {
            Ok(data) => Ok(PathAndQuery { data }),
            Err(e) => Err(e),
        }
    }

    /// Parses a path with an optional query, as `try_from_bytes` does its UTF-8
    /// bytes.
    pub fn from_str(s: &str) -> (res: Result<PathAndQuery, http::uri::InvalidUri>)
        ensures
            match parsed_path_and_query(s.spec_bytes()) {
                Some(data) => res matches Ok(p) && p@ == data,
                None => res is Err,
            },
    {
        Self::try_from_bytes(s.as_bytes())
    }

    /// The text: `/` for an empty path, the kept text otherwise.
    pub fn as_str(&self) -> (res: &str)
        ensures
            res@ == as_text(self@),
    {
        proof {
            reveal_strlit("/");
            assert("/"@ =~= slash());
        }
        if self.data.as_str().is_empty() {
            "/"
        } else {
            self.data.as_str()
        }
    }

    /// The text it keeps, empty for an empty path.
    pub fn data_str(&self) -> (res: &str)
        ensures
            res@ == self@,
    {
        self.data.as_str()
    }

    /// The path: the text before the first `?`, or `/` where that is empty.
    pub fn path(&self) -> (res: String)
        ensures
            res@ == path_of(self@),
    {
        proof {
            reveal_strlit("/");
            assert("/"@ =~= slash());
        }
        match find_char(self.data_str(), '?') {
            Some(i) => if i == 0 {
                String::from_str("/")
            } else {
                proof { crate::text::lemma_first_index_of(self@, '?'); }
                substring(self.data_str(), 0, i)
            },
            None => String::from_str(self.as_str()),
        }
    }

    /// The query: the text after the first `?`, where there is one.
    pub fn query(&self) -> (res: Option<String>)
        ensures
            match query_of(self@) {
                Some(q) => res matches Some(r) && r@ == q,
                None => res is None,
            },
    {
        proof { crate::text::lemma_first_index_of(self@, '?'); }
        match find_char(self.data_str(), '?') {
            Some(i) => {
                let n = crate::text::char_count(self.data_str());
                Some(substring(self.data_str(), i + 1, n))
            },
            None => None,
        }
    }

    /// The text as `Display` writes it.
    pub fn to_string(&self) -> (res: String)
        ensures
            res@ == display_of(self@),
    {
        proof {
            reveal_strlit("/");
            assert("/"@ =~= slash());
        }
        let chars = chars_of(self.data_str());
        if chars.len() > 0 && (chars[0] == '/' || chars[0] == '*') {
            String::from_str(self.data_str())
        } else {
            concat("/", self.data_str())
        }
    }
}

impl Clone for PathAndQuery {
    fn clone(&self) -> (res: Self)
        ensures
            res@ == self@,
    {
        PathAndQuery { data: self.data.clone() }
    }
}

/// What `http::uri::PathAndQuery` offers beside itself, and `Path` too.
pub trait PathExt {
    /// The text of the path, as `as_str` gives it.
    spec fn path_text(&self) -> Seq<char>;

    /// Returns whether the path is empty, i.e. just `/`
    fn is_empty(&self) -> (res: bool)
        ensures
            res == (self.path_text() == slash()),
    ;

    /// Returns whether the path ends with a slash, i.e. `/` (or is empty)
    fn ends_with_slash(&self) -> (res: bool)
        ensures
            res == (self.path_text().len() > 0 && self.path_text().last() == '/'),
    ;
}

fn is_slash(s: &str) -> (res: bool)
    ensures
        res == (s@ == slash()),
{
    proof {
        reveal_strlit("/");
        assert("/"@ =~= slash());
    }
    str_eq(s, "/")
}

fn ends_with_slash_str(s: &str) -> (res: bool)
    ensures
        res == (s@.len() > 0 && s@.last() == '/'),
{
    let chars = chars_of(s);
    chars.len() > 0 && chars[chars.len() - 1] == '/'
}

impl PathExt for PathAndQuery {
    open spec fn path_text(&self) -> Seq<char> {
        as_text(self@)
    }

    fn is_empty(&self) -> (res: bool) {
        is_slash(self.as_str())
    }

    fn ends_with_slash(&self) -> (res: bool) {
        ends_with_slash_str(self.as_str())
    }
}

/// A `PathAndQuery` without a query.
#[derive(Debug, PartialEq, Eq, Hash)]
pub struct Path(PathAndQuery);

impl View for Path {
    type V = Seq<char>;

    /// The text it keeps (empty for an empty path).
    closed spec fn view(&self) -> Seq<char> {
        self.0@
    }
}

proof fn lemma_no_query(text: Seq<char>)
    ensures
        query_of(text) is None <==> !text.contains('?'),
{
    crate::text::lemma_first_index_of(text, '?');
}

impl Path {
    #[verifier::type_invariant]
    closed spec fn inv(self) -> bool {
        !self.0@.contains('?')
    }

    /// The text: `/` for an empty path, the kept text otherwise.
    pub fn as_str(&self) -> (res: &str)
        ensures
            res@ == as_text(self@),
            query_of(self@) is None,
    {
        proof {
            use_type_invariant(self);
            lemma_no_query(self@);
        }
        self.0.as_str()
    }

    /// The text it keeps, empty for an empty path.
    pub fn data_str(&self) -> (res: &str)
        ensures
            res@ == self@,
    {
        self.0.data_str()
    }

    /// The path as `Display` writes it.
    pub fn to_string(&self) -> (res: String)
        ensures
            res@ == display_of(self@),
    {
        self.0.to_string()
    }

    /// The path as a `PathAndQuery`.
    pub fn as_path_and_query(&self) -> (res: &PathAndQuery)
        ensures
            res@ == self@,
    {
        &self.0
    }

    /// The path as a `PathAndQuery`.
    pub fn into_path_and_query(self) -> (res: PathAndQuery)
        ensures
            res@ == self@,
    {
        self.0
    }

    /// Compares its text (as `as_str` gives it) with a text.
    pub fn eq_str(&self, other: &str) -> (res: bool)
        ensures
            res == (as_text(self@) == other@),
    {
        str_eq(self.as_str(), other)
    }

    /// Compares with a path-and-query by the texts they keep.
    pub fn eq_path_and_query(&self, other: &PathAndQuery) -> (res: bool)
        ensures
            res == (self@ == other@),
    {
        str_eq(self.0.data_str(), other.data_str())
    }

    /// Orders the path against a text, as texts are ordered.
    pub fn partial_cmp_str(&self, other: &str) -> (res: Option<core::cmp::Ordering>)
        ensures
            res == Some(text_order(as_text(self@), other@)),
    {
        Some(compare_texts(self.as_str(), other))
    }

    /// Orders the path against a path-and-query, by their texts.
    pub fn partial_cmp_path_and_query(&self, other: &PathAndQuery) -> (res: Option<
        core::cmp::Ordering,
    >)
        ensures
            res == Some(text_order(as_text(self@), as_text(other@))),
    {
        Some(compare_texts(self.as_str(), other.as_str()))
    }

    /// Orders the path against another path, by their texts.
    pub fn partial_cmp_path(&self, other: &Path) -> (res: Option<core::cmp::Ordering>)
        ensures
            res == Some(text_order(as_text(self@), as_text(other@))),
    {
        Some(compare_texts(self.as_str(), other.as_str()))
    }

    /// Joins a path (and query) onto this path (treating the other as relative)
    pub fn join(self, path_and_query: PathAndQuery) -> (res: PathAndQuery)
        ensures
            res@ == joined(self@, path_and_query@),
    {
        if self.is_empty() {
            path_and_query
        } else if path_and_query.is_empty() {
            self.into_path_and_query()
        } else {
            let ghost path = self@;
            proof {
                lemma_last_index_of(path, '/');
            }
            let base = match rfind_char(self.as_str(), '/') {
                None => String::new(),
                Some(i) => substring(self.as_str(), 0, i),
            };
            let buf = concat(base.as_str(), path_and_query.as_str());
            proof {
                assert(base@ == merge_base(path));
            }
            PathAndQuery::from_data(buf)
        }
    }

    /// Accepts a path-and-query that has no query.
    pub fn try_from_path_and_query(value: PathAndQuery) -> (res: Result<Path, InvalidPathError>)
        ensures
            match res {
                Ok(path) => query_of(value@) is None && path@ == value@,
                Err(e) => query_of(value@) is Some && e.rejected() == Some(value@),
            },
    {
        proof {
            lemma_no_query(value@);
        }
        if find_char(value.data_str(), '?').is_none() {
            Ok(Path(value))
        } else {
            Err(InvalidPathError(InvalidPathKind::HasQuery { path_and_query: value }))
        }
    }

    /// What parsing gives where the path-and-query parser found `parsed`.
    pub open spec fn parse_outcome(
        parsed: Option<Seq<char>>,
        res: Result<Path, InvalidPathError>,
    ) -> bool {
        match parsed {
            None => res matches Err(e) && e.is_unparsable(),
            Some(data) => match res {
                Ok(path) => query_of(data) is None && path@ == data,
                Err(e) => query_of(data) is Some && e.rejected() == Some(data),
            },
        }
    }

    /// Parses a path from bytes: it must parse as a path-and-query without a
    /// query.
    pub fn try_from_bytes(value: &[u8]) -> (res: Result<Path, InvalidPathError>)
        ensures
            Self::parse_outcome(parsed_path_and_query(value@), res),
    {
        match PathAndQuery::try_from_bytes(value) {
            Ok(path_and_query) => Self::try_from_path_and_query(path_and_query),
            Err(e) => Err(InvalidPathError(InvalidPathKind::ParsePathAndQuery { source: e })),
        }
    }

    /// Parses a path from text, as `try_from_bytes` does its UTF-8 bytes.
    pub fn try_from_str(value: &str) -> (res: Result<Path, InvalidPathError>)
        ensures
            Self::parse_outcome(parsed_path_and_query(value.spec_bytes()), res),
    {
        Self::try_from_bytes(value.as_bytes())
    }

    pub fn from_str(s: &str) -> (res: Result<Path, InvalidPathError>)
        ensures
            Self::parse_outcome(parsed_path_and_query(s.spec_bytes()), res),
    {
        Self::try_from_str(s)
    }

    /// Parses a path from an owned text, as `try_from_bytes` does its UTF-8 bytes.
    pub fn try_from_string(value: String) -> (res: Result<Path, InvalidPathError>)
        ensures
            Self::parse_outcome(parsed_path_and_query(vstd::utf8::encode_utf8(value@)), res),
    {
        Self::try_from_bytes(value.as_str().as_bytes())
    }

    /// Parses a path from owned bytes, as `try_from_bytes` does.
    pub fn try_from_vec(value: Vec<u8>) -> (res: Result<Path, InvalidPathError>)
        ensures
            Self::parse_outcome(parsed_path_and_query(value@), res),
    {
        Self::try_from_bytes(value.as_slice())
    }
}

impl Clone for Path {
    fn clone(&self) -> (res: Self)
        ensures
            res@ == self@,
    {
        proof {
            use_type_invariant(self);
        }
        Path(self.0.clone())
    }
}

impl PathExt for Path {
    open spec fn path_text(&self) -> Seq<char> {
        as_text(self@)
    }

    fn is_empty(&self) -> (res: bool) {
        is_slash(self.as_str())
    }

    fn ends_with_slash(&self) -> (res: bool) {
        ends_with_slash_str(self.as_str())
    }
}

/// Error of the conversions into a `Path`.
#[derive(Debug)]
pub struct InvalidPathError(InvalidPathKind);

#[derive(Debug)]
enum InvalidPathKind {
    ParsePathAndQuery { source: http::uri::InvalidUri },
    HasQuery { path_and_query: PathAndQuery },
}

impl InvalidPathError {
    #[verifier::type_invariant]
    closed spec fn inv(self) -> bool {
        match self.0 {
            InvalidPathKind::HasQuery { path_and_query } => query_of(path_and_query@) is Some,
            _ => true,
        }
    }

    /// The text could not be parsed as a path-and-query at all.
    pub closed spec fn is_unparsable(&self) -> bool {
        self.0 is ParsePathAndQuery
    }

    /// The kept text of the path-and-query that was parsed but has a query.
    pub closed spec fn rejected(&self) -> Option<Seq<char>> {
        match self.0 {
            InvalidPathKind::HasQuery { path_and_query } => Some(path_and_query@),
            _ => None,
        }
    }

    pub proof fn lemma_kinds(&self)
        ensures
            self.is_unparsable() <==> self.rejected() is None,
    {
    }

    /// The message, as `Display` writes it.
    pub fn to_string(&self) -> (res: String)
        ensures
            self.is_unparsable() ==> res@ == "could not parse scheme"@,
            self.rejected() matches Some(text) ==> query_of(text) matches Some(q) && res@
                == "has query: "@ + q,
    {
        proof {
            use_type_invariant(self);
        }
        match &self.0 {
            InvalidPathKind::ParsePathAndQuery { .. } => String::from_str("could not parse scheme"),
            InvalidPathKind::HasQuery { path_and_query } => {
                let mut res = String::from_str("has query: ");
                match path_and_query.query() {
                    Some(q) => res.append(q.as_str()),
                    None => {},
                }
                res
            },
        }
    }

    /// The parser's error where the text could not be parsed.
    pub fn source(&self) -> (res: Option<&http::uri::InvalidUri>)
        ensures
            res is Some <==> self.is_unparsable(),
    {
        match &self.0 {
            InvalidPathKind::ParsePathAndQuery { source } => Some(source),
            InvalidPathKind::HasQuery { .. } => None,
        }
    }
}

impl core::str::FromStr for Path {
    type Err = InvalidPathError;

    fn from_str(s: &str) -> (res: Result<Path, InvalidPathError>)
        ensures
            Path::parse_outcome(parsed_path_and_query(s.spec_bytes()), res),
    {
        Path::from_str(s)
    }
}

impl core::str::FromStr for PathAndQuery {
    type Err = http::uri::InvalidUri;

    fn from_str(s: &str) -> (res: Result<PathAndQuery, http::uri::InvalidUri>)
        ensures
            match parsed_path_and_query(s.spec_bytes()) {
                Some(data) => res matches Ok(p) && p@ == data,
                None => res is Err,
            },
    {
        PathAndQuery::from_str(s)
    }
}

} // verus!
