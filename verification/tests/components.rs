use std::str::FromStr;

use http_base_uri::{AbsoluteUri, Path, PathAndQuery, PathExt, Scheme, Uri};

fn as_http_uri(uri: AbsoluteUri) -> http::Uri {
    uri.to_string().parse().unwrap()
}

#[test]
fn scheme_tryfrom() {
    let invalid_scheme = http::uri::Scheme::from_str("ftp").unwrap();

    let scheme = Scheme::try_from_name(invalid_scheme.as_str());
    assert_eq!(scheme.unwrap_err().to_string(), "scheme not http/s: ftp");
}

#[test]
fn scheme_into() {
    let scheme = Scheme::HTTPS;
    let scheme = http::uri::Scheme::from_str(scheme.as_str()).unwrap();
    assert_eq!(scheme, http::uri::Scheme::HTTPS);
}

#[test]
fn scheme_eq() {
    let scheme = Scheme::HTTPS;
    assert!(scheme.eq_str("https"));
}

#[test]
fn cheme_fromstr() {
    let scheme = Scheme::from_str("https").unwrap();
    assert_eq!(scheme, Scheme::HTTPS);
}

#[test]
fn path_tryfrom() {
    let invalid_pathandquery = PathAndQuery::from_str("/resource?param=value").unwrap();

    let path = Path::try_from_path_and_query(invalid_pathandquery);
    assert_eq!(path.unwrap_err().to_string(), "has query: param=value");
}

#[test]
fn path_into() {
    let path = Path::from_str("/resource").unwrap();
    let pathandquery: PathAndQuery = path.into_path_and_query();
    assert_eq!(pathandquery, PathAndQuery::from_str("/resource").unwrap());
}

#[test]
fn uri_tryfrom() {
    let invalid_uri = "/resource?param=value";

    let uri = Uri::try_from_str(invalid_uri);
    assert_eq!(uri.unwrap_err().to_string(), "invalid parts");

    let invalid_uri = "api.example.com";

    let uri = Uri::try_from_str(invalid_uri);
    assert_eq!(uri.unwrap_err().to_string(), "invalid parts");
}

#[test]
fn uri_display() {
    let uri = Uri::try_from_str("https://api.example.com/rest/v2#frag1").unwrap();

    assert_eq!(uri.to_string(), "https://api.example.com/rest/v2");
}

#[test]
fn pathext_is_empty() {
    let empty_path_and_query = PathAndQuery::from_str("").unwrap();
    assert!(empty_path_and_query.is_empty());
    let empty_path_and_query = PathAndQuery::from_str("/").unwrap();
    assert!(empty_path_and_query.is_empty());

    let nonempty_path_and_query = PathAndQuery::from_str("/segment").unwrap();
    assert!(!nonempty_path_and_query.is_empty());
    let nonempty_path_and_query = PathAndQuery::from_str("/segment?param=value").unwrap();
    assert!(!nonempty_path_and_query.is_empty());

    let empty_path = Path::from_str("").unwrap();
    assert!(empty_path.is_empty());
    let empty_path = Path::from_str("/").unwrap();
    assert!(empty_path.is_empty());

    let nonempty_path = Path::from_str("/base").unwrap();
    assert!(!nonempty_path.is_empty());
}

#[test]
fn pathext_ends_with_slash() {
    let empty_path_and_query = PathAndQuery::from_str("").unwrap();
    assert!(empty_path_and_query.ends_with_slash());
    let empty_path_and_query = PathAndQuery::from_str("/").unwrap();
    assert!(empty_path_and_query.ends_with_slash());

    let withoutslash_path_and_query = PathAndQuery::from_str("/segment").unwrap();
    assert!(!withoutslash_path_and_query.ends_with_slash());
    let withslash_path_and_query = PathAndQuery::from_str("/segment/").unwrap();
    assert!(withslash_path_and_query.ends_with_slash());

    let empty_path = Path::from_str("").unwrap();
    assert!(empty_path.ends_with_slash());
    let empty_path = Path::from_str("/").unwrap();
    assert!(empty_path.ends_with_slash());

    let withoutslash_path = Path::from_str("/segment").unwrap();
    assert!(!withoutslash_path.ends_with_slash());
    let withslash_path = Path::from_str("/segment/").unwrap();
    assert!(withslash_path.ends_with_slash());
}

#[test]
fn path_join() {
    let empty_path = Path::from_str("").unwrap();
    let empty_path_and_query = PathAndQuery::from_str("").unwrap();
    assert_eq!(empty_path.join(empty_path_and_query).as_str(), "/");

    let nonempty_path = Path::from_str("/base").unwrap();
    let empty_path_and_query = PathAndQuery::from_str("").unwrap();
    assert_eq!(nonempty_path.join(empty_path_and_query).as_str(), "/base");

    let empty_path = Path::from_str("").unwrap();
    let nonempty_path_and_query = PathAndQuery::from_str("/segment?param=value").unwrap();
    assert_eq!(
        empty_path.join(nonempty_path_and_query).as_str(),
        "/segment?param=value"
    );

    let nonempty_path = Path::from_str("/base").unwrap();
    let nonempty_path_and_query = PathAndQuery::from_str("/segment?param=value").unwrap();
    assert_eq!(
        nonempty_path.join(nonempty_path_and_query).as_str(),
        "/segment?param=value"
    );

    let nonempty_path = Path::from_str("/base/").unwrap();
    let nonempty_path_and_query = PathAndQuery::from_str("/segment?param=value").unwrap();
    assert_eq!(
        nonempty_path.join(nonempty_path_and_query).as_str(),
        "/base/segment?param=value"
    );
}

#[test]
fn uri_join() {
    let uri = Uri::from_str("https://api.example.com").unwrap();
    let empty_path_and_query = PathAndQuery::from_str("").unwrap();
    assert_eq!(as_http_uri(uri.join(empty_path_and_query)), "https://api.example.com");

    let uri = Uri::from_str("https://api.example.com/base").unwrap();
    let empty_path_and_query = PathAndQuery::from_str("").unwrap();
    assert_eq!(
        as_http_uri(uri.join(empty_path_and_query)),
        "https://api.example.com/base"
    );

    let uri = Uri::from_str("https://api.example.com").unwrap();
    let nonempty_path_and_query = PathAndQuery::from_str("/segment?param=value").unwrap();
    assert_eq!(
        as_http_uri(uri.join(nonempty_path_and_query)),
        "https://api.example.com/segment?param=value"
    );

    let uri = Uri::from_str("https://api.example.com/base").unwrap();
    let nonempty_path_and_query = PathAndQuery::from_str("/segment?param=value").unwrap();
    assert_eq!(
        as_http_uri(uri.join(nonempty_path_and_query)),
        "https://api.example.com/segment?param=value"
    );

    let uri = Uri::from_str("https://api.example.com/base/").unwrap();
    let nonempty_path_and_query = PathAndQuery::from_str("/segment?param=value").unwrap();
    assert_eq!(
        as_http_uri(uri.join(nonempty_path_and_query)),
        "https://api.example.com/base/segment?param=value"
    );
}
