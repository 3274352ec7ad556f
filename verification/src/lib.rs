//! HTTP/S base URIs: a scheme that is `http` or `https`, an authority, and a path
//! without a query.
pub mod authority;
pub mod http_calls;
pub mod laws;
pub mod order;
pub mod parts;
pub mod path;
pub mod scheme;
pub mod text;
pub mod uri;

pub use authority::Authority;
pub use parts::{InvalidPartsError, Parts, UriParts};
pub use path::{InvalidPathError, Path, PathAndQuery, PathExt};
pub use scheme::{InvalidSchemeError, Scheme};
pub use uri::{AbsoluteUri, InvalidUriError, Uri};
