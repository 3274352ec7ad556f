# http_base_uri

HTTP/S base URIs for API clients: a scheme that is `http` or `https`, an
authority, and a path without a query. A base URI can have a path and query
joined onto it, the path being treated as relative (RFC 3986, section 5.2.3).

The library under `src/` is verified with Verus:

- `scheme.rs`, `authority.rs`, `path.rs`, `parts.rs`, `uri.rs`: the URI
  components, their conversions and their errors, each with a contract;
- `text.rs`, `order.rs`: character-sequence helpers;
- `http_calls.rs`: the calls into the `http` crate's parsers, the only items
  whose contracts are trusted rather than proved;
- `laws.rs`: properties that span several functions (joining, round trips).

`app/` converts between these types and those of the `http` crate.
