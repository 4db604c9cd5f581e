# litchee

A typed client for the [Lichess](https://lichess.org) API, written in Verus.

The library (`src/`) describes every endpoint as an `http::ApiRequest`: the
method, the host, the path (with each path segment percent-encoded), the
`Accept` representation, the query pairs in order, and the body (a form, plain
text or a JSON payload). Building a request is pure, and each function states
in its contract exactly which request it builds. The builders (`GameExportRequest`,
`TourRequest`, `CreateArenaRequest`, ...) state that each setter changes only
its own field.

Besides the requests, the library proves:

- the OAuth scopes: `Scope::parse` inverts `Scope::as_str`, and the wire texts
  are pairwise distinct;
- PKCE: a verifier is always 43 to 128 unreserved bytes, `PkceVerifier::new`
  rejects exactly the texts that are not, and the S256 challenge is
  `BASE64URL(SHA256(verifier))`;
- path segments: an encoded segment holds only unreserved characters and `%`;
- the error mapping of the token endpoint and of Swiss edits, the message of
  a failed answer, and the `204 No Content` rule of engine work;
- `OauthApi::authorization_url` fails only when building the URL on the
  configured base fails, and then carries that parse error;
- joining scopes with spaces and splitting them again gives them back;
- newline-delimited answers are framed by `ndjson::LineFramer`: complete
  lines first, blank lines skipped, a pending line over the client's cap
  refused;
- `json_doc` lists the fields of each JSON body, leaving out unset values.

`app/` sends the requests with `reqwest`, writes the JSON fields out and
decodes the answers with `serde` into the answer types, and renders the
floating-point inputs (clock times, custom scoring) that the library takes as
decimal text.

Layout:

- `src/http.rs`, `src/text.rs`: requests, query pairs, decimal and
  percent-encoding;
- `src/client.rs`, `src/config.rs`, `src/error.rs`, `src/secret.rs`,
  `src/model.rs`: the client, hosts and their base URLs, errors, redacted
  secrets, shared values;
- `src/ndjson.rs`, `src/json_doc.rs`: framing of streamed answers, fields of
  JSON bodies;
- `src/api/...`: one module per concern, reached through an accessor on
  `LichessClient` (`client.games()`, `client.broadcasts()`, ...);
- `tests/`: tests of the library;
- `app/`: the transport and the answer types.
