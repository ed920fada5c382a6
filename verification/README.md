# modio

Building blocks for the [mod.io](https://mod.io) API, written in Verus: each
function states what it does in `requires`/`ensures`, and Verus proves it.

## Layout

- `src/` — the verified library.
  - `request/routing.rs`, `routing.rs`: the API's routes, their methods,
    token requirements and paths; `request/routing/` holds the laws of the
    paths (their characters, queries and IDs, and that a method and a path
    identify one route) and their conversion into an HTTP URI.
  - `request/multipart*`: multipart form bodies — boundaries, header
    encoding, the pieces the body is streamed as, and its length.
  - `request/user.rs`, `request/submit_report.rs`, `users.rs`, `form.rs`:
    the requests of the authenticated user, reports and their form bodies.
  - `types*`: the API's data types — IDs, platform and portal codes, event
    types, ratings, metadata maps, the field bookkeeping of objects read
    from JSON.
  - `response.rs`: what a response's status decides, and body errors.
  - `util/`: byte ranges of multipart uploads, pagination, primary-file
    lookup and the errors of uploads and downloads.
- `tests/`: tests of the library on concrete values.
- `app/`: ordinary Rust around the library: JSON deserialization into the
  library's types, the multipart body as a byte stream, opening files, and
  reading HTTP responses.
