# pwnforge

The account and security core of the PwnForge backend, written in Verus:
the library's functions carry contracts, and Verus proves the code against
them. The flows that read and write the relational store are written as
decision functions (which lookup comes next, what rows to write, which
sessions to revoke, what to record in the audit log); running them against
the database is left to the server around the library.

## Layout

- `src/` — the verified library.
  - `text`, `validation`: character-level helpers and request validation
    (field codes `length`, `email`, `regex`, `password_composition`).
  - `auth`, `register`, `account`: the decisions of the authentication
    flows — account suspension, address normalization, the order of the
    registration checks, login, refresh, password change and reset, address
    verification.
  - `session`, `cleanup`, `cookies`: refresh-token sessions with rotation
    and reuse detection, their retention, and the cookies that carry them.
  - `password`, `token`: Argon2id hashing, the k-anonymous breached-password
    check, and opaque tokens stored as SHA-256 hashes.
  - `rate_limit`, `gate`, `client_ip`: fixed-window rate limits, how each
    endpoint answers them, and which address a request is counted against.
  - `blocked_email`, `admin`, `cli`, `setup`, `seed`: the blocked-domain
    check, administrative actions, console texts and parsing, the setup
    wizard's guards, and the bundled lists.
  - `error`, `errors`, `dto`, `entities`, `types`, `legal`, `config`,
    `email`, `logging`: error responses, request and response bodies, rows,
    stored enumerations, legal versions, configuration, outgoing mail and
    log settings.
- `tests/` — tests of the library, run against the real outside crates.
- `app/` — a small server binary around the library: configuration from the
  environment, the health probe and legal versions over HTTP, a transport
  test mail (console and Resend backends), and a breached-password check.
  It does not yet drive the database flows.

Each outside crate the library relies on (`argon2`, `sha1`, `sha2`, `hex`,
`base64`, `regex`, `uuid`, `validator`, `chrono`) is called through a small
wrapper whose contract states what the crate documents; address parsing
goes through the standard library's `core::net` parser in the same way.
