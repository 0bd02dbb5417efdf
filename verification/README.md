# krfx

The verified core of a small link-shortening and file-hosting web service.

A client asks for a short name that leads either to a URL or to an uploaded
file; visiting `/<name>` redirects to the URL or streams the file from the CDN.
Users sign up and log in with a username and password and receive a session
token in a cookie; records they create are theirs to delete.

## Layout

- `src/` — the library, verified with Verus:
  - `names` — the rules for record names and the resolution of a requested
    or generated name against the store (`NameResolver`);
  - `records`, `uploads` — the records a link creation or a file upload
    writes, the key a deletion removes from the bucket, who may delete a
    record, and what a visit answers;
  - `auth`, `types`, `clock` — password hashing, the lookups of login and
    signup, session claims and the token cookie;
  - `errors`, `json` — the errors the service answers with and their JSON;
  - `config`, `extractors` — settings and the classification of the user
    behind a request;
  - `text`, `digest`, `random`, `urls` — the calls into std, `sha2`, `hex`,
    `md5`, `base64`, `fastrand`, `url` and `serde_json`, each with the
    contract it is trusted to meet.
- `app/` — the server around it: actix-web handlers and routes, the database
  (sea-orm) and bucket (S3) access, JWT encoding, configuration from the
  environment, and `main`. It feeds the library plain values and acts on what
  the library decides.
- `tests/` — tests of the library on concrete values.
