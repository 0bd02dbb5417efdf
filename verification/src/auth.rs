use vstd::prelude::*;
use vstd::utf8::{encode_utf8, encode_utf8_decode_utf8};
use crate::digest::{hex_encode, sha256, sha256_digest};
use crate::errors::ApiError;
use crate::text::{append_str, lemma_lower_hex_len, lower_hex, lowercase, to_lowercase};

verus! {

/// The stored form of a password: the lowercase hex of the SHA-256 digest of the
/// UTF-8 bytes of the password followed by the salt.
pub open spec fn password_hash(password: Seq<char>, salt: Seq<char>) -> Seq<char> {
    lower_hex(sha256(encode_utf8(password + salt)))
}

/// Hashes a password with the configured salt.
pub fn hash_password(value: &str, salt: &str) -> (hash: String)
    ensures
        hash@ == password_hash(value@, salt@),
        hash@ == lower_hex(sha256(encode_utf8(value@) + encode_utf8(salt@))),
        hash@.len() == 64,
{
    let mut salted = String::from_str(value);
    append_str(&mut salted, salt);
    let digest = sha256_digest(salted.as_str().as_bytes());
    let hash = hex_encode(digest.as_slice());
    proof {
        lemma_lower_hex_len(digest@);
        lemma_encode_utf8_concat(value@, salt@);
    }
    hash
}

/// UTF-8 encodes a concatenation piece by piece.
pub proof fn lemma_encode_utf8_concat(a: Seq<char>, b: Seq<char>)
    ensures
        encode_utf8(a + b) == encode_utf8(a) + encode_utf8(b),
    decreases a.len(),
{
    if a.len() == 0 {
        assert(a + b == b);
        assert(encode_utf8(a) == Seq::<u8>::empty());
        assert(Seq::<u8>::empty() + encode_utf8(b) == encode_utf8(b));
    } else {
        assert((a + b).drop_first() == a.drop_first() + b);
        assert((a + b)[0] == a[0]);
        lemma_encode_utf8_concat(a.drop_first(), b);
    }
}

/// The bytes hashed for a password are the UTF-8 of the whole password followed
/// by those of the whole salt; so two different passwords (with one salt) never
/// hand SHA-256 the same input.
pub proof fn lemma_hash_covers_whole_password(p1: Seq<char>, p2: Seq<char>, salt: Seq<char>)
    ensures
        password_hash(p1, salt) == lower_hex(sha256(encode_utf8(p1) + encode_utf8(salt))),
        p1 != p2 ==> encode_utf8(p1 + salt) != encode_utf8(p2 + salt),
{
    lemma_encode_utf8_concat(p1, salt);
    if p1 != p2 && encode_utf8(p1 + salt) == encode_utf8(p2 + salt) {
        encode_utf8_decode_utf8(p1 + salt);
        encode_utf8_decode_utf8(p2 + salt);
        assert(p1 + salt == p2 + salt);
        assert((p1 + salt).len() == (p2 + salt).len());
        assert(p1.len() == p2.len());
        assert forall|i: int| 0 <= i < p1.len() implies p1[i] == p2[i] by {
            assert((p1 + salt)[i] == p1[i]);
            assert((p2 + salt)[i] == p2[i]);
        }
        assert(p1 =~= p2);
    }
}

/// What a login looks a user up by: the username in lowercase and the hash of
/// the password.
pub struct UserLookup {
    pub username: String,
    pub password_hash: String,
}

/// A user about to be written by a signup.
pub struct NewUser {
    /// The username in lowercase, under which the user logs in.
    pub username: String,
    /// The username as the client wrote it.
    pub display_name: String,
    pub password_hash: String,
}

/// The lookup a login makes.
pub fn login_lookup(username: &str, password: &str, salt: &str) -> (q: UserLookup)
    ensures
        (q.username@, q.password_hash@) == login_key(username@, password@, salt@),
        q.username@ == lowercase(username@),
        q.password_hash@ == lower_hex(sha256(encode_utf8(password@) + encode_utf8(salt@))),
{
    UserLookup { username: to_lowercase(username), password_hash: hash_password(password, salt) }
}

/// A login's answer, given the id of the user that the lookup found, if any.
pub fn login_outcome(found: Option<i64>) -> (r: Result<i64, ApiError>)
    ensures
        found matches Some(id) ==> r == Ok::<i64, ApiError>(id),
        found is None ==> (r matches Err(e) && e.status == 400 && e.message@
            == "Password or username are incorrect"@),
{
    match found {
        Some(id) => Ok(id),
        None => Err(ApiError::new(400, "Password or username are incorrect")),
    }
}

/// The key under which a signup checks whether the username is taken.
pub fn signup_lookup_key(username: &str) -> (key: String)
    ensures
        key@ == lowercase(username@),
{
    to_lowercase(username)
}

/// A signup's answer once the store has said whether the username is taken.
pub fn signup_check(taken: bool) -> (r: Result<(), ApiError>)
    ensures
        !taken ==> r is Ok,
        taken ==> (r matches Err(e) && e.status == 400 && e.message@ == "Username already exists"@),
{
    if taken {
        Err(ApiError::new(400, "Username already exists"))
    } else {
        Ok(())
    }
}

/// The user a signup writes.
pub fn new_user(username: &str, password: &str, salt: &str) -> (user: NewUser)
    ensures
        (user.username@, user.password_hash@) == stored_credentials(username@, password@, salt@),
        user.username@ == lowercase(username@),
        user.password_hash@ == lower_hex(sha256(encode_utf8(password@) + encode_utf8(salt@))),
        user.display_name@ == username@,
{
    NewUser {
        username: to_lowercase(username),
        display_name: String::from_str(username),
        password_hash: hash_password(password, salt),
    }
}

/// The cookie that carries a session token.
pub struct TokenCookie {
    pub name: String,
    pub value: String,
    pub secure: bool,
    pub http_only: bool,
    pub path: Option<String>,
}

/// The cookie that hands a session token to the client: `token=<token>`, secure,
/// HTTP-only, scoped to `/api`.
pub fn token_cookie(token: String) -> (cookie: TokenCookie)
    ensures
        cookie.name@ == "token"@,
        cookie.value@ == token@,
        cookie.secure,
        cookie.http_only,
        cookie.path matches Some(p) && p@ == "/api"@,
{
    TokenCookie {
        name: String::from_str("token"),
        value: token,
        secure: true,
        http_only: true,
        path: Some(String::from_str("/api")),
    }
}

/// The username and password hash a login looks a user up by.
pub open spec fn login_key(username: Seq<char>, password: Seq<char>, salt: Seq<char>) -> (
    Seq<char>,
    Seq<char>,
) {
    (lowercase(username), password_hash(password, salt))
}

/// The username and password hash a signup stores.
pub open spec fn stored_credentials(username: Seq<char>, password: Seq<char>, salt: Seq<char>) -> (
    Seq<char>,
    Seq<char>,
) {
    (lowercase(username), password_hash(password, salt))
}

/// A user who signed up is found by a login with the same password and salt under
/// any spelling of the username with the same lowercase form: the login looks up
/// exactly the username and hash that the signup stored.
pub proof fn lemma_login_finds_signed_up_user(
    signup_name: Seq<char>,
    login_name: Seq<char>,
    password: Seq<char>,
    salt: Seq<char>,
)
    requires
        lowercase(signup_name) == lowercase(login_name),
    ensures
        login_key(login_name, password, salt) == stored_credentials(signup_name, password, salt),
{
}

/// Users are stored and looked up under the whole username in lowercase and the
/// hash of the whole password: usernames with different lowercase forms get
/// different keys.
pub proof fn lemma_credentials_use_whole_inputs(
    u1: Seq<char>,
    u2: Seq<char>,
    password: Seq<char>,
    salt: Seq<char>,
)
    ensures
        stored_credentials(u1, password, salt) == (
            lowercase(u1),
            lower_hex(sha256(encode_utf8(password) + encode_utf8(salt))),
        ),
        login_key(u1, password, salt) == stored_credentials(u1, password, salt),
        lowercase(u1) != lowercase(u2) ==> stored_credentials(u1, password, salt).0
            != stored_credentials(u2, password, salt).0,
{
    lemma_encode_utf8_concat(password, salt);
}

} // verus!
