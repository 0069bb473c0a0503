use vstd::prelude::*;
use vstd::utf8::encode_utf8;
use crate::error::AppError;
use crate::text::{trim, trimmed};

verus! {

// ---------------------------------------------------------------------------
// Password digests
// ---------------------------------------------------------------------------

/// The SHA-256 digest of `data`.
pub uninterp spec fn sha256_of(data: Seq<u8>) -> Seq<u8>;

/// The lower-case hexadecimal digit of `v` (0 to 15).
pub open spec fn hex_digit(v: int) -> char {
    if v < 10 {
        crate::text::digit_char(v)
    } else if v == 10 {
        'a'
    } else if v == 11 {
        'b'
    } else if v == 12 {
        'c'
    } else if v == 13 {
        'd'
    } else if v == 14 {
        'e'
    } else {
        'f'
    }
}

/// Each byte of `bytes` as two lower-case hexadecimal digits, high digit first.
pub open spec fn hex_lower(bytes: Seq<u8>) -> Seq<char>
    decreases bytes.len(),
{
    if bytes.len() == 0 {
        Seq::empty()
    } else {
        seq![hex_digit(bytes[0] as int / 16), hex_digit(bytes[0] as int % 16)] + hex_lower(bytes.drop_first())
    }
}

/// The stored digest of a password: the hexadecimal SHA-256 of its UTF-8 bytes.
pub open spec fn password_digest(password: Seq<char>) -> Seq<char> {
    hex_lower(sha256_of(encode_utf8(password)))
}

/// Computes SHA-256 with `sha2::Sha256::digest`. The result is the digest of
/// `data`, named `sha256_of`, and is 32 bytes long, as the algorithm's output
/// size says; nothing more is stated of it.
#[verifier::external_body]
fn sha256(data: &[u8]) -> (res: Vec<u8>)
    ensures
        res@ == sha256_of(data@),
        res@.len() == 32,
{
    <sha2::Sha256 as sha2::Digest>::digest(data).to_vec()
}

/// Encodes bytes with `hex::encode`, which writes each byte as two lower-case
/// hexadecimal digits, high digit first.
#[verifier::external_body]
fn hex_encode(data: &[u8]) -> (res: String)
    ensures
        res@ == hex_lower(data@),
{
    hex::encode(data)
}

proof fn lemma_hex_lower_len(bytes: Seq<u8>)
    ensures
        hex_lower(bytes).len() == 2 * bytes.len(),
    decreases bytes.len(),
{
    if bytes.len() > 0 {
        lemma_hex_lower_len(bytes.drop_first());
    }
}

/// The digest under which a password is stored: 64 hexadecimal characters.
pub fn digest(value: &str) -> (res: String)
    ensures
        res@ == password_digest(value@),
        res@.len() == 64,
{
    let hash = sha256(value.as_bytes());
    proof {
        lemma_hex_lower_len(hash@);
    }
    hex_encode(hash.as_slice())
}

// ---------------------------------------------------------------------------
// Login
// ---------------------------------------------------------------------------

/// A user who logged in.
#[derive(Debug)]
pub struct AuthResult {
    pub id: i64,
    pub name: String,
    pub username: String,
}

/// What a login looks up: the user name without surrounding white space, and
/// the digest of the password.
#[derive(Debug)]
pub struct LoginQuery {
    pub username: String,
    pub password_hash: String,
}

/// Prepares the lookup of a login.
pub fn login_query(username: &str, password: &str) -> (res: LoginQuery)
    ensures
        res.username@ == trimmed(username@),
        res.password_hash@ == password_digest(password@),
{
    LoginQuery { username: trim(username), password_hash: digest(password) }
}

/// The answer to a login: the active user with that name and password, or a
/// refusal when there is none.
pub fn login_outcome(found: Option<AuthResult>) -> (res: Result<AuthResult, AppError>)
    ensures
        found is None ==> res == Err::<AuthResult, AppError>(AppError::InvalidCredentials),
        found is Some ==> res == Ok::<AuthResult, AppError>(found.unwrap()),
{
    match found {
        Some(user) => Ok(user),
        None => Err(AppError::InvalidCredentials),
    }
}

// ---------------------------------------------------------------------------
// The first user
// ---------------------------------------------------------------------------

/// The administrator created in an empty database.
#[derive(Debug)]
pub struct AdminSeed {
    pub name: String,
    pub username: String,
    pub password_hash: String,
}

/// The password the first administrator starts with.
pub open spec fn seed_password() -> Seq<char> {
    "admin123"@
}

/// The administrator an empty database starts with: `admin`, password `admin123`.
pub fn admin_seed() -> (res: AdminSeed)
    ensures
        res.name@ == "Administrador"@,
        res.username@ == "admin"@,
        res.password_hash@ == password_digest(seed_password()),
{
    AdminSeed {
        name: "Administrador".to_owned(),
        username: "admin".to_owned(),
        password_hash: digest("admin123"),
    }
}

/// The administrator is created (with the company record) only while there is no user.
pub fn needs_admin_seed(user_count: i64) -> (res: bool)
    ensures
        res == (user_count == 0),
{
    user_count == 0
}

} // verus!
