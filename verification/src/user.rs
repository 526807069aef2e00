//! Accounts: a username, an e-mail address and a SHA-512 crypt hash of the
//! password, and the checks made against them.

use vstd::prelude::*;
use sha_crypt::{CryptError, Sha512Params};
use crate::sql::{insert_user_query, insert_user_sql};

verus! {

#[verifier::external_type_specification]
#[verifier::external_body]
pub struct ExSha512Params(sha_crypt::Sha512Params);

#[verifier::external_type_specification]
#[verifier::external_body]
pub struct ExCryptError(sha_crypt::CryptError);

/// What `Sha512Params::new(rounds)` returns when it succeeds.
pub uninterp spec fn sha512_params_new(rounds: usize) -> Sha512Params;

/// Whether `sha_crypt::sha512_check` accepts `password` against the stored
/// hash `hashed`.
pub uninterp spec fn sha512_accepts(password: Seq<char>, hashed: Seq<char>) -> bool;

/// The number of rounds of SHA-512 crypt that new password hashes use.
pub const HASH_ROUNDS: usize = 10_000;

/// Calls `Sha512Params::new`, which accepts a round count from 1_000 to
/// 999_999_999 and refuses any other.
#[verifier::external_body]
fn sha512_params(rounds: usize) -> (r: Result<Sha512Params, CryptError>)
    ensures
        r is Ok <==> 1_000 <= rounds <= 999_999_999,
        r matches Ok(p) ==> p == sha512_params_new(rounds),
{
    Sha512Params::new(rounds)
}

/// Calls `sha_crypt::sha512_simple`, which hashes `password` with a random
/// salt. Claimed: it returns `Ok` (its only errors come from a round count
/// that `Sha512Params` cannot hold and from a UTF-8 conversion of base-64
/// text); `sha512_check` accepts `password` against the result; and the
/// result has the SHA-512 crypt layout for the rounds of `params`. Which
/// salt characters are drawn, and so the digest, is left unsaid.
#[verifier::external_body]
fn sha512_hash(password: &str, params: &Sha512Params) -> (r: Result<String, CryptError>)
    ensures
        r is Ok,
        r matches Ok(h) ==> sha512_accepts(password@, h@),
        forall|n: usize|
            1_000 <= n <= 999_999_999 && *params == #[trigger] sha512_params_new(n) ==> (
            r matches Ok(h) ==> is_sha512_crypt_hash(h@, n)),
{
    sha_crypt::sha512_simple(password, params)
}

/// Calls `sha_crypt::sha512_check` and tells whether it returned `Ok`:
/// that is `sha512_accepts` of the two strings.
#[verifier::external_body]
fn sha512_verify(password: &str, hashed: &str) -> (r: bool)
    ensures
        r == sha512_accepts(password@, hashed@),
{
    sha_crypt::sha512_check(password, hashed).is_ok()
}

/// A character of a SHA-512 crypt salt or digest: `.`, `/`, a digit or an
/// ASCII letter.
pub open spec fn is_crypt_char(c: char) -> bool {
    c == '.' || c == '/' || ('0' <= c && c <= '9') || ('A' <= c && c <= 'Z') || ('a' <= c
        && c <= 'z')
}

/// The decimal digit `d`.
pub open spec fn digit_char(d: nat) -> char {
    (d + 48) as char
}

/// `n` in decimal, without leading zeros.
pub open spec fn decimal_text(n: nat) -> Seq<char>
    decreases n,
{
    if n < 10 {
        seq![digit_char(n)]
    } else {
        decimal_text(n / 10).push(digit_char(n % 10))
    }
}

/// The rounds field of a SHA-512 crypt hash: absent for the default 5_000
/// rounds, `rounds=<n>$` otherwise.
pub open spec fn rounds_text(rounds: usize) -> Seq<char> {
    if rounds == 5_000 {
        Seq::empty()
    } else {
        "rounds="@ + decimal_text(rounds as nat) + "$"@
    }
}

/// `h` is a SHA-512 crypt hash with `rounds` rounds: `$6$`, the rounds
/// field, a 16-character salt, `$`, and an 86-character base-64 digest.
pub open spec fn is_sha512_crypt_hash(h: Seq<char>, rounds: usize) -> bool {
    let head = "$6$"@ + rounds_text(rounds);
    let salt_end = head.len() + 16;
    &&& h.len() == salt_end + 1 + 86
    &&& h.subrange(0, head.len() as int) == head
    &&& forall|i: int| head.len() <= i < salt_end ==> is_crypt_char(#[trigger] h[i])
    &&& h[salt_end as int] == '$'
    &&& forall|i: int| salt_end < i < h.len() ==> is_crypt_char(#[trigger] h[i])
}

/// The start of every hash that `User::new` makes.
pub proof fn lemma_new_hash_head()
    ensures
        "$6$"@ + rounds_text(HASH_ROUNDS) == "$6$rounds=10000$"@,
        "$6$rounds=10000$"@.len() == 16,
{
    reveal_strlit("$6$");
    reveal_strlit("rounds=");
    reveal_strlit("$");
    reveal_strlit("$6$rounds=10000$");
    reveal_with_fuel(decimal_text, 6);
    assert(decimal_text(10000) =~= seq!['1', '0', '0', '0', '0']);
    assert("$6$"@ + rounds_text(HASH_ROUNDS) =~= "$6$rounds=10000$"@);
}

/// The contents of an account.
pub ghost struct UserData {
    pub username: Seq<char>,
    pub password_hash: Seq<char>,
    pub e_mail: Seq<char>,
}

/// An account.
pub struct User {
    username: String,
    password_hash: String,
    e_mail: String,
}

impl View for User {
    type V = UserData;

    closed spec fn view(&self) -> UserData {
        UserData {
            username: self.username@,
            password_hash: self.password_hash@,
            e_mail: self.e_mail@,
        }
    }
}

/// Whether `password` is the password of the account `user`.
pub open spec fn accepts_password(user: UserData, password: Seq<char>) -> bool {
    sha512_accepts(password, user.password_hash)
}

/// A fresh SHA-512 crypt hash of `password`, with a random salt.
fn create_password_hash(password: &str) -> (r: String)
    ensures
        sha512_accepts(password@, r@),
        is_sha512_crypt_hash(r@, HASH_ROUNDS),
{
    match sha512_params(HASH_ROUNDS) {
        Ok(params) => match sha512_hash(password, &params) {
            Ok(hash) => hash,
            Err(_) => String::new(),
        },
        Err(_) => String::new(),
    }
}


/// No account has the username that was looked up.
#[derive(Debug)]
pub struct UnknownUsername;

impl UnknownUsername {
    /// The text that describes this error.
    pub fn message(&self) -> (r: String)
        ensures
            r@ == "username dosn't exists"@,
    {
        String::from_str("username dosn't exists")
    }
}

/// The account data of a `users` lookup: the first row found, given in
/// table order (username, e_mail, password_hash), comes back as
/// (username, password_hash, e_mail); no row is an unknown username.
pub fn account_from_row(row: Option<(String, String, String)>) -> (r: Result<(String, String, String), UnknownUsername>)
    ensures
        row is None <==> r is Err,
        row matches Some(cols) ==> r matches Ok(data) && data.0@ == cols.0@ && data.1@ == cols.2@
            && data.2@ == cols.1@,
{
    match row {
        Some((username, e_mail, password_hash)) => Ok((username, password_hash, e_mail)),
        None => Err(UnknownUsername),
    }
}

impl User {
    /// A new account for `username` and `e_mail`, whose stored hash accepts
    /// `password`. The hash is salted at random. Recording the account is
    /// the statement `save_statement`.
    pub fn new(username: &str, e_mail: &str, password: &str) -> (r: User)
        ensures
            r@.username == username@,
            r@.e_mail == e_mail@,
            accepts_password(r@, password@),
            is_sha512_crypt_hash(r@.password_hash, HASH_ROUNDS),
            r@.password_hash.subrange(0, 16) == "$6$rounds=10000$"@,
    {
        proof {
            lemma_new_hash_head();
        }
        let password_hash = create_password_hash(password);
        User {
            username: String::from_str(username),
            password_hash,
            e_mail: String::from_str(e_mail),
        }
    }

    /// The account that a `users` row holds, given as
    /// (username, password_hash, e_mail).
    pub fn from_database(user_data: (String, String, String)) -> (r: User)
        ensures
            r@.username == user_data.0@,
            r@.password_hash == user_data.1@,
            r@.e_mail == user_data.2@,
    {
        User { username: user_data.0, password_hash: user_data.1, e_mail: user_data.2 }
    }

    /// Whether `password` is the password of this account.
    pub fn password_check(&self, password: &str) -> (r: bool)
        ensures
            r == accepts_password(self@, password@),
    {
        sha512_verify(password, self.password_hash.as_str())
    }

    pub fn get_username(&self) -> (r: &String)
        ensures
            r@ == self@.username,
    {
        &self.username
    }

    pub fn get_e_mail(&self) -> (r: &String)
        ensures
            r@ == self@.e_mail,
    {
        &self.e_mail
    }

    /// The statement that records this account in the `users` table.
    pub fn save_statement(&self) -> (r: String)
        ensures
            r@ == insert_user_sql(self@.username, self@.e_mail, self@.password_hash),
    {
        insert_user_query(self.username.as_str(), self.e_mail.as_str(), self.password_hash.as_str())
    }
}

} // verus!
