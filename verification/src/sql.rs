//! The SQL statements of the account store: the `users` table, which holds
//! one row (username, e_mail, password_hash) per account, and the
//! `login_log` table, which holds one row (ip_address, success) per login
//! attempt.

use vstd::prelude::*;

verus! {

/// Creates the `users` table where it does not exist.
pub const CREATE_USERS_TABLE: &'static str =
    "CREATE TABLE IF NOT EXISTS users (username TEXT, e_mail TEXT, password_hash TEXT);";

/// Removes the `login_log` table, so that each server start begins an empty
/// log.
pub const DROP_LOGIN_LOG_TABLE: &'static str = "DROP TABLE IF EXISTS login_log";

/// Creates the `login_log` table where it does not exist.
pub const CREATE_LOGIN_LOG_TABLE: &'static str =
    "CREATE TABLE IF NOT EXISTS login_log (ip_address TEXT, success TEXT);";

/// The text of a `bool` as a `login_log` row holds it.
pub open spec fn bool_text(b: bool) -> Seq<char> {
    if b {
        "true"@
    } else {
        "false"@
    }
}

/// Selects the `users` rows of one username.
pub open spec fn select_user_sql(username: Seq<char>) -> Seq<char> {
    "SELECT * FROM users WHERE username = '"@ + username + "';"@
}

/// Inserts one `users` row.
pub open spec fn insert_user_sql(username: Seq<char>, e_mail: Seq<char>, password_hash: Seq<char>) -> Seq<char> {
    "INSERT INTO users VALUES('"@ + username + "', '"@ + e_mail + "', '"@ + password_hash + "');"@
}

/// Inserts one `login_log` row.
pub open spec fn insert_login_sql(ip_address: Seq<char>, success: bool) -> Seq<char> {
    "INSERT INTO login_log VALUES('"@ + ip_address + "', '"@ + bool_text(success) + "');"@
}

/// Selects the failed attempts that `login_log` holds for one address.
pub open spec fn failed_logins_sql(ip_address: Seq<char>) -> Seq<char> {
    "SELECT * FROM login_log WHERE ip_address = '"@ + ip_address + "' AND success = 'false';"@
}

/// The text of `b`: `true` or `false`.
pub fn bool_str(b: bool) -> (r: &'static str)
    ensures
        r@ == bool_text(b),
{
    if b {
        "true"
    } else {
        "false"
    }
}

/// The query that finds the account of `username`.
pub fn select_user_query(username: &str) -> (r: String)
    ensures
        r@ == select_user_sql(username@),
{
    let mut q = String::from_str("SELECT * FROM users WHERE username = '");
    q.append(username);
    q.append("';");
    q
}

/// The statement that records a new account.
pub fn insert_user_query(username: &str, e_mail: &str, password_hash: &str) -> (r: String)
    ensures
        r@ == insert_user_sql(username@, e_mail@, password_hash@),
{
    let mut q = String::from_str("INSERT INTO users VALUES('");
    q.append(username);
    q.append("', '");
    q.append(e_mail);
    q.append("', '");
    q.append(password_hash);
    q.append("');");
    q
}

/// The statement that records a login attempt from `ip_address`.
pub fn insert_login_query(ip_address: &str, success: bool) -> (r: String)
    ensures
        r@ == insert_login_sql(ip_address@, success),
{
    let mut q = String::from_str("INSERT INTO login_log VALUES('");
    q.append(ip_address);
    q.append("', '");
    q.append(bool_str(success));
    q.append("');");
    q
}

/// The query whose rows are the failed login attempts from `ip_address`.
pub fn failed_logins_query(ip_address: &str) -> (r: String)
    ensures
        r@ == failed_logins_sql(ip_address@),
{
    let mut q = String::from_str("SELECT * FROM login_log WHERE ip_address = '");
    q.append(ip_address);
    q.append("' AND success = 'false';");
    q
}

} // verus!
