//! Account registration and login over a small binary protocol, with the
//! session logic of both ends, the SQL statements of the account store and
//! the password hashing, each stated and proved.

pub mod client_cli;
pub mod client_session;
pub mod protocol;
pub mod server_session;
pub mod settings;
pub mod sql;
pub mod text;
pub mod user;
