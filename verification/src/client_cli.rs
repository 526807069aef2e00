//! What the client makes of the lines its user types: the server address,
//! the menu choice, and trimmed credentials.

use vstd::prelude::*;
use crate::settings::address_text;
use crate::text::{trim, trimmed};

verus! {

/// What `str::to_uppercase` gives for `s`.
pub uninterp spec fn uppercase(s: Seq<char>) -> Seq<char>;

/// Calls `str::to_uppercase`, whose result is `uppercase` of the argument.
#[verifier::external_body]
fn to_uppercase(s: &str) -> (r: String)
    ensures
        r@ == uppercase(s@),
{
    s.to_uppercase()
}

/// What the user chose at the menu.
#[derive(Debug, Clone, Copy, PartialEq, Eq, Structural)]
pub enum MenuChoice {
    Login,
    Register,
    Neither,
}

/// The choice that an upper-cased, trimmed line names.
pub open spec fn choice_of(upper: Seq<char>) -> MenuChoice {
    if upper == "LOGIN"@ {
        MenuChoice::Login
    } else if upper == "REGISTER"@ {
        MenuChoice::Register
    } else {
        MenuChoice::Neither
    }
}


/// The menu names the login by exactly the text `LOGIN` and the
/// registration by exactly the text `REGISTER`; every other text names
/// neither.
pub proof fn lemma_choice_names(upper: Seq<char>)
    ensures
        choice_of(upper) == MenuChoice::Login <==> upper == "LOGIN"@,
        choice_of(upper) == MenuChoice::Register <==> upper == "REGISTER"@,
{
    reveal_strlit("LOGIN");
    reveal_strlit("REGISTER");
    assert("LOGIN"@.len() != "REGISTER"@.len());
}

/// The choice that an upper-cased, trimmed line names: `LOGIN`,
/// `REGISTER`, or neither.
pub fn choice_from_uppercase(upper: &str) -> (r: MenuChoice)
    ensures
        r == choice_of(upper@),
{
    let u = String::from_str(upper);
    if u == String::from_str("LOGIN") {
        MenuChoice::Login
    } else if u == String::from_str("REGISTER") {
        MenuChoice::Register
    } else {
        MenuChoice::Neither
    }
}

/// The choice that a menu line names, whatever its case and the white
/// space around it.
pub fn menu_choice(line: &str) -> (r: MenuChoice)
    ensures
        r == choice_of(uppercase(trimmed(line@))),
{
    let t = trim(line);
    let u = to_uppercase(t.as_str());
    choice_from_uppercase(u.as_str())
}

/// The server address from the two lines the user typed: the host and the
/// port, each trimmed, joined by `:`.
pub fn server_address(ip_line: &str, port_line: &str) -> (r: String)
    ensures
        r@ == address_text(trimmed(ip_line@), trimmed(port_line@)),
{
    let mut a = trim(ip_line);
    a.append(":");
    let p = trim(port_line);
    a.append(p.as_str());
    a
}

} // verus!
