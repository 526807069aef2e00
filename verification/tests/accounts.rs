use login_service::user::{account_from_row, User};

#[test]
fn new_account_admits_its_password_only() {
    let u = User::new("alice", "alice@example.org", "s3cret pass");
    assert_eq!(u.get_username(), "alice");
    assert_eq!(u.get_e_mail(), "alice@example.org");
    assert!(u.password_check("s3cret pass"));
    assert!(!u.password_check("s3cret pas"));
    assert!(!u.password_check(""));
}

#[test]
fn new_account_hash_is_sha512_crypt() {
    let u = User::new("alice", "a@b", "pw");
    let stmt = u.save_statement();
    assert!(stmt.starts_with("INSERT INTO users VALUES('alice', 'a@b', '$6$rounds=10000$"));
    assert!(stmt.ends_with("');"));
    let hash = &stmt["INSERT INTO users VALUES('alice', 'a@b', '".len()..stmt.len() - "');".len()];
    assert_eq!(hash.len(), 16 + 16 + 1 + 86);
    assert_eq!(&hash[32..33], "$");
    assert!(hash[16..32].chars().chain(hash[33..].chars()).all(|c| c == '.' || c == '/' || c.is_ascii_alphanumeric()));
    assert!(!stmt.contains("'pw'"));
}

#[test]
fn two_hashes_of_one_password_differ_but_both_admit_it() {
    let a = User::new("a", "e", "same");
    let b = User::new("a", "e", "same");
    assert_ne!(a.save_statement(), b.save_statement());
    assert!(a.password_check("same") && b.password_check("same"));
}

#[test]
fn account_from_database_row() {
    let hash = "$6$rounds=10000$abcdefgh$xyz".to_string();
    let u = User::from_database(("bob".to_string(), hash.clone(), "bob@x".to_string()));
    assert_eq!(u.get_username(), "bob");
    assert_eq!(u.get_e_mail(), "bob@x");
    assert_eq!(
        u.save_statement(),
        format!("INSERT INTO users VALUES('bob', 'bob@x', '{}');", hash)
    );
    assert!(!u.password_check("anything"));
}

#[test]
fn stored_hash_read_back_admits_password() {
    let created = User::new("carol", "c@x", "hunter2");
    let stmt = created.save_statement();
    let inner = &stmt["INSERT INTO users VALUES('".len()..stmt.len() - "');".len()];
    let cols: Vec<&str> = inner.split("', '").collect();
    let loaded = User::from_database((cols[0].to_string(), cols[2].to_string(), cols[1].to_string()));
    assert!(loaded.password_check("hunter2"));
    assert!(!loaded.password_check("hunter3"));
}

#[test]
fn row_lookup_reorders_columns() {
    let r = account_from_row(Some(("u".to_string(), "e".to_string(), "h".to_string())));
    assert_eq!(r.unwrap(), ("u".to_string(), "h".to_string(), "e".to_string()));
    let missing = account_from_row(None);
    assert_eq!(missing.unwrap_err().message(), "username dosn't exists");
}
