use login_service::protocol::{
    classify_request, is_error_answer, same_code, Request, CREATE_REQUEST, ERROR_MESSAGE,
    LOGIN_REQUEST, SUCCESS_MESSAGE,
};
use login_service::settings::{Network, Security, Settings};
use login_service::sql::{
    bool_str, failed_logins_query, insert_login_query, insert_user_query, select_user_query,
};
use login_service::text::{is_whitespace_char, prefix_before, trim};

#[test]
fn trim_removes_surrounding_ascii_white_space() {
    assert_eq!(trim("  ab c \t\r\n"), "ab c");
    assert_eq!(trim("plain"), "plain");
    assert_eq!(trim(""), "");
    assert_eq!(trim(" \n\t "), "");
}

#[test]
fn trim_removes_unicode_white_space() {
    assert_eq!(trim("\u{3000}x y\u{a0}\u{2028}"), "x y");
    assert_eq!(trim("\u{85}ok\u{200a}"), "ok");
}

#[test]
fn trim_keeps_inner_and_non_space_characters() {
    assert_eq!(trim("\u{200b}a\u{200b}"), "\u{200b}a\u{200b}");
}

#[test]
fn trim_agrees_with_std() {
    for s in ["  x ", "\u{1680}\u{2000}y\u{205f}", "a\tb", "\r\n", "é ", "\u{feff}z"] {
        assert_eq!(trim(s), s.trim());
    }
}

#[test]
fn whitespace_matches_std() {
    for c in ['\t', '\n', '\u{b}', '\u{c}', '\r', ' ', '\u{85}', '\u{a0}', '\u{1680}', '\u{2000}',
        '\u{2005}', '\u{200a}', '\u{2028}', '\u{2029}', '\u{202f}', '\u{205f}', '\u{3000}', 'a',
        '\u{200b}', '\u{feff}', '\u{180e}', '0'] {
        assert_eq!(is_whitespace_char(c), c.is_whitespace(), "{:?}", c);
    }
}

#[test]
fn prefix_before_takes_host_of_peer_address() {
    assert_eq!(prefix_before("127.0.0.1:53422", ':'), "127.0.0.1");
    assert_eq!(prefix_before("no-colon", ':'), "no-colon");
    assert_eq!(prefix_before(":80", ':'), "");
    assert_eq!(prefix_before("[::1]:80", ':'), "[");
}

#[test]
fn request_codes_are_classified() {
    assert_eq!(classify_request(LOGIN_REQUEST), Request::Login);
    assert_eq!(classify_request(CREATE_REQUEST), Request::Create);
    assert_eq!(classify_request(ERROR_MESSAGE), Request::Other);
    assert_eq!(classify_request([0, 1, 0, 0]), Request::Other);
}

#[test]
fn answer_codes() {
    assert!(is_error_answer([1, 0, 0, 0]));
    assert!(!is_error_answer(SUCCESS_MESSAGE));
    assert!(same_code([4, 3, 2, 1], [4, 3, 2, 1]));
    assert!(!same_code([4, 3, 2, 1], [4, 3, 2, 0]));
}

#[test]
fn user_select_query_text() {
    assert_eq!(select_user_query("bob"), "SELECT * FROM users WHERE username = 'bob';");
}

#[test]
fn user_insert_statement_text() {
    assert_eq!(
        insert_user_query("bob", "bob@example.org", "$6$h"),
        "INSERT INTO users VALUES('bob', 'bob@example.org', '$6$h');"
    );
}

#[test]
fn login_log_statements_text() {
    assert_eq!(
        insert_login_query("10.0.0.7", true),
        "INSERT INTO login_log VALUES('10.0.0.7', 'true');"
    );
    assert_eq!(
        insert_login_query("10.0.0.7", false),
        "INSERT INTO login_log VALUES('10.0.0.7', 'false');"
    );
    assert_eq!(
        failed_logins_query("10.0.0.7"),
        "SELECT * FROM login_log WHERE ip_address = '10.0.0.7' AND success = 'false';"
    );
    assert_eq!(bool_str(true), true.to_string());
    assert_eq!(bool_str(false), false.to_string());
}

fn settings(login_trys: u32) -> Settings {
    Settings {
        network: Network { ip_address: "0.0.0.0".to_string(), port: "7878".to_string() },
        securtiy: Security { response_time: 250, login_trys },
    }
}

#[test]
fn listen_address_joins_host_and_port() {
    assert_eq!(settings(3).listen_address(), "0.0.0.0:7878");
}

#[test]
fn an_address_is_blocked_from_login_trys_on() {
    let s = settings(3);
    assert!(!s.blocks(0));
    assert!(!s.blocks(2));
    assert!(s.blocks(3));
    assert!(s.blocks(40));
    assert!(settings(0).blocks(0));
}
