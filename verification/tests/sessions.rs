use login_service::client_cli::{choice_from_uppercase, menu_choice, server_address, MenuChoice};
use login_service::client_session::{ClientAction, ClientError, ClientEvent, ClientSession};
use login_service::protocol::{CREATE_REQUEST, ERROR_MESSAGE, LOGIN_REQUEST, SUCCESS_MESSAGE};
use login_service::server_session::{Action, Event, ServerSession};
use login_service::user::User;

fn text(a: &Action) -> String {
    match a {
        Action::Reply(c) => format!("reply {:?}", c),
        Action::Disconnect => "disconnect".to_string(),
        Action::ReadRequest => "read request".to_string(),
        Action::ReadMessage(n) => format!("read message {}", n),
        Action::CheckUsername(q) => format!("check {}", q),
        Action::LoadUser(q) => format!("load {}", q),
        Action::Execute(q) => format!("execute {}", q),
        Action::Info(m) => format!("info {}", m),
        Action::Warn(m) => format!("warn {}", m),
    }
}

fn texts(acts: &[Action]) -> Vec<String> {
    acts.iter().map(text).collect()
}

fn step(s: ServerSession, e: Event) -> (ServerSession, Vec<String>) {
    let (s, acts) = s.step(e);
    (s, texts(&acts))
}

fn msg(s: &str) -> Event {
    Event::Message(s.to_string())
}

fn open() -> ServerSession {
    let (s, acts) = ServerSession::open("10.1.2.3".to_string(), 3);
    assert_eq!(texts(&acts), vec!["read request"]);
    s
}

#[test]
fn server_login_with_right_password() {
    let account = User::new("alice", "a@x", "pw");
    let s = open();
    let (s, a) = step(s, Event::Request { data: LOGIN_REQUEST, false_attempts: 0 });
    assert_eq!(a, vec!["read message 64"]);
    let (s, a) = step(s, msg("alice"));
    assert_eq!(a, vec!["check SELECT * FROM users WHERE username = 'alice';"]);
    let (s, a) = step(s, Event::UsernameChecked(true));
    assert_eq!(a, vec![
        "reply [0, 0, 0, 0]".to_string(),
        "load SELECT * FROM users WHERE username = 'alice';".to_string(),
    ]);
    let (s, a) = step(s, Event::UserLoaded(account));
    assert_eq!(a, vec!["read message 128"]);
    let (s, a) = step(s, msg("pw"));
    assert_eq!(a, vec![
        "reply [0, 0, 0, 0]".to_string(),
        "info Login with username: alice | 10.1.2.3".to_string(),
        "execute INSERT INTO login_log VALUES('10.1.2.3', 'true');".to_string(),
        "read request".to_string(),
    ]);
    assert_eq!(s.session_user().as_ref().unwrap().get_username(), "alice");
}

#[test]
fn server_login_with_wrong_password() {
    let account = User::new("alice", "a@x", "pw");
    let s = open();
    let (s, _) = step(s, Event::Request { data: LOGIN_REQUEST, false_attempts: 0 });
    let (s, _) = step(s, msg("alice"));
    let (s, _) = step(s, Event::UsernameChecked(true));
    let (s, _) = step(s, Event::UserLoaded(account));
    let (s, a) = step(s, msg("pW"));
    assert_eq!(a, vec![
        "reply [1, 0, 0, 0]".to_string(),
        "warn Login error: false password | 10.1.2.3".to_string(),
        "execute INSERT INTO login_log VALUES('10.1.2.3', 'false');".to_string(),
        "read request".to_string(),
    ]);
    assert!(s.session_user().is_none());
}

#[test]
fn server_login_with_unknown_username() {
    let s = open();
    let (s, _) = step(s, Event::Request { data: LOGIN_REQUEST, false_attempts: 1 });
    let (s, _) = step(s, msg("nobody"));
    let (s, a) = step(s, Event::UsernameChecked(false));
    assert_eq!(a, vec![
        "reply [1, 0, 0, 0]".to_string(),
        "warn Login error: false username | 10.1.2.3".to_string(),
        "execute INSERT INTO login_log VALUES('10.1.2.3', 'false');".to_string(),
        "read request".to_string(),
    ]);
    assert!(s.session_user().is_none());
}

#[test]
fn server_login_read_error_is_logged_as_failure() {
    let s = open();
    let (s, _) = step(s, Event::Request { data: LOGIN_REQUEST, false_attempts: 0 });
    let (_, a) = step(s, Event::MessageReadFailed("connection reset".to_string()));
    assert_eq!(a, vec![
        "reply [1, 0, 0, 0]".to_string(),
        "warn Login error: connection reset | 10.1.2.3".to_string(),
        "execute INSERT INTO login_log VALUES('10.1.2.3', 'false');".to_string(),
        "read request".to_string(),
    ]);
}

#[test]
fn server_registration() {
    let s = open();
    let (s, a) = step(s, Event::Request { data: CREATE_REQUEST, false_attempts: 0 });
    assert_eq!(a, vec!["read message 64"]);
    let (s, a) = step(s, msg("bob"));
    assert_eq!(a, vec!["check SELECT * FROM users WHERE username = 'bob';"]);
    let (s, a) = step(s, Event::UsernameChecked(false));
    assert_eq!(a, vec!["reply [0, 0, 0, 0]".to_string(), "read message 128".to_string()]);
    let (s, a) = step(s, msg("bob@x"));
    assert_eq!(a, vec!["reply [0, 0, 0, 0]".to_string(), "read message 128".to_string()]);
    let (s, a) = step(s, msg("b-pass"));
    assert_eq!(a.len(), 4);
    assert_eq!(a[0], "reply [0, 0, 0, 0]");
    assert!(a[1].starts_with("execute INSERT INTO users VALUES('bob', 'bob@x', '$6$"));
    assert_eq!(a[2], "info Created account with username: bob | 10.1.2.3");
    assert_eq!(a[3], "read request");
    let user = s.session_user().as_ref().unwrap();
    assert_eq!(user.get_username(), "bob");
    assert_eq!(user.get_e_mail(), "bob@x");
    assert!(user.password_check("b-pass"));
}

#[test]
fn server_registration_of_taken_username() {
    let s = open();
    let (s, _) = step(s, Event::Request { data: CREATE_REQUEST, false_attempts: 0 });
    let (s, _) = step(s, msg("bob"));
    let (s, a) = step(s, Event::UsernameChecked(true));
    assert_eq!(a, vec![
        "reply [1, 0, 0, 0]".to_string(),
        "warn Account creation error: username exists | 10.1.2.3".to_string(),
        "read request".to_string(),
    ]);
    assert!(s.session_user().is_none());
}

#[test]
fn registered_password_logs_in_on_a_later_connection() {
    let s = open();
    let (s, _) = step(s, Event::Request { data: CREATE_REQUEST, false_attempts: 0 });
    let (s, _) = step(s, msg("dave"));
    let (s, _) = step(s, Event::UsernameChecked(false));
    let (s, _) = step(s, msg("d@x"));
    let (s, a) = s.step(msg("dave pw"));
    let stmt = match &a[1] {
        Action::Execute(q) => q.clone(),
        _ => panic!("no insert"),
    };
    drop(s);
    let inner = &stmt["INSERT INTO users VALUES('".len()..stmt.len() - "');".len()];
    let cols: Vec<&str> = inner.split("', '").collect();
    let stored = User::from_database((cols[0].to_string(), cols[2].to_string(), cols[1].to_string()));

    let s = open();
    let (s, _) = step(s, Event::Request { data: LOGIN_REQUEST, false_attempts: 0 });
    let (s, _) = step(s, msg("dave"));
    let (s, _) = step(s, Event::UsernameChecked(true));
    let (s, _) = step(s, Event::UserLoaded(stored));
    let (s, a) = step(s, msg("dave pw"));
    assert_eq!(a[0], "reply [0, 0, 0, 0]");
    assert!(s.session_user().is_some());
}

#[test]
fn exhausted_address_is_disconnected_first() {
    let s = open();
    let (_, a) = step(s, Event::Request { data: LOGIN_REQUEST, false_attempts: 3 });
    assert_eq!(a, vec!["disconnect".to_string(), "read message 64".to_string()]);
    let s = open();
    let (_, a) = step(s, Event::Request { data: [9, 9, 9, 9], false_attempts: 7 });
    assert_eq!(a, vec!["disconnect".to_string(), "read request".to_string()]);
}

#[test]
fn unknown_request_is_ignored() {
    let s = open();
    let (s, a) = step(s, Event::Request { data: [0, 1, 0, 0], false_attempts: 0 });
    assert_eq!(a, vec!["read request"]);
    assert!(!s.is_closed());
}

#[test]
fn logged_in_connection_ignores_requests() {
    let account = User::new("alice", "a@x", "pw");
    let s = open();
    let (s, _) = step(s, Event::Request { data: LOGIN_REQUEST, false_attempts: 0 });
    let (s, _) = step(s, msg("alice"));
    let (s, _) = step(s, Event::UsernameChecked(true));
    let (s, _) = step(s, Event::UserLoaded(account));
    let (s, _) = step(s, msg("pw"));
    let (s, a) = step(s, Event::Request { data: CREATE_REQUEST, false_attempts: 0 });
    assert_eq!(a, vec!["read request"]);
    let (s, a) = step(s, Event::Request { data: LOGIN_REQUEST, false_attempts: 0 });
    assert_eq!(a, vec!["read request"]);
    assert_eq!(s.session_user().as_ref().unwrap().get_username(), "alice");
}

#[test]
fn read_failure_closes_connection() {
    let s = open();
    let (s, a) = step(s, Event::RequestReadFailed);
    assert_eq!(a, vec!["info Terminating connection with 10.1.2.3".to_string(), "disconnect".to_string()]);
    assert!(s.is_closed());
    let (s, a) = step(s, Event::Request { data: LOGIN_REQUEST, false_attempts: 0 });
    assert!(a.is_empty());
    assert!(s.is_closed());
}

#[test]
fn unexpected_event_changes_nothing() {
    let s = open();
    let (s, a) = step(s, Event::UsernameChecked(true));
    assert!(a.is_empty());
    let (_, a) = step(s, Event::Request { data: LOGIN_REQUEST, false_attempts: 0 });
    assert_eq!(a, vec!["read message 64"]);
}

fn client_text(a: &ClientAction) -> String {
    match a {
        ClientAction::SendCode(c) => format!("send {:?}", c),
        ClientAction::SendText(t) => format!("send {}", t),
        ClientAction::ReadAnswer => "read".to_string(),
        ClientAction::Finish(Ok(())) => "ok".to_string(),
        ClientAction::Finish(Err(e)) => format!("error {}", e.message()),
    }
}

fn client_step(s: ClientSession, e: ClientEvent) -> (ClientSession, Vec<String>) {
    let (s, acts) = s.step(e);
    (s, acts.iter().map(client_text).collect())
}

#[test]
fn client_login_accepted() {
    let (s, a) = ClientSession::login("alice", "pw");
    let a: Vec<String> = a.iter().map(client_text).collect();
    assert_eq!(a, vec!["send [0, 0, 1, 0]", "send alice", "read"]);
    let (s, a) = client_step(s, ClientEvent::Answer(SUCCESS_MESSAGE));
    assert_eq!(a, vec!["send pw", "read"]);
    let (s, a) = client_step(s, ClientEvent::Answer(SUCCESS_MESSAGE));
    assert_eq!(a, vec!["ok"]);
    assert!(s.is_done());
}

#[test]
fn client_login_refused() {
    let (s, _) = ClientSession::login("alice", "pw");
    let (s, a) = client_step(s, ClientEvent::Answer(ERROR_MESSAGE));
    assert_eq!(a, vec!["error false username"]);
    assert!(s.is_done());
    let (s, _) = ClientSession::login("alice", "pw");
    let (s, _) = client_step(s, ClientEvent::Answer(SUCCESS_MESSAGE));
    let (_, a) = client_step(s, ClientEvent::Answer(ERROR_MESSAGE));
    assert_eq!(a, vec!["error false password"]);
}

#[test]
fn client_read_failure() {
    let (s, _) = ClientSession::login("alice", "pw");
    let (s, acts) = s.step(ClientEvent::ReadFailed(
        std::io::ErrorKind::UnexpectedEof,
        "failed to fill whole buffer".to_string(),
    ));
    assert_eq!(acts.len(), 1);
    match &acts[0] {
        ClientAction::Finish(Err(e)) => {
            assert_eq!(e.io_kind(), Some(std::io::ErrorKind::UnexpectedEof));
            assert_eq!(e.message(), "failed to fill whole buffer");
        }
        _ => panic!("expected a failed finish"),
    }
    let (_, a) = client_step(s, ClientEvent::Answer(SUCCESS_MESSAGE));
    assert!(a.is_empty());
}

#[test]
fn client_registration() {
    let (s, a) = ClientSession::register("bob", "bob@x", "bpw");
    let a: Vec<String> = a.iter().map(client_text).collect();
    assert_eq!(a, vec!["send [0, 0, 0, 1]", "send bob", "read"]);
    let (s, a) = client_step(s, ClientEvent::Answer(SUCCESS_MESSAGE));
    assert_eq!(a, vec!["send bob@x", "read"]);
    let (s, a) = client_step(s, ClientEvent::Answer(SUCCESS_MESSAGE));
    assert_eq!(a, vec!["send bpw", "read"]);
    let (_, a) = client_step(s, ClientEvent::Answer(SUCCESS_MESSAGE));
    assert_eq!(a, vec!["ok"]);
}

#[test]
fn client_registration_errors() {
    let (s, _) = ClientSession::register("bob", "bob@x", "bpw");
    let (_, a) = client_step(s, ClientEvent::Answer(ERROR_MESSAGE));
    assert_eq!(a, vec!["error username allready exists"]);
    let (s, _) = ClientSession::register("bob", "bob@x", "bpw");
    let (s, _) = client_step(s, ClientEvent::Answer(SUCCESS_MESSAGE));
    let (s, _) = client_step(s, ClientEvent::Answer(SUCCESS_MESSAGE));
    let (_, a) = client_step(s, ClientEvent::Answer(ERROR_MESSAGE));
    assert_eq!(a, vec!["error server didn't read password"]);
}

#[test]
fn client_registration_email_answer_never_fails() {
    let (s, _) = ClientSession::register("bob", "bob@x", "bpw");
    let (s, _) = client_step(s, ClientEvent::Answer(SUCCESS_MESSAGE));
    let (_, a) = client_step(s, ClientEvent::Answer(ERROR_MESSAGE));
    assert_eq!(a, vec!["send bpw", "read"]);
}

#[test]
fn client_error_messages() {
    assert_eq!(ClientError::EmailNotRead.message(), "server didn't read E-mail");
    assert_eq!(ClientError::Io(std::io::ErrorKind::ConnectionReset, "x".to_string()).message(), "x");
    assert_eq!(ClientError::FalsePassword.io_kind(), None);
}

#[test]
fn menu_choice_ignores_case_and_space() {
    assert_eq!(menu_choice("login\n"), MenuChoice::Login);
    assert_eq!(menu_choice("  Register \r\n"), MenuChoice::Register);
    assert_eq!(menu_choice("LOGIN"), MenuChoice::Login);
    assert_eq!(menu_choice("log in"), MenuChoice::Neither);
    assert_eq!(menu_choice(""), MenuChoice::Neither);
}

#[test]
fn menu_choice_uses_unicode_upper_case() {
    assert_eq!(menu_choice("log\u{131}n"), MenuChoice::Login);
    assert_eq!(menu_choice("regi\u{fb05}er"), MenuChoice::Register);
}

#[test]
fn choice_from_upper_case_line() {
    assert_eq!(choice_from_uppercase("LOGIN"), MenuChoice::Login);
    assert_eq!(choice_from_uppercase("REGISTER"), MenuChoice::Register);
    assert_eq!(choice_from_uppercase("login"), MenuChoice::Neither);
}

#[test]
fn server_address_from_typed_lines() {
    assert_eq!(server_address(" 127.0.0.1 \n", "8080\n"), "127.0.0.1:8080");
    assert_eq!(server_address("", ""), ":");
}

fn executes(all: &[String]) -> Vec<String> {
    all.iter().filter(|a| a.starts_with("execute ")).cloned().collect()
}

#[test]
fn login_exchange_runs_one_log_statement() {
    for (password, logged_in) in [("pw", true), ("nope", false)] {
        let account = User::new("alice", "a@x", "pw");
        let mut all = Vec::new();
        let s = open();
        let (s, a) = step(s, Event::Request { data: LOGIN_REQUEST, false_attempts: 0 });
        all.extend(a);
        let (s, a) = step(s, msg("alice"));
        all.extend(a);
        let (s, a) = step(s, Event::UsernameChecked(true));
        all.extend(a);
        let (s, a) = step(s, Event::UserLoaded(account));
        all.extend(a);
        let (s, a) = step(s, msg(password));
        all.extend(a);
        assert_eq!(
            executes(&all),
            vec![format!("execute INSERT INTO login_log VALUES('10.1.2.3', '{}');", logged_in)]
        );
        assert_eq!(s.session_user().is_some(), logged_in);
    }
}

#[test]
fn registration_of_taken_name_runs_no_statement() {
    let mut all = Vec::new();
    let s = open();
    let (s, a) = step(s, Event::Request { data: CREATE_REQUEST, false_attempts: 0 });
    all.extend(a);
    let (s, a) = step(s, msg("bob"));
    all.extend(a);
    let (_, a) = step(s, Event::UsernameChecked(true));
    all.extend(a);
    assert!(executes(&all).is_empty());
}

#[test]
fn registration_of_new_name_runs_one_insert() {
    let mut all = Vec::new();
    let s = open();
    let (s, a) = step(s, Event::Request { data: CREATE_REQUEST, false_attempts: 0 });
    all.extend(a);
    let (s, a) = step(s, msg("erin"));
    all.extend(a);
    let (s, a) = step(s, Event::UsernameChecked(false));
    all.extend(a);
    let (s, a) = step(s, msg("e@x"));
    all.extend(a);
    let (_, a) = step(s, msg("pw"));
    all.extend(a);
    let ex = executes(&all);
    assert_eq!(ex.len(), 1);
    assert!(ex[0].starts_with("execute INSERT INTO users VALUES('erin', 'e@x', '$6$rounds=10000$"));
}
