//! The server's side of one connection, as a state machine: it takes what
//! the connection and the account store report (an event) and says what to
//! do next (actions). The caller performs the actions in order; the last of
//! them, where there is one that waits, says which event comes next.

use vstd::prelude::*;
use crate::protocol::{
    classify_request, request_of, Request, ERROR_MESSAGE, SUCCESS_MESSAGE,
};
use crate::sql::{
    insert_login_query, insert_login_sql, insert_user_sql, select_user_query, select_user_sql,
};
use crate::user::{accepts_password, is_sha512_crypt_hash, User, UserData, HASH_ROUNDS};

verus! {

/// Longest username message the server reads, in bytes.
pub const USERNAME_MESSAGE_LEN: usize = 64;

/// Longest e-mail or password message the server reads, in bytes.
pub const LONG_MESSAGE_LEN: usize = 128;

/// What the connection or the account store reported.
pub enum Event {
    /// A four-byte request was read; `false_attempts` is the number of
    /// failed logins recorded for the peer's address when it came.
    Request { data: [u8; 4], false_attempts: u32 },
    /// Reading a request failed: the peer is gone.
    RequestReadFailed,
    /// A message (username, e-mail or password) was read.
    Message(String),
    /// Reading a message failed, with this error text.
    MessageReadFailed(String),
    /// The username query found a row (`true`) or none (`false`).
    UsernameChecked(bool),
    /// The account that the username query found.
    UserLoaded(User),
}

/// What the caller is to do.
pub enum Action {
    /// Write this code to the peer.
    Reply([u8; 4]),
    /// Shut the connection down in both directions.
    Disconnect,
    /// Read the next four-byte request; answer `Request` or
    /// `RequestReadFailed`.
    ReadRequest,
    /// Read one message of at most this many bytes; answer `Message` or
    /// `MessageReadFailed`.
    ReadMessage(usize),
    /// Run this query and tell whether it gave a row; answer
    /// `UsernameChecked`.
    CheckUsername(String),
    /// Run this query and load the account in its first row; answer
    /// `UserLoaded`.
    LoadUser(String),
    /// Run this statement.
    Execute(String),
    /// Log this line as information.
    Info(String),
    /// Log this line as a warning.
    Warn(String),
}

/// Where a connection stands.
pub enum Stage {
    AwaitRequest,
    LoginUsername,
    LoginUsernameCheck { username: String },
    LoginLoadUser,
    LoginPassword { account: User },
    CreateUsername,
    CreateUsernameCheck { username: String },
    CreateEmail { username: String },
    CreatePassword { username: String, e_mail: String },
    Closed,
}

/// One connection of the server.
pub struct ServerSession {
    ip_address: String,
    login_trys: u32,
    session_user: Option<User>,
    stage: Stage,
}

pub ghost enum EventData {
    Request { data: [u8; 4], false_attempts: u32 },
    RequestReadFailed,
    Message(Seq<char>),
    MessageReadFailed(Seq<char>),
    UsernameChecked(bool),
    UserLoaded(UserData),
}

pub ghost enum ActionData {
    Reply([u8; 4]),
    Disconnect,
    ReadRequest,
    ReadMessage(usize),
    CheckUsername(Seq<char>),
    LoadUser(Seq<char>),
    Execute(Seq<char>),
    Info(Seq<char>),
    Warn(Seq<char>),
}

pub ghost enum StageData {
    AwaitRequest,
    LoginUsername,
    LoginUsernameCheck { username: Seq<char> },
    LoginLoadUser,
    LoginPassword { account: UserData },
    CreateUsername,
    CreateUsernameCheck { username: Seq<char> },
    CreateEmail { username: Seq<char> },
    CreatePassword { username: Seq<char>, e_mail: Seq<char> },
    Closed,
}

pub ghost struct SessionData {
    pub ip_address: Seq<char>,
    pub login_trys: u32,
    pub session_user: Option<UserData>,
    pub stage: StageData,
}

impl View for Event {
    type V = EventData;

    open spec fn view(&self) -> EventData {
        match self {
            Event::Request { data, false_attempts } => EventData::Request {
                data: *data,
                false_attempts: *false_attempts,
            },
            Event::RequestReadFailed => EventData::RequestReadFailed,
            Event::Message(m) => EventData::Message(m@),
            Event::MessageReadFailed(e) => EventData::MessageReadFailed(e@),
            Event::UsernameChecked(b) => EventData::UsernameChecked(*b),
            Event::UserLoaded(u) => EventData::UserLoaded(u@),
        }
    }
}

impl View for Action {
    type V = ActionData;

    open spec fn view(&self) -> ActionData {
        match self {
            Action::Reply(c) => ActionData::Reply(*c),
            Action::Disconnect => ActionData::Disconnect,
            Action::ReadRequest => ActionData::ReadRequest,
            Action::ReadMessage(n) => ActionData::ReadMessage(*n),
            Action::CheckUsername(q) => ActionData::CheckUsername(q@),
            Action::LoadUser(q) => ActionData::LoadUser(q@),
            Action::Execute(q) => ActionData::Execute(q@),
            Action::Info(m) => ActionData::Info(m@),
            Action::Warn(m) => ActionData::Warn(m@),
        }
    }
}

impl View for Stage {
    type V = StageData;

    open spec fn view(&self) -> StageData {
        match self {
            Stage::AwaitRequest => StageData::AwaitRequest,
            Stage::LoginUsername => StageData::LoginUsername,
            Stage::LoginUsernameCheck { username } => StageData::LoginUsernameCheck {
                username: username@,
            },
            Stage::LoginLoadUser => StageData::LoginLoadUser,
            Stage::LoginPassword { account } => StageData::LoginPassword { account: account@ },
            Stage::CreateUsername => StageData::CreateUsername,
            Stage::CreateUsernameCheck { username } => StageData::CreateUsernameCheck {
                username: username@,
            },
            Stage::CreateEmail { username } => StageData::CreateEmail { username: username@ },
            Stage::CreatePassword { username, e_mail } => StageData::CreatePassword {
                username: username@,
                e_mail: e_mail@,
            },
            Stage::Closed => StageData::Closed,
        }
    }
}

pub open spec fn user_option_data(u: Option<User>) -> Option<UserData> {
    match u {
        Some(u) => Some(u@),
        None => None,
    }
}

impl View for ServerSession {
    type V = SessionData;

    closed spec fn view(&self) -> SessionData {
        SessionData {
            ip_address: self.ip_address@,
            login_trys: self.login_trys,
            session_user: user_option_data(self.session_user),
            stage: self.stage@,
        }
    }
}

/// The contents of a list of actions.
pub open spec fn actions_data(acts: Seq<Action>) -> Seq<ActionData> {
    acts.map_values(|a: Action| a@)
}

pub open spec fn login_info_text(username: Seq<char>, ip: Seq<char>) -> Seq<char> {
    "Login with username: "@ + username + " | "@ + ip
}

pub open spec fn login_error_text(error: Seq<char>, ip: Seq<char>) -> Seq<char> {
    "Login error: "@ + error + " | "@ + ip
}

pub open spec fn created_info_text(username: Seq<char>, ip: Seq<char>) -> Seq<char> {
    "Created account with username: "@ + username + " | "@ + ip
}

pub open spec fn create_error_text(error: Seq<char>, ip: Seq<char>) -> Seq<char> {
    "Account creation error: "@ + error + " | "@ + ip
}

pub open spec fn terminating_text(ip: Seq<char>) -> Seq<char> {
    "Terminating connection with "@ + ip
}

/// A connection is waiting for a request or closed whenever it has a
/// logged-in account: the login and registration exchanges run only
/// without one.
pub open spec fn session_wf(s: SessionData) -> bool {
    !(s.stage is AwaitRequest || s.stage is Closed) ==> s.session_user is None
}

pub open spec fn with_stage(s: SessionData, stage: StageData) -> SessionData {
    SessionData { stage, ..s }
}

/// What a failed login does: the refusal, the warning, the failed attempt
/// recorded, and the next request.
pub open spec fn login_failed_actions(ip: Seq<char>, error: Seq<char>) -> Seq<ActionData> {
    seq![
        ActionData::Reply(ERROR_MESSAGE),
        ActionData::Warn(login_error_text(error, ip)),
        ActionData::Execute(insert_login_sql(ip, false)),
        ActionData::ReadRequest,
    ]
}

/// What a failed registration does: the refusal, the warning, and the next
/// request.
pub open spec fn create_failed_actions(ip: Seq<char>, error: Seq<char>) -> Seq<ActionData> {
    seq![
        ActionData::Reply(ERROR_MESSAGE),
        ActionData::Warn(create_error_text(error, ip)),
        ActionData::ReadRequest,
    ]
}

pub open spec fn login_failed(s: SessionData, error: Seq<char>) -> (SessionData, Seq<ActionData>) {
    (with_stage(s, StageData::AwaitRequest), login_failed_actions(s.ip_address, error))
}

pub open spec fn create_failed(s: SessionData, error: Seq<char>) -> (SessionData, Seq<ActionData>) {
    (with_stage(s, StageData::AwaitRequest), create_failed_actions(s.ip_address, error))
}

/// The response to `e` in `s`, where `created` is the account that a
/// completed registration makes. An event that the stage does not wait for
/// changes nothing and asks for nothing.
pub open spec fn next(s: SessionData, e: EventData, created: UserData) -> (SessionData, Seq<ActionData>) {
    let unchanged = (s, Seq::<ActionData>::empty());
    match s.stage {
        StageData::AwaitRequest => match e {
            EventData::Request { data, false_attempts } => {
                let cut = if false_attempts >= s.login_trys {
                    seq![ActionData::Disconnect]
                } else {
                    Seq::<ActionData>::empty()
                };
                if s.session_user is None {
                    match request_of(data@) {
                        Request::Login => (
                            with_stage(s, StageData::LoginUsername),
                            cut.push(ActionData::ReadMessage(USERNAME_MESSAGE_LEN)),
                        ),
                        Request::Create => (
                            with_stage(s, StageData::CreateUsername),
                            cut.push(ActionData::ReadMessage(USERNAME_MESSAGE_LEN)),
                        ),
                        Request::Other => (s, cut.push(ActionData::ReadRequest)),
                    }
                } else {
                    (s, cut.push(ActionData::ReadRequest))
                }
            },
            EventData::RequestReadFailed => (
                with_stage(s, StageData::Closed),
                seq![ActionData::Info(terminating_text(s.ip_address)), ActionData::Disconnect],
            ),
            _ => unchanged,
        },
        StageData::LoginUsername => match e {
            EventData::Message(username) => (
                with_stage(s, StageData::LoginUsernameCheck { username }),
                seq![ActionData::CheckUsername(select_user_sql(username))],
            ),
            EventData::MessageReadFailed(error) => login_failed(s, error),
            _ => unchanged,
        },
        StageData::LoginUsernameCheck { username } => match e {
            EventData::UsernameChecked(exists) => if exists {
                (
                    with_stage(s, StageData::LoginLoadUser),
                    seq![
                        ActionData::Reply(SUCCESS_MESSAGE),
                        ActionData::LoadUser(select_user_sql(username)),
                    ],
                )
            } else {
                login_failed(s, "false username"@)
            },
            _ => unchanged,
        },
        StageData::LoginLoadUser => match e {
            EventData::UserLoaded(account) => (
                with_stage(s, StageData::LoginPassword { account }),
                seq![ActionData::ReadMessage(LONG_MESSAGE_LEN)],
            ),
            _ => unchanged,
        },
        StageData::LoginPassword { account } => match e {
            EventData::Message(password) => if accepts_password(account, password) {
                (
                    SessionData {
                        session_user: Some(account),
                        stage: StageData::AwaitRequest,
                        ..s
                    },
                    seq![
                        ActionData::Reply(SUCCESS_MESSAGE),
                        ActionData::Info(login_info_text(account.username, s.ip_address)),
                        ActionData::Execute(insert_login_sql(s.ip_address, true)),
                        ActionData::ReadRequest,
                    ],
                )
            } else {
                login_failed(s, "false password"@)
            },
            EventData::MessageReadFailed(error) => login_failed(s, error),
            _ => unchanged,
        },
        StageData::CreateUsername => match e {
            EventData::Message(username) => (
                with_stage(s, StageData::CreateUsernameCheck { username }),
                seq![ActionData::CheckUsername(select_user_sql(username))],
            ),
            EventData::MessageReadFailed(error) => create_failed(s, error),
            _ => unchanged,
        },
        StageData::CreateUsernameCheck { username } => match e {
            EventData::UsernameChecked(exists) => if exists {
                create_failed(s, "username exists"@)
            } else {
                (
                    with_stage(s, StageData::CreateEmail { username }),
                    seq![
                        ActionData::Reply(SUCCESS_MESSAGE),
                        ActionData::ReadMessage(LONG_MESSAGE_LEN),
                    ],
                )
            },
            _ => unchanged,
        },
        StageData::CreateEmail { username } => match e {
            EventData::Message(e_mail) => (
                with_stage(s, StageData::CreatePassword { username, e_mail }),
                seq![
                    ActionData::Reply(SUCCESS_MESSAGE),
                    ActionData::ReadMessage(LONG_MESSAGE_LEN),
                ],
            ),
            EventData::MessageReadFailed(error) => create_failed(s, error),
            _ => unchanged,
        },
        StageData::CreatePassword { username, e_mail } => match e {
            EventData::Message(password) => (
                SessionData { session_user: Some(created), stage: StageData::AwaitRequest, ..s },
                seq![
                    ActionData::Reply(SUCCESS_MESSAGE),
                    ActionData::Execute(
                        insert_user_sql(created.username, created.e_mail, created.password_hash),
                    ),
                    ActionData::Info(created_info_text(created.username, s.ip_address)),
                    ActionData::ReadRequest,
                ],
            ),
            EventData::MessageReadFailed(error) => create_failed(s, error),
            _ => unchanged,
        },
        StageData::Closed => unchanged,
    }
}

/// What a completed registration must make: an account with the username
/// and e-mail address given and a hash that admits the password given.
pub open spec fn creation_fits(s: SessionData, e: EventData, s2: SessionData) -> bool {
    match s.stage {
        StageData::CreatePassword { username, e_mail } => match e {
            EventData::Message(password) => match s2.session_user {
                Some(u) => u.username == username && u.e_mail == e_mail && accepts_password(
                    u,
                    password,
                ) && is_sha512_crypt_hash(u.password_hash, HASH_ROUNDS),
                None => false,
            },
            _ => true,
        },
        _ => true,
    }
}

/// `s2` and `acts` are a response of the server in `s` to `e`.
pub open spec fn is_step(s: SessionData, e: EventData, s2: SessionData, acts: Seq<ActionData>) -> bool {
    &&& creation_fits(s, e, s2)
    &&& (s2, acts) == next(s, e, s2.session_user.unwrap())
}



/// Whether an action waits for an event.
pub open spec fn awaits(a: ActionData) -> bool {
    a is ReadRequest || a is ReadMessage || a is CheckUsername || a is LoadUser
}

/// Every response keeps a connection well formed.
pub proof fn lemma_step_keeps_wf(s: SessionData, e: EventData, s2: SessionData, acts: Seq<ActionData>)
    requires
        session_wf(s),
        is_step(s, e, s2, acts),
    ensures
        session_wf(s2),
{
}

/// Once an account is logged in on a connection, it stays logged in, and
/// the connection answers no further request: no code is written back.
pub proof fn lemma_logged_in_stays(s: SessionData, e: EventData, s2: SessionData, acts: Seq<ActionData>)
    requires
        session_wf(s),
        s.session_user is Some,
        is_step(s, e, s2, acts),
    ensures
        s2.session_user == s.session_user,
        forall|i: int| 0 <= i < acts.len() ==> !(#[trigger] acts[i] is Reply),
{
}

/// A connection gets a logged-in account only in two ways: a password that
/// the loaded account's hash admits, or a completed registration, whose
/// account has the username and e-mail address given and admits the
/// password given.
pub proof fn lemma_login_needs_password(s: SessionData, e: EventData, s2: SessionData, acts: Seq<ActionData>)
    requires
        session_wf(s),
        s.session_user is None,
        is_step(s, e, s2, acts),
        s2.session_user is Some,
    ensures
        (s.stage matches StageData::LoginPassword { account } && e matches EventData::Message(
            password,
        ) && accepts_password(account, password) && s2.session_user == Some(account)) || (
        s.stage matches StageData::CreatePassword { username, e_mail } && e matches EventData::Message(
            password,
        ) && s2.session_user.unwrap().username == username && s2.session_user.unwrap().e_mail
            == e_mail && accepts_password(s2.session_user.unwrap(), password)),
{
}

/// An account that a registration with `password` recorded, once loaded on
/// a later connection, logs in with that same password: the login is
/// answered with the success code and the account is logged in.
pub proof fn lemma_registered_password_logs_in(
    reg: SessionData,
    password: Seq<char>,
    reg2: SessionData,
    reg_acts: Seq<ActionData>,
    login: SessionData,
    login2: SessionData,
    login_acts: Seq<ActionData>,
)
    requires
        reg.stage is CreatePassword,
        is_step(reg, EventData::Message(password), reg2, reg_acts),
        login.stage == (StageData::LoginPassword { account: reg2.session_user.unwrap() }),
        is_step(login, EventData::Message(password), login2, login_acts),
    ensures
        reg_acts[1] == ActionData::Execute(
            insert_user_sql(
                reg2.session_user.unwrap().username,
                reg2.session_user.unwrap().e_mail,
                reg2.session_user.unwrap().password_hash,
            ),
        ),
        login2.session_user == reg2.session_user,
        login_acts[0] == ActionData::Reply(SUCCESS_MESSAGE),
        login_acts[2] == ActionData::Execute(insert_login_sql(login.ip_address, true)),
{
}

/// The server writes back only the success code and the refusal code.
pub proof fn lemma_replies_are_answer_codes(s: SessionData, e: EventData, s2: SessionData, acts: Seq<ActionData>)
    requires
        is_step(s, e, s2, acts),
    ensures
        forall|i: int|
            0 <= i < acts.len() && #[trigger] acts[i] is Reply ==> acts[i]->Reply_0
                == SUCCESS_MESSAGE || acts[i]->Reply_0 == ERROR_MESSAGE,
{
}

/// A request from an address that has used up its failed logins first
/// shuts the connection down.
pub proof fn lemma_exhausted_address_disconnected(
    s: SessionData,
    data: [u8; 4],
    false_attempts: u32,
    s2: SessionData,
    acts: Seq<ActionData>,
)
    requires
        s.stage is AwaitRequest,
        false_attempts >= s.login_trys,
        is_step(s, EventData::Request { data, false_attempts }, s2, acts),
    ensures
        acts.len() > 0,
        acts[0] == ActionData::Disconnect,
{
}


/// A request is answered with a shutdown exactly when the peer's address
/// has used up its failed logins: fewer failed logins than `login_trys`
/// never shut the connection down.
pub proof fn lemma_disconnect_iff_exhausted(
    s: SessionData,
    data: [u8; 4],
    false_attempts: u32,
    s2: SessionData,
    acts: Seq<ActionData>,
)
    requires
        s.stage is AwaitRequest,
        is_step(s, EventData::Request { data, false_attempts }, s2, acts),
    ensures
        acts.contains(ActionData::Disconnect) <==> false_attempts >= s.login_trys,
        false_attempts < s.login_trys ==> forall|i: int|
            0 <= i < acts.len() ==> #[trigger] acts[i] != ActionData::Disconnect,
{
    if false_attempts >= s.login_trys {
        assert(acts[0] == ActionData::Disconnect);
    } else {
        assert(acts.len() == 1);
        assert(acts[0] != ActionData::Disconnect);
        if acts.contains(ActionData::Disconnect) {
            let i = choose|i: int| 0 <= i < acts.len() && acts[i] == ActionData::Disconnect;
            assert(i == 0);
        }
    }
}

/// A login looks up exactly the username it received, and loads the account
/// by that same username: after the login request and the username message
/// `username`, the check asks for `username`'s row, and a found row is
/// loaded by the same query; the password then decides the login by that
/// account's hash alone.
pub proof fn lemma_login_uses_received_username(
    s0: SessionData,
    data: [u8; 4],
    false_attempts: u32,
    username: Seq<char>,
    account: UserData,
    password: Seq<char>,
    states: Seq<SessionData>,
    acts: Seq<Seq<ActionData>>,
)
    requires
        session_wf(s0),
        s0.stage is AwaitRequest,
        s0.session_user is None,
        request_of(data@) == Request::Login,
        states.len() == 5,
        acts.len() == 5,
        states[0] == s0,
        is_step(states[0], EventData::Request { data, false_attempts }, states[1], acts[0]),
        is_step(states[1], EventData::Message(username), states[2], acts[1]),
        is_step(states[2], EventData::UsernameChecked(true), states[3], acts[2]),
        is_step(states[3], EventData::UserLoaded(account), states[4], acts[3]),
    ensures
        acts[1] == seq![ActionData::CheckUsername(select_user_sql(username))],
        acts[2] == seq![
            ActionData::Reply(SUCCESS_MESSAGE),
            ActionData::LoadUser(select_user_sql(username)),
        ],
        states[4].stage == (StageData::LoginPassword { account }),
        forall|s5: SessionData, a5: Seq<ActionData>|
            #[trigger] is_step(states[4], EventData::Message(password), s5, a5) ==> (
            s5.session_user == if accepts_password(account, password) {
                Some(account)
            } else {
                None
            }),
{
}

/// A login whose username check finds no row is refused: the answer is the
/// refusal code, nobody is logged in, and the failed attempt is recorded
/// for the peer.
pub proof fn lemma_login_of_unknown_username(
    s: SessionData,
    username: Seq<char>,
    s2: SessionData,
    acts: Seq<ActionData>,
)
    requires
        s.stage == (StageData::LoginUsernameCheck { username }),
        is_step(s, EventData::UsernameChecked(false), s2, acts),
    ensures
        s2.stage is AwaitRequest,
        s2.session_user == s.session_user,
        acts[0] == ActionData::Reply(ERROR_MESSAGE),
        acts.contains(ActionData::Execute(insert_login_sql(s.ip_address, false))),
{
    assert(acts[2] == ActionData::Execute(insert_login_sql(s.ip_address, false)));
}

/// A registration records exactly what it received: after the registration
/// request, a username message `username`, a check that finds no such
/// username, an e-mail message `e_mail` and a password message `password`,
/// the new account has that username and that e-mail address byte for
/// byte, admits that password, and its `users` row holds those values.
pub proof fn lemma_registration_records_received_values(
    s0: SessionData,
    data: [u8; 4],
    false_attempts: u32,
    username: Seq<char>,
    e_mail: Seq<char>,
    password: Seq<char>,
    states: Seq<SessionData>,
    acts: Seq<Seq<ActionData>>,
)
    requires
        session_wf(s0),
        s0.stage is AwaitRequest,
        s0.session_user is None,
        request_of(data@) == Request::Create,
        states.len() == 6,
        acts.len() == 5,
        states[0] == s0,
        is_step(states[0], EventData::Request { data, false_attempts }, states[1], acts[0]),
        is_step(states[1], EventData::Message(username), states[2], acts[1]),
        is_step(states[2], EventData::UsernameChecked(false), states[3], acts[2]),
        is_step(states[3], EventData::Message(e_mail), states[4], acts[3]),
        is_step(states[4], EventData::Message(password), states[5], acts[4]),
    ensures
        acts[1] == seq![ActionData::CheckUsername(select_user_sql(username))],
        states[4].stage == (StageData::CreatePassword { username, e_mail }),
        states[5].session_user is Some,
        states[5].session_user.unwrap().username == username,
        states[5].session_user.unwrap().e_mail == e_mail,
        accepts_password(states[5].session_user.unwrap(), password),
        acts[4][1] == ActionData::Execute(
            insert_user_sql(username, e_mail, states[5].session_user.unwrap().password_hash),
        ),
{
}

/// A password message is answered with the success code exactly when the
/// account admits it, and the outcome is recorded in the login log.
pub proof fn lemma_password_answer(
    s: SessionData,
    account: UserData,
    password: Seq<char>,
    s2: SessionData,
    acts: Seq<ActionData>,
)
    requires
        session_wf(s),
        s.stage == (StageData::LoginPassword { account }),
        is_step(s, EventData::Message(password), s2, acts),
    ensures
        acts[0] == ActionData::Reply(
            if accepts_password(account, password) {
                SUCCESS_MESSAGE
            } else {
                ERROR_MESSAGE
            },
        ),
        acts[2] == ActionData::Execute(
            insert_login_sql(s.ip_address, accepts_password(account, password)),
        ),
        s2.session_user is Some <==> accepts_password(account, password),
{
}

/// Only the last action of a response waits for an event; it does unless
/// the connection has closed, and a response with no action changes
/// nothing.
pub proof fn lemma_waits_last(s: SessionData, e: EventData, s2: SessionData, acts: Seq<ActionData>)
    requires
        is_step(s, e, s2, acts),
    ensures
        forall|i: int| 0 <= i < acts.len() - 1 ==> !awaits(#[trigger] acts[i]),
        acts.len() > 0 ==> (awaits(acts.last()) || s2.stage is Closed),
        acts.len() == 0 ==> s2 == s,
{
}


/// A run of a connection: `states[i + 1]` and `acts[i]` are a response to
/// `events[i]` in `states[i]`.
pub open spec fn is_run(states: Seq<SessionData>, events: Seq<EventData>, acts: Seq<Seq<ActionData>>) -> bool {
    &&& states.len() == events.len() + 1
    &&& acts.len() == events.len()
    &&& forall|i: int|
        0 <= i < events.len() ==> is_step(#[trigger] states[i], events[i], states[i + 1], acts[i])
}

/// All actions of a run, in order.
pub open spec fn all_actions(acts: Seq<Seq<ActionData>>) -> Seq<ActionData>
    decreases acts.len(),
{
    if acts.len() == 0 {
        Seq::empty()
    } else {
        all_actions(acts.drop_last()) + acts.last()
    }
}

/// The statements run on the account store, in order.
pub open spec fn executes(acts: Seq<ActionData>) -> Seq<ActionData>
    decreases acts.len(),
{
    if acts.len() == 0 {
        Seq::empty()
    } else if acts.last() is Execute {
        executes(acts.drop_last()).push(acts.last())
    } else {
        executes(acts.drop_last())
    }
}

pub open spec fn is_login_stage(st: StageData) -> bool {
    st is LoginUsername || st is LoginUsernameCheck || st is LoginLoadUser || st is LoginPassword
}

pub open spec fn is_create_stage(st: StageData) -> bool {
    st is CreateUsername || st is CreateUsernameCheck || st is CreateEmail || st is CreatePassword
}

/// The account store answers a username check by whether `users` holds the
/// name.
pub open spec fn store_answers_from(s: SessionData, e: EventData, users: Set<Seq<char>>) -> bool {
    s.stage matches StageData::CreateUsernameCheck { username } ==> (e matches EventData::UsernameChecked(
        found,
    ) ==> found == users.contains(username))
}

proof fn lemma_executes_add(a: Seq<ActionData>, b: Seq<ActionData>)
    ensures
        executes(a + b) == executes(a) + executes(b),
    decreases b.len(),
{
    if b.len() == 0 {
        assert(a + b =~= a);
        assert(executes(a) + executes(b) =~= executes(a));
    } else {
        assert((a + b).drop_last() =~= a + b.drop_last());
        assert((a + b).last() == b.last());
        lemma_executes_add(a, b.drop_last());
        if b.last() is Execute {
            assert(executes(a) + executes(b.drop_last()).push(b.last()) =~= (executes(a)
                + executes(b.drop_last())).push(b.last()));
        }
    }
}

proof fn lemma_executes_one(a: ActionData)
    ensures
        executes(seq![a]) == (if a is Execute {
            seq![a]
        } else {
            Seq::<ActionData>::empty()
        }),
{
    assert(seq![a].drop_last() =~= Seq::<ActionData>::empty());
    assert(executes(Seq::<ActionData>::empty()).push(a) =~= seq![a]);
}

proof fn lemma_executes_two(a: ActionData, b: ActionData)
    ensures
        executes(seq![a, b]) == executes(seq![a]) + executes(seq![b]),
{
    lemma_executes_add(seq![a], seq![b]);
    assert(seq![a] + seq![b] =~= seq![a, b]);
}

proof fn lemma_executes_three(a: ActionData, b: ActionData, c: ActionData)
    ensures
        executes(seq![a, b, c]) == executes(seq![a]) + executes(seq![b]) + executes(seq![c]),
{
    lemma_executes_two(a, b);
    lemma_executes_add(seq![a, b], seq![c]);
    assert(seq![a, b] + seq![c] =~= seq![a, b, c]);
}

proof fn lemma_executes_four(a: ActionData, b: ActionData, c: ActionData, d: ActionData)
    ensures
        executes(seq![a, b, c, d]) == executes(seq![a]) + executes(seq![b]) + executes(seq![c])
            + executes(seq![d]),
{
    lemma_executes_three(a, b, c);
    lemma_executes_add(seq![a, b, c], seq![d]);
    assert(seq![a, b, c] + seq![d] =~= seq![a, b, c, d]);
}

/// The statements of a response of four actions of which only the third
/// runs one.
proof fn lemma_executes_third_of_four(a: ActionData, b: ActionData, c: ActionData, d: ActionData)
    requires
        !(a is Execute),
        !(b is Execute),
        c is Execute,
        !(d is Execute),
    ensures
        executes(seq![a, b, c, d]) == seq![c],
{
    lemma_executes_four(a, b, c, d);
    lemma_executes_one(a);
    lemma_executes_one(b);
    lemma_executes_one(c);
    lemma_executes_one(d);
    let e0 = Seq::<ActionData>::empty();
    assert(e0 + e0 + seq![c] + e0 =~= seq![c]);
}

/// A response that runs no statement.
proof fn lemma_executes_none(acts: Seq<ActionData>)
    requires
        forall|i: int| 0 <= i < acts.len() ==> !(#[trigger] acts[i] is Execute),
    ensures
        executes(acts) == Seq::<ActionData>::empty(),
    decreases acts.len(),
{
    if acts.len() > 0 {
        assert forall|i: int| 0 <= i < acts.drop_last().len() implies !(
        #[trigger] acts.drop_last()[i] is Execute) by {
            assert(acts.drop_last()[i] == acts[i]);
        }
        lemma_executes_none(acts.drop_last());
    }
}

proof fn lemma_all_actions_take(acts: Seq<Seq<ActionData>>, k: int)
    requires
        1 <= k <= acts.len(),
    ensures
        all_actions(acts.take(k)) == all_actions(acts.take(k - 1)) + acts[k - 1],
{
    assert(acts.take(k).drop_last() =~= acts.take(k - 1));
}

/// What one response inside a login exchange records.
proof fn lemma_login_step(s: SessionData, e: EventData, s2: SessionData, acts: Seq<ActionData>)
    requires
        is_login_stage(s.stage),
        s.session_user is None,
        is_step(s, e, s2, acts),
    ensures
        s2.ip_address == s.ip_address,
        is_login_stage(s2.stage) ==> executes(acts) == Seq::<ActionData>::empty()
            && s2.session_user is None,
        !is_login_stage(s2.stage) ==> s2.stage is AwaitRequest && executes(acts) == seq![
            ActionData::Execute(insert_login_sql(s.ip_address, s2.session_user is Some)),
        ],
{
    if acts.len() == 4 {
        lemma_executes_third_of_four(acts[0], acts[1], acts[2], acts[3]);
        assert(acts =~= seq![acts[0], acts[1], acts[2], acts[3]]);
    } else {
        lemma_executes_none(acts);
    }
}

proof fn lemma_login_prefix(
    states: Seq<SessionData>,
    events: Seq<EventData>,
    acts: Seq<Seq<ActionData>>,
    k: int,
)
    requires
        is_run(states, events, acts),
        1 <= k <= events.len(),
        states[0].stage is AwaitRequest,
        states[0].session_user is None,
        events[0] matches EventData::Request { data, .. } && request_of(data@) == Request::Login,
        forall|i: int| 1 <= i < k ==> is_login_stage(#[trigger] states[i].stage),
    ensures
        states[k].ip_address == states[0].ip_address,
        is_login_stage(states[k].stage) ==> executes(all_actions(acts.take(k)))
            == Seq::<ActionData>::empty() && states[k].session_user is None,
        !is_login_stage(states[k].stage) ==> states[k].stage is AwaitRequest && executes(
            all_actions(acts.take(k)),
        ) == seq![
            ActionData::Execute(
                insert_login_sql(states[0].ip_address, states[k].session_user is Some),
            ),
        ],
    decreases k,
{
    lemma_all_actions_take(acts, k);
    lemma_executes_add(all_actions(acts.take(k - 1)), acts[k - 1]);
    assert(is_step(states[k - 1], events[k - 1], states[k], acts[k - 1]));
    if k == 1 {
        assert(acts.take(0) =~= Seq::<Seq<ActionData>>::empty());
        lemma_executes_none(Seq::<ActionData>::empty());
        lemma_executes_none(acts[0]);
        assert(Seq::<ActionData>::empty() + Seq::<ActionData>::empty() =~= Seq::<ActionData>::empty());
    } else {
        lemma_login_prefix(states, events, acts, k - 1);
        assert(is_login_stage(states[k - 1].stage));
        lemma_login_step(states[k - 1], events[k - 1], states[k], acts[k - 1]);
        if is_login_stage(states[k].stage) {
            assert(Seq::<ActionData>::empty() + Seq::<ActionData>::empty() =~= Seq::<ActionData>::empty());
        } else {
            assert(Seq::<ActionData>::empty() + executes(acts[k - 1]) =~= executes(acts[k - 1]));
        }
    }
}

/// A login exchange, from the login request to the next wait for a request,
/// runs exactly one statement on the store: the `login_log` row of its
/// outcome, `true` when it ends with the account logged in and `false`
/// when it does not.
pub proof fn lemma_login_exchange_logs_once(
    states: Seq<SessionData>,
    events: Seq<EventData>,
    acts: Seq<Seq<ActionData>>,
)
    requires
        is_run(states, events, acts),
        events.len() >= 1,
        states[0].stage is AwaitRequest,
        states[0].session_user is None,
        events[0] matches EventData::Request { data, .. } && request_of(data@) == Request::Login,
        forall|i: int| 1 <= i < events.len() ==> is_login_stage(#[trigger] states[i].stage),
        states.last().stage is AwaitRequest,
    ensures
        executes(all_actions(acts)) == seq![
            ActionData::Execute(
                insert_login_sql(states[0].ip_address, states.last().session_user is Some),
            ),
        ],
{
    let n = events.len() as int;
    lemma_login_prefix(states, events, acts, n);
    assert(acts.take(n) =~= acts);
}


/// What one response inside a registration records.
proof fn lemma_create_step(
    s: SessionData,
    e: EventData,
    s2: SessionData,
    acts: Seq<ActionData>,
    users: Set<Seq<char>>,
)
    requires
        is_create_stage(s.stage),
        s.session_user is None,
        is_step(s, e, s2, acts),
        store_answers_from(s, e, users),
        s.stage matches StageData::CreateEmail { username } ==> !users.contains(username),
        s.stage matches StageData::CreatePassword { username, .. } ==> !users.contains(username),
    ensures
        is_create_stage(s2.stage) ==> executes(acts) == Seq::<ActionData>::empty()
            && s2.session_user is None,
        s2.stage matches StageData::CreateEmail { username } ==> !users.contains(username),
        s2.stage matches StageData::CreatePassword { username, .. } ==> !users.contains(username),
        !is_create_stage(s2.stage) ==> s2.stage is AwaitRequest && match s2.session_user {
            Some(u) => !users.contains(u.username) && executes(acts) == seq![
                ActionData::Execute(insert_user_sql(u.username, u.e_mail, u.password_hash)),
            ],
            None => executes(acts) == Seq::<ActionData>::empty(),
        },
{
    if s2.session_user is Some && !is_create_stage(s2.stage) {
        lemma_executes_four(acts[0], acts[1], acts[2], acts[3]);
        assert(acts =~= seq![acts[0], acts[1], acts[2], acts[3]]);
        lemma_executes_one(acts[0]);
        lemma_executes_one(acts[1]);
        lemma_executes_one(acts[2]);
        lemma_executes_one(acts[3]);
        let e0 = Seq::<ActionData>::empty();
        assert(e0 + seq![acts[1]] + e0 + e0 =~= seq![acts[1]]);
    } else {
        lemma_executes_none(acts);
    }
}

proof fn lemma_create_prefix(
    states: Seq<SessionData>,
    events: Seq<EventData>,
    acts: Seq<Seq<ActionData>>,
    users: Set<Seq<char>>,
    k: int,
)
    requires
        is_run(states, events, acts),
        1 <= k <= events.len(),
        states[0].stage is AwaitRequest,
        states[0].session_user is None,
        events[0] matches EventData::Request { data, .. } && request_of(data@) == Request::Create,
        forall|i: int| 1 <= i < k ==> is_create_stage(#[trigger] states[i].stage),
        forall|i: int| 0 <= i < events.len() ==> store_answers_from(#[trigger] states[i], events[i], users),
    ensures
        is_create_stage(states[k].stage) ==> executes(all_actions(acts.take(k)))
            == Seq::<ActionData>::empty() && states[k].session_user is None,
        states[k].stage matches StageData::CreateEmail { username } ==> !users.contains(username),
        states[k].stage matches StageData::CreatePassword { username, .. } ==> !users.contains(username),
        !is_create_stage(states[k].stage) ==> states[k].stage is AwaitRequest && match states[k].session_user {
            Some(u) => !users.contains(u.username) && executes(all_actions(acts.take(k))) == seq![
                ActionData::Execute(insert_user_sql(u.username, u.e_mail, u.password_hash)),
            ],
            None => executes(all_actions(acts.take(k))) == Seq::<ActionData>::empty(),
        },
    decreases k,
{
    let e0 = Seq::<ActionData>::empty();
    lemma_all_actions_take(acts, k);
    lemma_executes_add(all_actions(acts.take(k - 1)), acts[k - 1]);
    assert(is_step(states[k - 1], events[k - 1], states[k], acts[k - 1]));
    assert(store_answers_from(states[k - 1], events[k - 1], users));
    if k == 1 {
        assert(acts.take(0) =~= Seq::<Seq<ActionData>>::empty());
        lemma_executes_none(e0);
        lemma_executes_none(acts[0]);
        assert(e0 + e0 =~= e0);
    } else {
        lemma_create_prefix(states, events, acts, users, k - 1);
        assert(is_create_stage(states[k - 1].stage));
        lemma_create_step(states[k - 1], events[k - 1], states[k], acts[k - 1], users);
        assert(e0 + executes(acts[k - 1]) =~= executes(acts[k - 1]));
    }
}

/// A registration exchange, from the registration request to the next wait
/// for a request, against a store that answers username checks from the
/// set `users`, runs at most one statement on the store: the `users` row
/// of the new account, for a username that `users` does not hold, exactly
/// when it ends with that account logged in; otherwise none.
pub proof fn lemma_registration_records_only_new_names(
    states: Seq<SessionData>,
    events: Seq<EventData>,
    acts: Seq<Seq<ActionData>>,
    users: Set<Seq<char>>,
)
    requires
        is_run(states, events, acts),
        events.len() >= 1,
        states[0].stage is AwaitRequest,
        states[0].session_user is None,
        events[0] matches EventData::Request { data, .. } && request_of(data@) == Request::Create,
        forall|i: int| 1 <= i < events.len() ==> is_create_stage(#[trigger] states[i].stage),
        forall|i: int| 0 <= i < events.len() ==> store_answers_from(#[trigger] states[i], events[i], users),
        states.last().stage is AwaitRequest,
    ensures
        match states.last().session_user {
            Some(u) => !users.contains(u.username) && executes(all_actions(acts)) == seq![
                ActionData::Execute(insert_user_sql(u.username, u.e_mail, u.password_hash)),
            ],
            None => executes(all_actions(acts)) == Seq::<ActionData>::empty(),
        },
{
    let n = events.len() as int;
    lemma_create_prefix(states, events, acts, users, n);
    assert(acts.take(n) =~= acts);
}

/// `label`, `subject`, ` | ` and `ip`, one after the other.
fn log_line(label: &str, subject: &str, ip: &str) -> (r: String)
    ensures
        r@ == label@ + subject@ + " | "@ + ip@,
{
    let mut m = String::from_str(label);
    m.append(subject);
    m.append(" | ");
    m.append(ip);
    m
}

fn one_action(a: Action) -> (r: Vec<Action>)
    ensures
        actions_data(r@) == seq![a@],
{
    let mut v = Vec::new();
    v.push(a);
    assert(actions_data(v@) =~= seq![a@]);
    v
}

fn two_actions(a: Action, b: Action) -> (r: Vec<Action>)
    ensures
        actions_data(r@) == seq![a@, b@],
{
    let mut v = Vec::new();
    v.push(a);
    v.push(b);
    assert(actions_data(v@) =~= seq![a@, b@]);
    v
}

fn three_actions(a: Action, b: Action, c: Action) -> (r: Vec<Action>)
    ensures
        actions_data(r@) == seq![a@, b@, c@],
{
    let mut v = Vec::new();
    v.push(a);
    v.push(b);
    v.push(c);
    assert(actions_data(v@) =~= seq![a@, b@, c@]);
    v
}

fn four_actions(a: Action, b: Action, c: Action, d: Action) -> (r: Vec<Action>)
    ensures
        actions_data(r@) == seq![a@, b@, c@, d@],
{
    let mut v = Vec::new();
    v.push(a);
    v.push(b);
    v.push(c);
    v.push(d);
    assert(actions_data(v@) =~= seq![a@, b@, c@, d@]);
    v
}

fn login_failure(ip: &str, error: &str) -> (r: Vec<Action>)
    ensures
        actions_data(r@) == login_failed_actions(ip@, error@),
{
    four_actions(
        Action::Reply(ERROR_MESSAGE),
        Action::Warn(log_line("Login error: ", error, ip)),
        Action::Execute(insert_login_query(ip, false)),
        Action::ReadRequest,
    )
}

fn create_failure(ip: &str, error: &str) -> (r: Vec<Action>)
    ensures
        actions_data(r@) == create_failed_actions(ip@, error@),
{
    three_actions(
        Action::Reply(ERROR_MESSAGE),
        Action::Warn(log_line("Account creation error: ", error, ip)),
        Action::ReadRequest,
    )
}

impl ServerSession {
    #[verifier::type_invariant]
    spec fn wf(self) -> bool {
        session_wf(self@)
    }

    /// The state of a new connection from `ip_address`, on a server that
    /// refuses addresses with `login_trys` failed logins, and its first
    /// action: read a request.
    pub fn open(ip_address: String, login_trys: u32) -> (r: (ServerSession, Vec<Action>))
        ensures
            r.0@ == (SessionData {
                ip_address: ip_address@,
                login_trys,
                session_user: None,
                stage: StageData::AwaitRequest,
            }),
            actions_data(r.1@) == seq![ActionData::ReadRequest],
    {
        let s = ServerSession {
            ip_address,
            login_trys,
            session_user: None,
            stage: Stage::AwaitRequest,
        };
        (s, one_action(Action::ReadRequest))
    }

    /// Whether the connection is over.
    pub fn is_closed(&self) -> (r: bool)
        ensures
            r == (self@.stage is Closed),
    {
        match self.stage {
            Stage::Closed => true,
            _ => false,
        }
    }

    /// The account logged in on this connection, if there is one.
    pub fn session_user(&self) -> (r: &Option<User>)
        ensures
            user_option_data(*r) == self@.session_user,
    {
        &self.session_user
    }

    /// The response to `event`: the new state and the actions to perform.
    pub fn step(self, event: Event) -> (r: (ServerSession, Vec<Action>))
        ensures
            is_step(self@, event@, r.0@, actions_data(r.1@)),
    {
        proof {
            use_type_invariant(&self);
        }
        let ghost s = self@;
        let ghost e = event@;
        let ServerSession { ip_address, login_trys, session_user, stage } = self;
        let ip = ip_address.as_str();
        let (stage, session_user, acts): (Stage, Option<User>, Vec<Action>) = match (stage, event) {
            (Stage::AwaitRequest, Event::Request { data, false_attempts }) => {
                let mut acts: Vec<Action> = Vec::new();
                if false_attempts >= login_trys {
                    acts.push(Action::Disconnect);
                }
                let ghost cut = actions_data(acts@);
                let (st, last) = if session_user.is_none() {
                    match classify_request(data) {
                        Request::Login => (Stage::LoginUsername, Action::ReadMessage(USERNAME_MESSAGE_LEN)),
                        Request::Create => (Stage::CreateUsername, Action::ReadMessage(USERNAME_MESSAGE_LEN)),
                        Request::Other => (Stage::AwaitRequest, Action::ReadRequest),
                    }
                } else {
                    (Stage::AwaitRequest, Action::ReadRequest)
                };
                let ghost last_data = last@;
                acts.push(last);
                assert(actions_data(acts@) =~= cut.push(last_data));
                (st, session_user, acts)
            },
            (Stage::AwaitRequest, Event::RequestReadFailed) => {
                let mut m = String::from_str("Terminating connection with ");
                m.append(ip);
                (Stage::Closed, session_user, two_actions(Action::Info(m), Action::Disconnect))
            },
            (Stage::LoginUsername, Event::Message(username)) => {
                let q = select_user_query(username.as_str());
                (Stage::LoginUsernameCheck { username }, session_user, one_action(Action::CheckUsername(q)))
            },
            (Stage::LoginUsername, Event::MessageReadFailed(error)) => {
                (Stage::AwaitRequest, session_user, login_failure(ip, error.as_str()))
            },
            (Stage::LoginUsernameCheck { username }, Event::UsernameChecked(exists)) => {
                if exists {
                    let q = select_user_query(username.as_str());
                    (
                        Stage::LoginLoadUser,
                        session_user,
                        two_actions(Action::Reply(SUCCESS_MESSAGE), Action::LoadUser(q)),
                    )
                } else {
                    (Stage::AwaitRequest, session_user, login_failure(ip, "false username"))
                }
            },
            (Stage::LoginLoadUser, Event::UserLoaded(account)) => {
                (
                    Stage::LoginPassword { account },
                    session_user,
                    one_action(Action::ReadMessage(LONG_MESSAGE_LEN)),
                )
            },
            (Stage::LoginPassword { account }, Event::Message(password)) => {
                if account.password_check(password.as_str()) {
                    let m = log_line("Login with username: ", account.get_username().as_str(), ip);
                    let acts = four_actions(
                        Action::Reply(SUCCESS_MESSAGE),
                        Action::Info(m),
                        Action::Execute(insert_login_query(ip, true)),
                        Action::ReadRequest,
                    );
                    (Stage::AwaitRequest, Some(account), acts)
                } else {
                    (Stage::AwaitRequest, session_user, login_failure(ip, "false password"))
                }
            },
            (Stage::LoginPassword { account }, Event::MessageReadFailed(error)) => {
                (Stage::AwaitRequest, session_user, login_failure(ip, error.as_str()))
            },
            (Stage::CreateUsername, Event::Message(username)) => {
                let q = select_user_query(username.as_str());
                (Stage::CreateUsernameCheck { username }, session_user, one_action(Action::CheckUsername(q)))
            },
            (Stage::CreateUsername, Event::MessageReadFailed(error)) => {
                (Stage::AwaitRequest, session_user, create_failure(ip, error.as_str()))
            },
            (Stage::CreateUsernameCheck { username }, Event::UsernameChecked(exists)) => {
                if exists {
                    (Stage::AwaitRequest, session_user, create_failure(ip, "username exists"))
                } else {
                    (
                        Stage::CreateEmail { username },
                        session_user,
                        two_actions(Action::Reply(SUCCESS_MESSAGE), Action::ReadMessage(LONG_MESSAGE_LEN)),
                    )
                }
            },
            (Stage::CreateEmail { username }, Event::Message(e_mail)) => {
                (
                    Stage::CreatePassword { username, e_mail },
                    session_user,
                    two_actions(Action::Reply(SUCCESS_MESSAGE), Action::ReadMessage(LONG_MESSAGE_LEN)),
                )
            },
            (Stage::CreateEmail { username }, Event::MessageReadFailed(error)) => {
                (Stage::AwaitRequest, session_user, create_failure(ip, error.as_str()))
            },
            (Stage::CreatePassword { username, e_mail }, Event::Message(password)) => {
                let user = User::new(username.as_str(), e_mail.as_str(), password.as_str());
                let q = user.save_statement();
                let m = log_line("Created account with username: ", user.get_username().as_str(), ip);
                let acts = four_actions(
                    Action::Reply(SUCCESS_MESSAGE),
                    Action::Execute(q),
                    Action::Info(m),
                    Action::ReadRequest,
                );
                (Stage::AwaitRequest, Some(user), acts)
            },
            (Stage::CreatePassword { username, e_mail }, Event::MessageReadFailed(error)) => {
                (Stage::AwaitRequest, session_user, create_failure(ip, error.as_str()))
            },
            (stage, _) => (stage, session_user, Vec::new()),
        };
        let ghost acts_data = actions_data(acts@);
        assert(acts_data == next(s, e, user_option_data(session_user).unwrap()).1) by {
            if acts@.len() == 0 {
                assert(acts_data =~= Seq::<ActionData>::empty());
            }
        }
        (ServerSession { ip_address, login_trys, session_user, stage }, acts)
    }
}

} // verus!
