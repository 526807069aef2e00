//! The client's side of a login or a registration, as a state machine: the
//! caller sends what the actions say, reads the server's four-byte answers
//! and hands each one back as an event, until an action finishes the
//! exchange.

use vstd::prelude::*;
use crate::protocol::{is_error_answer, CREATE_REQUEST, ERROR_MESSAGE, LOGIN_REQUEST};
use std::io::ErrorKind;

verus! {

#[verifier::external_type_specification]
#[verifier::external_body]
pub struct ExErrorKind(std::io::ErrorKind);

/// Why a login or a registration failed.
pub enum ClientError {
    /// The server refused the username of a login.
    FalseUsername,
    /// The server refused the password of a login.
    FalsePassword,
    /// The server refused the username of a registration.
    UsernameTaken,
    /// The server refused the e-mail address of a registration.
    EmailNotRead,
    /// The server refused the password of a registration.
    PasswordNotRead,
    /// Reading an answer failed, with this kind of I/O error and this
    /// error text.
    Io(ErrorKind, String),
}

pub ghost enum ClientErrorData {
    FalseUsername,
    FalsePassword,
    UsernameTaken,
    EmailNotRead,
    PasswordNotRead,
    Io(ErrorKind, Seq<char>),
}

impl View for ClientError {
    type V = ClientErrorData;

    open spec fn view(&self) -> ClientErrorData {
        match self {
            ClientError::FalseUsername => ClientErrorData::FalseUsername,
            ClientError::FalsePassword => ClientErrorData::FalsePassword,
            ClientError::UsernameTaken => ClientErrorData::UsernameTaken,
            ClientError::EmailNotRead => ClientErrorData::EmailNotRead,
            ClientError::PasswordNotRead => ClientErrorData::PasswordNotRead,
            ClientError::Io(k, t) => ClientErrorData::Io(*k, t@),
        }
    }
}

/// The text that describes an error to the user.
pub open spec fn error_text(e: ClientErrorData) -> Seq<char> {
    match e {
        ClientErrorData::FalseUsername => "false username"@,
        ClientErrorData::FalsePassword => "false password"@,
        ClientErrorData::UsernameTaken => "username allready exists"@,
        ClientErrorData::EmailNotRead => "server didn't read E-mail"@,
        ClientErrorData::PasswordNotRead => "server didn't read password"@,
        ClientErrorData::Io(_, t) => t,
    }
}

impl ClientError {
    /// The text that describes this error to the user.
    pub fn message(&self) -> (r: String)
        ensures
            r@ == error_text(self@),
    {
        match self {
            ClientError::FalseUsername => String::from_str("false username"),
            ClientError::FalsePassword => String::from_str("false password"),
            ClientError::UsernameTaken => String::from_str("username allready exists"),
            ClientError::EmailNotRead => String::from_str("server didn't read E-mail"),
            ClientError::PasswordNotRead => String::from_str("server didn't read password"),
            ClientError::Io(_, t) => t.clone(),
        }
    }

    /// The kind of I/O error of a failed read; none for a refusal.
    pub fn io_kind(&self) -> (r: Option<ErrorKind>)
        ensures
            r == (match self@ {
                ClientErrorData::Io(k, _) => Some(k),
                _ => None,
            }),
    {
        match self {
            ClientError::Io(k, _) => Some(*k),
            _ => None,
        }
    }
}

/// What the server answered.
pub enum ClientEvent {
    /// Four bytes were read.
    Answer([u8; 4]),
    /// Reading four bytes failed, with this kind of I/O error and this
    /// error text.
    ReadFailed(ErrorKind, String),
}

pub ghost enum ClientEventData {
    Answer([u8; 4]),
    ReadFailed(ErrorKind, Seq<char>),
}

impl View for ClientEvent {
    type V = ClientEventData;

    open spec fn view(&self) -> ClientEventData {
        match self {
            ClientEvent::Answer(a) => ClientEventData::Answer(*a),
            ClientEvent::ReadFailed(k, t) => ClientEventData::ReadFailed(*k, t@),
        }
    }
}

/// What the caller is to do.
pub enum ClientAction {
    /// Write this code to the server.
    SendCode([u8; 4]),
    /// Write this text to the server, as its UTF-8 bytes.
    SendText(String),
    /// Read a four-byte answer; hand it back as an event.
    ReadAnswer,
    /// The exchange is over, with this outcome.
    Finish(Result<(), ClientError>),
}

pub ghost enum ClientActionData {
    SendCode([u8; 4]),
    SendText(Seq<char>),
    ReadAnswer,
    Finish(Result<(), ClientErrorData>),
}

impl View for ClientAction {
    type V = ClientActionData;

    open spec fn view(&self) -> ClientActionData {
        match self {
            ClientAction::SendCode(c) => ClientActionData::SendCode(*c),
            ClientAction::SendText(t) => ClientActionData::SendText(t@),
            ClientAction::ReadAnswer => ClientActionData::ReadAnswer,
            ClientAction::Finish(r) => ClientActionData::Finish(
                match r {
                    Ok(()) => Ok(()),
                    Err(e) => Err(e@),
                },
            ),
        }
    }
}

/// The contents of a list of actions.
pub open spec fn client_actions_data(acts: Seq<ClientAction>) -> Seq<ClientActionData> {
    acts.map_values(|a: ClientAction| a@)
}

/// Which exchange runs.
#[derive(Clone, Copy, PartialEq, Eq, Structural)]
pub enum Exchange {
    Login,
    Register,
}

/// Which answer the client waits for.
#[derive(Clone, Copy)]
pub enum ClientStage {
    AwaitUsernameAnswer,
    /// The registration's e-mail answer; `username_answer` is the answer
    /// the username got, which is what this step checks.
    AwaitEmailAnswer { username_answer: [u8; 4] },
    AwaitPasswordAnswer,
    Done,
}

/// A login or a registration under way.
pub struct ClientSession {
    exchange: Exchange,
    stage: ClientStage,
    e_mail: String,
    password: String,
}

pub ghost struct ClientSessionData {
    pub exchange: Exchange,
    pub stage: ClientStage,
    pub e_mail: Seq<char>,
    pub password: Seq<char>,
}

impl View for ClientSession {
    type V = ClientSessionData;

    closed spec fn view(&self) -> ClientSessionData {
        ClientSessionData {
            exchange: self.exchange,
            stage: self.stage,
            e_mail: self.e_mail@,
            password: self.password@,
        }
    }
}

/// A registration waits for the e-mail answer only after a username
/// answer that was not the refusal.
pub open spec fn client_wf(s: ClientSessionData) -> bool {
    match s.stage {
        ClientStage::AwaitEmailAnswer { username_answer } => s.exchange == Exchange::Register
            && username_answer@ != ERROR_MESSAGE@,
        _ => true,
    }
}

pub open spec fn finish(s: ClientSessionData, outcome: Result<(), ClientErrorData>) -> (ClientSessionData, Seq<ClientActionData>) {
    (ClientSessionData { stage: ClientStage::Done, ..s }, seq![ClientActionData::Finish(outcome)])
}

pub open spec fn send_and_wait(s: ClientSessionData, stage: ClientStage, text: Seq<char>) -> (ClientSessionData, Seq<ClientActionData>) {
    (
        ClientSessionData { stage, ..s },
        seq![ClientActionData::SendText(text), ClientActionData::ReadAnswer],
    )
}

/// The response of the client in `s` to `e`. Once done, nothing changes.
pub open spec fn client_next(s: ClientSessionData, e: ClientEventData) -> (ClientSessionData, Seq<ClientActionData>) {
    match e {
        ClientEventData::ReadFailed(k, t) => match s.stage {
            ClientStage::Done => (s, Seq::empty()),
            _ => finish(s, Err(ClientErrorData::Io(k, t))),
        },
        ClientEventData::Answer(a) => {
            let refused = a@ == ERROR_MESSAGE@;
            match s.stage {
                ClientStage::AwaitUsernameAnswer => if refused {
                    finish(
                        s,
                        Err(
                            if s.exchange == Exchange::Login {
                                ClientErrorData::FalseUsername
                            } else {
                                ClientErrorData::UsernameTaken
                            },
                        ),
                    )
                } else if s.exchange == Exchange::Login {
                    send_and_wait(s, ClientStage::AwaitPasswordAnswer, s.password)
                } else {
                    send_and_wait(
                        s,
                        ClientStage::AwaitEmailAnswer { username_answer: a },
                        s.e_mail,
                    )
                },
                ClientStage::AwaitEmailAnswer { username_answer } => if username_answer@
                    == ERROR_MESSAGE@ {
                    finish(s, Err(ClientErrorData::EmailNotRead))
                } else {
                    send_and_wait(s, ClientStage::AwaitPasswordAnswer, s.password)
                },
                ClientStage::AwaitPasswordAnswer => if refused {
                    finish(
                        s,
                        Err(
                            if s.exchange == Exchange::Login {
                                ClientErrorData::FalsePassword
                            } else {
                                ClientErrorData::PasswordNotRead
                            },
                        ),
                    )
                } else {
                    finish(s, Ok(()))
                },
                ClientStage::Done => (s, Seq::empty()),
            }
        },
    }
}


/// Every response keeps an exchange well formed.
pub proof fn lemma_client_step_keeps_wf(s: ClientSessionData, e: ClientEventData)
    requires
        client_wf(s),
    ensures
        client_wf(client_next(s, e).0),
{
}

/// The e-mail answer of a registration never fails it: whatever the server
/// answers there, the password goes out next.
pub proof fn lemma_email_answer_never_refuses(s: ClientSessionData, answer: [u8; 4])
    requires
        client_wf(s),
        s.stage is AwaitEmailAnswer,
    ensures
        client_next(s, ClientEventData::Answer(answer)).0.stage == ClientStage::AwaitPasswordAnswer,
        client_next(s, ClientEventData::Answer(answer)).1 == seq![
            ClientActionData::SendText(s.password),
            ClientActionData::ReadAnswer,
        ],
{
}


/// A login sends exactly the password it was given, once the username is
/// not refused, and then waits for the password's answer.
pub proof fn lemma_login_sends_given_password(s: ClientSessionData, answer: [u8; 4])
    requires
        s.exchange == Exchange::Login,
        s.stage == ClientStage::AwaitUsernameAnswer,
        answer@ != ERROR_MESSAGE@,
    ensures
        client_next(s, ClientEventData::Answer(answer)).1 == seq![
            ClientActionData::SendText(s.password),
            ClientActionData::ReadAnswer,
        ],
        client_next(s, ClientEventData::Answer(answer)).0.stage == ClientStage::AwaitPasswordAnswer,
        client_next(s, ClientEventData::Answer(answer)).0.password == s.password,
{
}

/// A registration sends exactly the e-mail address it was given once the
/// username is not refused, and after the e-mail's answer exactly the
/// password it was given.
pub proof fn lemma_registration_sends_given_values(
    s: ClientSessionData,
    username_answer: [u8; 4],
    e_mail_answer: [u8; 4],
)
    requires
        s.exchange == Exchange::Register,
        s.stage == ClientStage::AwaitUsernameAnswer,
        username_answer@ != ERROR_MESSAGE@,
    ensures
        ({
            let (s1, a1) = client_next(s, ClientEventData::Answer(username_answer));
            let (s2, a2) = client_next(s1, ClientEventData::Answer(e_mail_answer));
            &&& a1 == seq![ClientActionData::SendText(s.e_mail), ClientActionData::ReadAnswer]
            &&& a2 == seq![ClientActionData::SendText(s.password), ClientActionData::ReadAnswer]
            &&& s2.stage == ClientStage::AwaitPasswordAnswer
        }),
{
}


/// A refused answer ends the exchange with the error of its step: a login
/// with `FalseUsername` or `FalsePassword`, a registration with
/// `UsernameTaken` or `PasswordNotRead`.
pub proof fn lemma_refusal_errors(s: ClientSessionData)
    requires
        s.stage == ClientStage::AwaitUsernameAnswer || s.stage == ClientStage::AwaitPasswordAnswer,
    ensures
        ({
            let (s2, acts) = client_next(s, ClientEventData::Answer(ERROR_MESSAGE));
            let expected = if s.stage == ClientStage::AwaitUsernameAnswer {
                if s.exchange == Exchange::Login {
                    ClientErrorData::FalseUsername
                } else {
                    ClientErrorData::UsernameTaken
                }
            } else if s.exchange == Exchange::Login {
                ClientErrorData::FalsePassword
            } else {
                ClientErrorData::PasswordNotRead
            };
            &&& acts == seq![ClientActionData::Finish(Err(expected))]
            &&& s2.stage == ClientStage::Done
        }),
{
}

/// A failed read ends an exchange under way with that I/O error, its kind
/// and its text unchanged.
pub proof fn lemma_read_failure_error(s: ClientSessionData, kind: ErrorKind, text: Seq<char>)
    requires
        s.stage != ClientStage::Done,
    ensures
        client_next(s, ClientEventData::ReadFailed(kind, text)).1 == seq![
            ClientActionData::Finish(Err(ClientErrorData::Io(kind, text))),
        ],
{
}

/// An exchange succeeds only on an answer to the password that is not the
/// refusal code.
pub proof fn lemma_success_needs_accepted_password(s: ClientSessionData, e: ClientEventData)
    requires
        client_next(s, e).1.contains(ClientActionData::Finish(Ok(()))),
    ensures
        s.stage == ClientStage::AwaitPasswordAnswer,
        e matches ClientEventData::Answer(a) && a@ != ERROR_MESSAGE@,
{
    let acts = client_next(s, e).1;
    let i = choose|i: int| 0 <= i < acts.len() && acts[i] == ClientActionData::Finish(Ok(()));
    assert(acts[i] == ClientActionData::Finish(Ok(())));
}

/// A response either waits for the next answer, as its last action, or
/// finishes the exchange, as its only action; a finished exchange stays
/// finished and asks for nothing.
pub proof fn lemma_client_waits_or_finishes(s: ClientSessionData, e: ClientEventData)
    ensures
        ({
            let (s2, acts) = client_next(s, e);
            &&& s.stage == ClientStage::Done ==> s2 == s && acts.len() == 0
            &&& s.stage != ClientStage::Done ==> (acts.len() == 1 && acts[0] is Finish
                && s2.stage == ClientStage::Done) || (acts.len() == 2 && acts[0] is SendText
                && acts[1] is ReadAnswer && s2.stage != ClientStage::Done)
        }),
{
}

fn finish_with(outcome: Result<(), ClientError>) -> (r: Vec<ClientAction>)
    ensures
        client_actions_data(r@) == seq![ClientAction::Finish(outcome)@],
{
    let mut v = Vec::new();
    v.push(ClientAction::Finish(outcome));
    assert(client_actions_data(v@) =~= seq![ClientAction::Finish(outcome)@]);
    v
}

fn send_then_read(text: &String) -> (r: Vec<ClientAction>)
    ensures
        client_actions_data(r@) == seq![
            ClientActionData::SendText(text@),
            ClientActionData::ReadAnswer,
        ],
{
    let mut v = Vec::new();
    v.push(ClientAction::SendText(text.clone()));
    v.push(ClientAction::ReadAnswer);
    assert(client_actions_data(v@) =~= seq![
        ClientActionData::SendText(text@),
        ClientActionData::ReadAnswer,
    ]);
    v
}

fn opening(code: [u8; 4], username: &str) -> (r: Vec<ClientAction>)
    ensures
        client_actions_data(r@) == seq![
            ClientActionData::SendCode(code),
            ClientActionData::SendText(username@),
            ClientActionData::ReadAnswer,
        ],
{
    let mut v = Vec::new();
    v.push(ClientAction::SendCode(code));
    v.push(ClientAction::SendText(String::from_str(username)));
    v.push(ClientAction::ReadAnswer);
    assert(client_actions_data(v@) =~= seq![
        ClientActionData::SendCode(code),
        ClientActionData::SendText(username@),
        ClientActionData::ReadAnswer,
    ]);
    v
}

impl ClientSession {
    #[verifier::type_invariant]
    spec fn wf(self) -> bool {
        client_wf(self@)
    }

    /// Starts a login: the login request and the username go out, then the
    /// client waits for the username's answer.
    pub fn login(username: &str, password: &str) -> (r: (ClientSession, Vec<ClientAction>))
        ensures
            r.0@ == (ClientSessionData {
                exchange: Exchange::Login,
                stage: ClientStage::AwaitUsernameAnswer,
                e_mail: Seq::empty(),
                password: password@,
            }),
            client_actions_data(r.1@) == seq![
                ClientActionData::SendCode(LOGIN_REQUEST),
                ClientActionData::SendText(username@),
                ClientActionData::ReadAnswer,
            ],
    {
        let s = ClientSession {
            exchange: Exchange::Login,
            stage: ClientStage::AwaitUsernameAnswer,
            e_mail: String::new(),
            password: String::from_str(password),
        };
        (s, opening(LOGIN_REQUEST, username))
    }

    /// Starts a registration: the registration request and the username go
    /// out, then the client waits for the username's answer.
    pub fn register(username: &str, e_mail: &str, password: &str) -> (r: (ClientSession, Vec<ClientAction>))
        ensures
            r.0@ == (ClientSessionData {
                exchange: Exchange::Register,
                stage: ClientStage::AwaitUsernameAnswer,
                e_mail: e_mail@,
                password: password@,
            }),
            client_actions_data(r.1@) == seq![
                ClientActionData::SendCode(CREATE_REQUEST),
                ClientActionData::SendText(username@),
                ClientActionData::ReadAnswer,
            ],
    {
        let s = ClientSession {
            exchange: Exchange::Register,
            stage: ClientStage::AwaitUsernameAnswer,
            e_mail: String::from_str(e_mail),
            password: String::from_str(password),
        };
        (s, opening(CREATE_REQUEST, username))
    }

    /// Whether the exchange is over.
    pub fn is_done(&self) -> (r: bool)
        ensures
            r == (self@.stage == ClientStage::Done),
    {
        match self.stage {
            ClientStage::Done => true,
            _ => false,
        }
    }

    /// The response to `event`: the new state and the actions to perform.
    pub fn step(self, event: ClientEvent) -> (r: (ClientSession, Vec<ClientAction>))
        ensures
            (r.0@, client_actions_data(r.1@)) == client_next(self@, event@),
    {
        proof {
            use_type_invariant(&self);
        }
        let ghost s = self@;
        let ClientSession { exchange, stage, e_mail, password } = self;
        let login = match exchange {
            Exchange::Login => true,
            Exchange::Register => false,
        };
        let (stage, acts): (ClientStage, Vec<ClientAction>) = match event {
            ClientEvent::ReadFailed(k, t) => match stage {
                ClientStage::Done => (ClientStage::Done, Vec::new()),
                _ => (ClientStage::Done, finish_with(Err(ClientError::Io(k, t)))),
            },
            ClientEvent::Answer(a) => {
                let refused = is_error_answer(a);
                match stage {
                    ClientStage::AwaitUsernameAnswer => if refused {
                        let err = if login {
                            ClientError::FalseUsername
                        } else {
                            ClientError::UsernameTaken
                        };
                        (ClientStage::Done, finish_with(Err(err)))
                    } else if login {
                        (ClientStage::AwaitPasswordAnswer, send_then_read(&password))
                    } else {
                        (ClientStage::AwaitEmailAnswer { username_answer: a }, send_then_read(&e_mail))
                    },
                    ClientStage::AwaitEmailAnswer { username_answer } => if is_error_answer(
                        username_answer,
                    ) {
                        (ClientStage::Done, finish_with(Err(ClientError::EmailNotRead)))
                    } else {
                        (ClientStage::AwaitPasswordAnswer, send_then_read(&password))
                    },
                    ClientStage::AwaitPasswordAnswer => if refused {
                        let err = if login {
                            ClientError::FalsePassword
                        } else {
                            ClientError::PasswordNotRead
                        };
                        (ClientStage::Done, finish_with(Err(err)))
                    } else {
                        (ClientStage::Done, finish_with(Ok(())))
                    },
                    ClientStage::Done => (ClientStage::Done, Vec::new()),
                }
            },
        };
        proof {
            if acts@.len() == 0 {
                assert(client_actions_data(acts@) =~= Seq::<ClientActionData>::empty());
            }
        }
        (ClientSession { exchange, stage, e_mail, password }, acts)
    }
}

} // verus!
