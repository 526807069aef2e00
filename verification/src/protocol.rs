//! The four-byte codes that client and server exchange.

use vstd::prelude::*;

verus! {

/// Asks the server to register a new account.
pub const CREATE_REQUEST: [u8; 4] = [0, 0, 0, 1];

/// Asks the server to log in to an existing account.
pub const LOGIN_REQUEST: [u8; 4] = [0, 0, 1, 0];

/// The server's answer that the last message was refused.
pub const ERROR_MESSAGE: [u8; 4] = [1, 0, 0, 0];

/// The server's answer that the last message was accepted.
pub const SUCCESS_MESSAGE: [u8; 4] = [0, 0, 0, 0];

/// What a four-byte request asks for.
#[derive(Debug, Clone, Copy, PartialEq, Eq, Structural)]
pub enum Request {
    Login,
    Create,
    Other,
}

/// Two codes are the same when their bytes are.
pub fn same_code(a: [u8; 4], b: [u8; 4]) -> (r: bool)
    ensures
        r == (a@ == b@),
{
    let r = a[0] == b[0] && a[1] == b[1] && a[2] == b[2] && a[3] == b[3];
    proof {
        if r {
            assert(a@ =~= b@);
        } else if a@ == b@ {
            assert(a@[0] == b@[0] && a@[1] == b@[1] && a@[2] == b@[2] && a@[3] == b@[3]);
        }
    }
    r
}

/// The request that a code stands for.
pub open spec fn request_of(data: Seq<u8>) -> Request {
    if data == LOGIN_REQUEST@ {
        Request::Login
    } else if data == CREATE_REQUEST@ {
        Request::Create
    } else {
        Request::Other
    }
}


/// The login code asks for a login, the registration code for a
/// registration, and the two answer codes for neither.
pub proof fn lemma_request_codes()
    ensures
        request_of(LOGIN_REQUEST@) == Request::Login,
        request_of(CREATE_REQUEST@) == Request::Create,
        request_of(ERROR_MESSAGE@) == Request::Other,
        request_of(SUCCESS_MESSAGE@) == Request::Other,
{
    assert(CREATE_REQUEST@ != LOGIN_REQUEST@) by {
        assert(CREATE_REQUEST@[3] != LOGIN_REQUEST@[3]);
    }
    assert(ERROR_MESSAGE@ != LOGIN_REQUEST@) by {
        assert(ERROR_MESSAGE@[0] != LOGIN_REQUEST@[0]);
    }
    assert(ERROR_MESSAGE@ != CREATE_REQUEST@) by {
        assert(ERROR_MESSAGE@[0] != CREATE_REQUEST@[0]);
    }
    assert(SUCCESS_MESSAGE@ != LOGIN_REQUEST@) by {
        assert(SUCCESS_MESSAGE@[2] != LOGIN_REQUEST@[2]);
    }
    assert(SUCCESS_MESSAGE@ != CREATE_REQUEST@) by {
        assert(SUCCESS_MESSAGE@[3] != CREATE_REQUEST@[3]);
    }
}

/// Reads a four-byte request: the login code, the registration code, or
/// anything else.
pub fn classify_request(data: [u8; 4]) -> (r: Request)
    ensures
        r == request_of(data@),
{
    if same_code(data, LOGIN_REQUEST) {
        Request::Login
    } else if same_code(data, CREATE_REQUEST) {
        Request::Create
    } else {
        Request::Other
    }
}

/// Whether an answer from the server is the refusal code.
pub fn is_error_answer(answer: [u8; 4]) -> (r: bool)
    ensures
        r == (answer@ == ERROR_MESSAGE@),
{
    same_code(answer, ERROR_MESSAGE)
}

} // verus!
