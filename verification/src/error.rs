//! The error answers of the API server.
//!
//! Every failure is answered with an HTTP status code and a message; login
//! and registration failures carry their own fixed pairs.

use vstd::prelude::*;

verus! {

pub const STATUS_OK: u16 = 200;

pub const STATUS_CREATED: u16 = 201;

pub const STATUS_BAD_REQUEST: u16 = 400;

pub const STATUS_UNAUTHORIZED: u16 = 401;

pub const STATUS_NOT_FOUND: u16 = 404;

pub const STATUS_CONFLICT: u16 = 409;

pub const STATUS_INTERNAL_SERVER_ERROR: u16 = 500;

/// A failed request: the status code and message it is answered with. A
/// failure without a fixed code is answered as an internal server error.
#[derive(Clone, Debug)]
pub struct ApiErr {
    pub code: Option<u16>,
    pub msg: String,
}

impl ApiErr {
    /// A failure answered with exactly `code` and `msg`.
    pub fn new(code: u16, msg: &str) -> (r: Self)
        ensures
            r.code == Some(code),
            r.msg@ == msg@,
    {
        ApiErr { code: Some(code), msg: msg.to_owned() }
    }

    /// A failure answered as an internal server error with `msg`.
    pub fn from_msg(msg: &str) -> (r: Self)
        ensures
            r.code == Some(500u16),
            r.msg@ == msg@,
    {
        ApiErr::new(500, msg)
    }
}

/// A failure of signing in or of registering, with the status code and the
/// message the caller is answered with.
#[derive(Debug)]
pub enum ServerErr {
    Login((u16, String)),
    Registration((u16, String)),
}

impl ServerErr {
    /// No account exists for the name that tried to sign in.
    pub fn missing_login() -> (r: Self)
        ensures
            r matches ServerErr::Login(p) && p.0 == 404 && p.1@ == "Missing login"@,
    {
        ServerErr::Login((404, "Missing login".to_owned()))
    }

    /// The password did not match.
    pub fn wrong_password() -> (r: Self)
        ensures
            r matches ServerErr::Login(p) && p.0 == 400 && p.1@ == "Invalid password"@,
    {
        ServerErr::Login((400, "Invalid password".to_owned()))
    }

    /// The name asked for at registration is already taken.
    pub fn account_exists() -> (r: Self)
        ensures
            r matches ServerErr::Login(p) && p.0 == 409 && p.1@ == "Account already exists"@,
    {
        ServerErr::Login((409, "Account already exists".to_owned()))
    }

    /// The status code and message this failure is answered with.
    pub fn response_parts(self) -> (r: (u16, String))
        ensures
            (match self {
                ServerErr::Login(p) => r == p,
                ServerErr::Registration(p) => r == p,
            }),
    {
        match self {
            ServerErr::Login(p) => p,
            ServerErr::Registration(p) => p,
        }
    }
}

} // verus!
