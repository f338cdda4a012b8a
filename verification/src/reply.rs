//! Replies that the control channel sends back to the client.

use vstd::prelude::*;

verus! {

/// The reply codes (RFC 959) that the logic of this crate produces.
#[derive(Debug, Clone, Copy, PartialEq, Eq, Structural)]
pub enum ReplyCode {
    /// 200: the command was carried out.
    CommandOkay,
    /// 227: the server has opened a passive data port.
    EnteringPassiveMode,
    /// 504: the command is known but not for the given parameter.
    CommandNotImplementedForParameter,
}

/// The number that RFC 959 assigns to a reply code.
pub open spec fn reply_code_number(code: ReplyCode) -> u32 {
    match code {
        ReplyCode::CommandOkay => 200,
        ReplyCode::EnteringPassiveMode => 227,
        ReplyCode::CommandNotImplementedForParameter => 504,
    }
}

impl ReplyCode {
    /// The three-digit number of this reply code.
    pub fn number(&self) -> (n: u32)
        ensures
            n == reply_code_number(*self),
            *self == ReplyCode::CommandOkay ==> n == 200,
            *self == ReplyCode::EnteringPassiveMode ==> n == 227,
            *self == ReplyCode::CommandNotImplementedForParameter ==> n == 504,
    {
        match self {
            ReplyCode::CommandOkay => 200,
            ReplyCode::EnteringPassiveMode => 227,
            ReplyCode::CommandNotImplementedForParameter => 504,
        }
    }
}

/// A single-line reply: a code and the text that goes with it.
pub struct Reply {
    pub code: ReplyCode,
    pub msg: String,
}

impl Reply {
    /// A reply with the given code and text.
    pub fn new(code: ReplyCode, msg: &str) -> (r: Reply)
        ensures
            r.code == code,
            r.msg@ == msg@,
    {
        Reply { code, msg: String::from_str(msg) }
    }
}

} // verus!
