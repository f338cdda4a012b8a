//! The RFC 959 transfer mode (`MODE`) command.
//!
//! The argument is a single Telnet character code: `S` (stream), `B` (block)
//! or `C` (compressed). The default transfer mode is stream, and stream is
//! the only mode that this server supports.

use vstd::prelude::*;
use crate::reply::{Reply, ReplyCode};

verus! {

/// The parameter that can be given to the `MODE` command. The command is
/// obsolete and only `Stream` is supported, but the command itself is kept
/// for compatibility.
#[derive(Debug, Clone, Copy, PartialEq, Eq, Structural)]
pub enum ModeParam {
    /// Data is sent in a continuous stream of bytes.
    Stream,
    /// Data is sent as a series of blocks preceded by one or more header bytes.
    Block,
    /// Some round-about way of sending compressed data.
    Compressed,
}

/// The `MODE` command with its parameter.
pub struct Mode {
    params: ModeParam,
}

/// The text of the reply that accepts the stream mode.
pub open spec fn stream_accepted_text() -> Seq<char> {
    "Using Stream transfer mode"@
}

/// The text of the reply that refuses every mode but stream.
pub open spec fn mode_refused_text() -> Seq<char> {
    "Only Stream transfer mode is supported"@
}

impl View for Mode {
    type V = ModeParam;

    closed spec fn view(&self) -> ModeParam {
        self.params
    }
}

impl Mode {
    /// The `MODE` command with the given parameter.
    pub fn new(params: ModeParam) -> (m: Self)
        ensures
            m@ == params,
    {
        Mode { params }
    }

    /// The reply to the command: 200 for the stream mode, 504 for the others.
    pub fn handle(&self) -> (r: Reply)
        ensures
            self@ == ModeParam::Stream ==> r.code == ReplyCode::CommandOkay
                && r.msg@ == stream_accepted_text()
                && r.msg@ == "Using Stream transfer mode"@,
            self@ != ModeParam::Stream ==> r.code == ReplyCode::CommandNotImplementedForParameter
                && r.msg@ == mode_refused_text()
                && r.msg@ == "Only Stream transfer mode is supported"@,
    {
        match self.params {
            ModeParam::Stream => Reply::new(ReplyCode::CommandOkay, "Using Stream transfer mode"),
            _ => Reply::new(
                ReplyCode::CommandNotImplementedForParameter,
                "Only Stream transfer mode is supported",
            ),
        }
    }
}

} // verus!
