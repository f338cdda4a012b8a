//! The RFC 959 file structure (`STRU`) command.
//!
//! The argument is a single Telnet character code: `F` (file, no record
//! structure), `R` (record structure) or `P` (page structure). The default
//! structure is file, and file is the only structure that this server
//! supports.

use vstd::prelude::*;
use crate::reply::{Reply, ReplyCode};

verus! {

/// The parameter that can be given to the `STRU` command, which sets the file
/// structure. This stems from a time when some operating systems addressed
/// records in files; it is kept for legacy reasons, and only `File` is
/// supported.
#[derive(Debug, Clone, Copy, PartialEq, Eq, Structural)]
pub enum StruParam {
    /// "Regular" file structure.
    File,
    /// Files are structured in "Records".
    Record,
    /// Files are structured in "Pages".
    Page,
}

/// The `STRU` command with its parameter.
pub struct Stru {
    params: StruParam,
}

/// The text of the reply that accepts the file structure.
pub open spec fn file_structure_accepted_text() -> Seq<char> {
    "In File structure mode"@
}

/// The text of the reply that refuses every structure but file.
pub open spec fn structure_refused_text() -> Seq<char> {
    "Only File structure mode is supported"@
}

impl View for Stru {
    type V = StruParam;

    closed spec fn view(&self) -> StruParam {
        self.params
    }
}

impl Stru {
    /// The `STRU` command with the given parameter.
    pub fn new(params: StruParam) -> (s: Self)
        ensures
            s@ == params,
    {
        Stru { params }
    }

    /// The reply to the command: 200 for the file structure, 504 for the others.
    pub fn handle(&self) -> (r: Reply)
        ensures
            self@ == StruParam::File ==> r.code == ReplyCode::CommandOkay
                && r.msg@ == file_structure_accepted_text()
                && r.msg@ == "In File structure mode"@,
            self@ != StruParam::File ==> r.code == ReplyCode::CommandNotImplementedForParameter
                && r.msg@ == structure_refused_text()
                && r.msg@ == "Only File structure mode is supported"@,
    {
        match self.params {
            StruParam::File => Reply::new(ReplyCode::CommandOkay, "In File structure mode"),
            _ => Reply::new(
                ReplyCode::CommandNotImplementedForParameter,
                "Only File structure mode is supported",
            ),
        }
    }
}

} // verus!
