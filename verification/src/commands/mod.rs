//! Handlers of FTP commands whose reply is fixed by their parameter.

pub mod mode;
pub mod stru;
