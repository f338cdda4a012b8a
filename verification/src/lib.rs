//! The configuration and connection-routing core of an FTP server, with the
//! replies of the obsolete `MODE` and `STRU` commands.

pub mod commands;
pub mod decimal;
pub mod ftpserver;
pub mod net;
pub mod reply;
