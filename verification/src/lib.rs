//! Verified core of a media unzipper: argument validation, credential
//! collection, SSH target parsing and the decisions taken while copying and
//! extracting a directory tree. File, terminal and network work is left to
//! the program that drives this library.

pub mod pathnames;
pub mod text;
pub mod zipmod;
pub mod utils;
