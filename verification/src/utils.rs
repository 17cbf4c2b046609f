pub mod helper;
pub mod sshinfo;
pub mod zipperman;
