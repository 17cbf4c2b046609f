pub mod zipackage;
pub mod ziparchive;
pub mod zipassist;
pub mod ziperror;
pub mod zipperman;
