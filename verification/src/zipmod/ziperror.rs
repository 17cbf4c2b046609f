use vstd::prelude::*;

verus! {

/// The error every fallible step of unzipping reports: a message for the user.
#[derive(Debug)]
pub struct ZIPError {
    pub message: String,
}

impl ZIPError {
    /// An error carrying `message`.
    pub fn new(message: &str) -> (err: ZIPError)
        ensures
            err.message@ == message@,
    {
        ZIPError { message: message.to_string() }
    }
}

} // verus!
