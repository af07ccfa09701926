//! Errors of the playback commands.

use vstd::prelude::*;

verus! {

/// Why a playback command failed.
#[derive(Debug)]
pub enum MediaError {
    /// The request was not acceptable.
    InvalidInput(String),
    /// Something failed inside the player.
    Internal(String),
}

impl MediaError {
    pub fn invalid_input(message: &str) -> (r: Self)
        ensures
            r matches MediaError::InvalidInput(m) && m@ == message@,
    {
        let mut m = String::new();
        crate::text::append_str(&mut m, message);
        MediaError::InvalidInput(m)
    }

    /// The text shown for the error.
    pub fn message(&self) -> (r: String)
        ensures
            r@ == match self {
                MediaError::InvalidInput(m) => m@,
                MediaError::Internal(m) => m@,
            },
    {
        match self {
            MediaError::InvalidInput(m) => m.clone(),
            MediaError::Internal(m) => m.clone(),
        }
    }
}

/// A command's result as the front end receives it: the error as its text.
pub fn command_result<T>(result: Result<T, MediaError>) -> (r: Result<T, String>)
    ensures
        match result {
            Ok(v) => r == Ok::<T, String>(v),
            Err(e) => r matches Err(m) && m@ == match e {
                MediaError::InvalidInput(t) => t@,
                MediaError::Internal(t) => t@,
            },
        },
{
    match result {
        Ok(v) => Ok(v),
        Err(e) => Err(e.message()),
    }
}

} // verus!
