//! Credential configuration.
//!
//! The connection needs a secret cookie, normally read from the well-known
//! file `$HOME/.erlang.cookie`. Looking for the home directory and reading
//! the file is the caller's side; this module decides what the read amounts
//! to: the file's contents become the cookie, and a missing file is a
//! configuration error telling the user to supply the cookie explicitly.

use vstd::prelude::*;

verus! {

/// The credential could not be discovered.
#[derive(Debug)]
pub struct CookieError {
    pub message: String,
}

impl View for CookieError {
    type V = Seq<char>;

    open spec fn view(&self) -> Seq<char> {
        self.message@
    }
}

/// The error text for a missing cookie file.
pub open spec fn missing_cookie_message() -> Seq<char> {
    "Could not find the cookie file $HOME/.erlang.cookie. Please specify `-cookie` arg instead."@
}

/// Turn the outcome of looking for the cookie file into the credential:
/// the file's contents when it exists, and a configuration error naming the
/// cookie file when it does not.
pub fn find_cookie(contents: Option<String>) -> (r: Result<String, CookieError>)
    ensures
        contents matches Some(c) ==> r == Ok::<String, CookieError>(c),
        contents is None ==> (r matches Err(e) && e@ == missing_cookie_message()),
{
    match contents {
        Some(c) => Ok(c),
        None => Err(
            CookieError {
                message:
                    "Could not find the cookie file $HOME/.erlang.cookie. Please specify `-cookie` arg instead.".to_owned(),
            },
        ),
    }
}

} // verus!
