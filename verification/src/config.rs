//! What the client keeps on disk: the user's pseudo, and the daemon's
//! session token as the daemon writes it.
use vstd::prelude::*;
use crate::text::{trim, trim_text};

verus! {

/// The stored configuration: the user's pseudo.
#[derive(Debug)]
pub struct AppConfig {
    pub pseudo: String,
}

/// The session token held by the token file's contents: the contents
/// without surrounding whitespace.
pub fn token_from_file(contents: &str) -> (r: String)
    ensures
        r@ == trim(contents@),
{
    trim_text(contents)
}

} // verus!
