//! The portal restore token on disk: what a loaded file means, and the
//! exact write that stores a fresh token.

use vstd::prelude::*;

use crate::text::trim;
use crate::text::trim_spec;

verus! {

/// A pending token write: the path, the bytes, and the file mode, which is
/// always owner read-write only.
#[derive(Debug)]
pub struct TokenWrite {
    pub path: String,
    pub contents: String,
    pub mode: u32,
}

/// Plan the save of a fresh restore token.  The mode is exactly `0o600`:
/// the token re-opens a consented portal session, so nobody else on the
/// machine may read it.
pub fn plan_token_save(path: &str, token: &str) -> (r: TokenWrite)
    ensures
        r.path@ == path@,
        r.contents@ == token@,
        r.mode == 0o600,
{
    TokenWrite { path: path.to_owned(), contents: token.to_owned(), mode: 0o600 }
}

/// What a loaded token file means: the token is the file's text without
/// surrounding whitespace, and a missing or blank file means no token.
pub fn clean_loaded_token(contents: Option<String>) -> (r: Option<String>)
    ensures
        contents is None ==> r is None,
        contents matches Some(c) ==> {
            &&& (trim_spec(c@).len() == 0 ==> r is None)
            &&& (trim_spec(c@).len() > 0 ==> (r matches Some(t) ==> t@ == trim_spec(c@)) && (
            r is Some))
        },
{
    match contents {
        Some(c) => {
            let t = trim(c.as_str());
            if t.as_str().unicode_len() == 0 {
                None
            } else {
                Some(t)
            }
        },
        None => None,
    }
}

} // verus!
