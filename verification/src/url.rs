//! The URL shortener: a long address stored under a short random identifier.

use crate::db::{get_command, set_command, Command, DbCommand};
use crate::error::AngryError;
use crate::http::{Reply, ReplyView};
use crate::util::{ensure_unused, entry_url, prefixed_key};
use vstd::prelude::*;
use vstd::string::{StrSliceExecFns, StringExecFns};
use vstd::utf8::encode_utf8;

verus! {

/// What the key of a shortened address starts with.
pub const URL_PREFIX: &'static str = "url_";

/// The path under which a shortened address is served.
pub const URL_PATH: &'static str = "/u/";

/// The number of characters of a short identifier.
pub const SHORT_LEN: usize = 6;

/// The command that reads what is stored for `short`. Its answer is read as
/// text.
pub fn url_query(short: &str) -> (command: DbCommand)
    ensures
        command@ == (Command::Read { key: encode_utf8(URL_PREFIX@ + short@) }),
{
    get_command(prefixed_key(URL_PREFIX, short))
}

/// Shortens `url` under the fresh identifier `short`, given `existing`, the
/// text read under that identifier. If the identifier is free, the answer is
/// the command that stores the address and the short address to hand out; if
/// it is taken, `Other("WTF")` and nothing is written.
pub fn shorten_url(existing: &str, short: &str, url: &str, base_url: &str) -> (step: Result<
    (DbCommand, String),
    AngryError<()>,
>)
    ensures
        existing@.len() == 0 ==> step is Ok && step->Ok_0.0@ == (Command::Write {
            key: encode_utf8(URL_PREFIX@ + short@),
            value: encode_utf8(url@),
        }) && step->Ok_0.1@ == base_url@ + URL_PATH@ + short@,
        existing@.len() != 0 ==> (step matches Err(AngryError::Other(message)) && message@
            == "WTF"@),
{
    match ensure_unused::<()>(existing) {
        Err(err) => Err(err),
        Ok(_) => {
            let command = set_command(prefixed_key(URL_PREFIX, short), url.as_bytes_vec());
            Ok((command, entry_url(base_url, URL_PATH, short)))
        },
    }
}

/// Answers a request for a short address, given `u`, the text read under its
/// identifier: a redirect to `u`, or 404 where nothing is stored.
pub fn show_shortened_url(u: String) -> (reply: Reply)
    ensures
        reply@ == if u@.len() != 0 {
            ReplyView::Found { location: u@ }
        } else {
            ReplyView::NotFound { reason: "Url not recorded"@ }
        },
{
    if !u.as_str().is_empty() {
        Reply::Found { location: u }
    } else {
        Reply::NotFound { reason: String::from_str("Url not recorded") }
    }
}

} // verus!
