//! The pastebin: a text stored under a short random identifier, served as
//! plain text, or as a rendered page to browsers.

use crate::db::{get_command, set_command, Command, DbCommand};
use crate::error::AngryError;
use crate::http::{ContentType, Reply, ReplyView};
use crate::util::{
    ensure_unused, entry_url, lowercase, names_browser, prefixed_key, ua_is_browser,
};
use vstd::prelude::*;
use vstd::string::StringExecFns;
use vstd::utf8::encode_utf8;

verus! {

/// What the key of a paste starts with.
pub const PASTE_PREFIX: &'static str = "paste_";

/// The path under which a paste is served.
pub const PASTE_PATH: &'static str = "/t/";

/// The number of characters of a paste's identifier.
pub const PASTE_ID_LEN: usize = 6;

/// The largest body, in bytes, that is accepted as a paste.
pub const PASTE_LIMIT: usize = 15360;

/// Where the paste goes in the page's template.
pub const PLACEHOLDER: &'static str = "{{code}}";

/// What stands for one character in escaped text: an entity for each of the
/// five characters that HTML gives a meaning, the character itself otherwise.
pub open spec fn escaped_char(c: char) -> Seq<char> {
    if c == '"' {
        seq!['&', 'q', 'u', 'o', 't', ';']
    } else if c == '&' {
        seq!['&', 'a', 'm', 'p', ';']
    } else if c == '\'' {
        seq!['&', '#', 'x', '2', '7', ';']
    } else if c == '<' {
        seq!['&', 'l', 't', ';']
    } else if c == '>' {
        seq!['&', 'g', 't', ';']
    } else {
        seq![c]
    }
}

/// A text with each of its characters escaped, in order.
pub open spec fn escaped(text: Seq<char>) -> Seq<char>
    decreases text.len(),
{
    if text.len() == 0 {
        Seq::empty()
    } else {
        escaped_char(text[0]) + escaped(text.drop_first())
    }
}

/// `htmlescape::encode_minimal`: the text with `"`, `&`, `'`, `<` and `>`
/// replaced by `&quot;`, `&amp;`, `&#x27;`, `&lt;` and `&gt;`, and every other
/// character kept.
#[verifier::external_body]
fn encode_minimal(text: &str) -> (safe: String)
    ensures
        safe@ == escaped(text@),
{
    htmlescape::encode_minimal(text)
}

/// What `str::replace` returns for a text, a pattern and a replacement: the
/// text with all matches of the pattern replaced. It depends on the three
/// alone.
pub uninterp spec fn replaced(text: Seq<char>, pattern: Seq<char>, with: Seq<char>) -> Seq<char>;

/// `str::replace` with a string as the pattern.
#[verifier::external_body]
fn replace(text: &str, pattern: &str, with: &str) -> (result: String)
    ensures
        result@ == replaced(text@, pattern@, with@),
{
    text.replace(pattern, with)
}

/// The command that reads what is stored for `id`. Its answer is read as text.
pub fn paste_query(id: &str) -> (command: DbCommand)
    ensures
        command@ == (Command::Read { key: encode_utf8(PASTE_PREFIX@ + id@) }),
{
    get_command(prefixed_key(PASTE_PREFIX, id))
}

/// Stores `body` under the fresh identifier `id`, given `existing`, the text
/// read under that identifier. If the identifier is free, the answer is the
/// command that stores the body, byte for byte, and the address to hand out;
/// if it is taken, `Other("WTF")` and nothing is written.
pub fn paste(existing: &str, id: &str, body: Vec<u8>, base_url: &str) -> (step: Result<
    (DbCommand, String),
    AngryError<()>,
>)
    ensures
        existing@.len() == 0 ==> step is Ok && step->Ok_0.0@ == (Command::Write {
            key: encode_utf8(PASTE_PREFIX@ + id@),
            value: body@,
        }) && step->Ok_0.1@ == base_url@ + PASTE_PATH@ + id@,
        existing@.len() != 0 ==> (step matches Err(AngryError::Other(message)) && message@
            == "WTF"@),
{
    match ensure_unused::<()>(existing) {
        Err(err) => Err(err),
        Ok(_) => {
            let command = set_command(prefixed_key(PASTE_PREFIX, id), body);
            Ok((command, entry_url(base_url, PASTE_PATH, id)))
        },
    }
}

/// The page that shows a paste to a browser: the template with the paste,
/// escaped, in place of the placeholder.
pub fn render_paste(template: &str, p: &str) -> (page: String)
    ensures
        page@ == replaced(template@, PLACEHOLDER@, escaped(p@)),
{
    let safe = encode_minimal(p);
    replace(template, PLACEHOLDER, safe.as_str())
}

/// What is answered for a paste `p` once it is known whether a browser asks
/// and what the rendered page would be.
pub open spec fn paste_reply(p: Seq<char>, browser: bool, page: Seq<char>) -> ReplyView {
    if p.len() == 0 {
        ReplyView::NotFound { reason: "Paste data not recorded"@ }
    } else if browser {
        ReplyView::Page { content_type: ContentType::Html, body: page }
    } else {
        ReplyView::Page { content_type: ContentType::Plain, body: p }
    }
}

/// The answer that carries a rendered page.
pub fn html_page(page: String) -> (reply: Reply)
    ensures
        reply@ == (ReplyView::Page { content_type: ContentType::Html, body: page@ }),
{
    Reply::Page { content_type: ContentType::Html, body: page }
}

/// The answer that carries a paste as it was stored.
pub fn plain_page(p: String) -> (reply: Reply)
    ensures
        reply@ == (ReplyView::Page { content_type: ContentType::Plain, body: p@ }),
{
    Reply::Page { content_type: ContentType::Plain, body: p }
}

/// Answers a request for a paste, given `p`, the text read under its
/// identifier, and whether a browser asks: 404 where nothing is stored, the
/// rendered page for a browser, the paste itself as plain text for anyone
/// else.
pub fn show_paste_to(p: String, browser: bool, template: &str) -> (reply: Reply)
    ensures
        reply@ == paste_reply(p@, browser, replaced(template@, PLACEHOLDER@, escaped(p@))),
{
    if p.as_str().is_empty() {
        Reply::NotFound { reason: String::from_str("Paste data not recorded") }
    } else if browser {
        html_page(render_paste(template, p.as_str()))
    } else {
        plain_page(p)
    }
}

/// Answers a request for a paste, given `p`, the text read under its
/// identifier, and the user agent `ua` of whoever asks.
pub fn show_paste(p: String, ua: &str, template: &str) -> (reply: Reply)
    ensures
        reply@ == paste_reply(
            p@,
            names_browser(lowercase(ua@)),
            replaced(template@, PLACEHOLDER@, escaped(p@)),
        ),
{
    if p.as_str().is_empty() {
        Reply::NotFound { reason: String::from_str("Paste data not recorded") }
    } else {
        let browser = ua_is_browser(ua);
        show_paste_to(p, browser, template)
    }
}

} // verus!
