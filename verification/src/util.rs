//! Small helpers of the request handlers: random identifiers, the base URL of
//! a connection, and the test for a browser's user agent.

use crate::error::AngryError;
use rand::rngs::ThreadRng;
use rand::Rng;
use vstd::prelude::*;
use vstd::string::{StrSliceExecFns, StringExecFns};
use vstd::utf8::encode_utf8;

verus! {

/// The characters that a random identifier is made of.
pub const DICTIONARY: &'static str =
    "abcdefghijklmnopqrstuvwxyzABCDEFGHIJKLMNOPQRSTUVWXYZ1234567890";

/// The number of characters in `DICTIONARY`.
pub const DICTIONARY_LEN: usize = 62;

/// `rand::rngs::ThreadRng`, the handle on the thread's random number generator.
#[verifier::external_type_specification]
#[verifier::external_body]
pub struct ExThreadRng(ThreadRng);

/// `rand::thread_rng`: the calling thread's generator, seeded by the system.
/// Nothing is known of what it will yield. The outside function panics where
/// the system has no entropy to seed it with; no argument decides that.
#[verifier::external_body]
fn thread_rng() -> ThreadRng {
    rand::thread_rng()
}

/// `rand::Rng::gen_range` with a lower bound of zero: some index below `high`.
/// Which one is left open. The outside function panics on an empty range,
/// which `requires` leaves out.
#[verifier::external_body]
fn gen_index(rng: &mut ThreadRng, high: usize) -> (index: usize)
    requires
        0 < high,
    ensures
        index < high,
{
    rng.gen_range(0, high)
}

/// The dictionary's character at `index`, as a string of that one character;
/// nothing where the dictionary ends.
pub fn dictionary_letter(index: usize) -> (letter: Option<&'static str>)
    ensures
        DICTIONARY@.len() == DICTIONARY_LEN,
        index < DICTIONARY_LEN ==> letter is Some && letter->Some_0@ == seq![
            DICTIONARY@[index as int],
        ],
        index >= DICTIONARY_LEN ==> letter is None,
{
    proof {
        reveal_strlit("abcdefghijklmnopqrstuvwxyzABCDEFGHIJKLMNOPQRSTUVWXYZ1234567890");
    }
    if index < DICTIONARY_LEN {
        let letter = DICTIONARY.substring_ascii(index, index + 1);
        assert(letter@ =~= seq![DICTIONARY@[index as int]]);
        Some(letter)
    } else {
        None
    }
}

/// A random string of `len` characters, each drawn from `DICTIONARY`.
pub fn rand_str(len: usize) -> (s: String)
    ensures
        s@.len() == len,
        forall|i: int| 0 <= i < len ==> DICTIONARY@.contains(#[trigger] s@[i]),
{
    let mut rng = thread_rng();
    let mut ret = String::new();
    let mut n: usize = 0;
    while n < len
        invariant
            n <= len,
            ret@.len() == n,
            forall|i: int| 0 <= i < n ==> DICTIONARY@.contains(#[trigger] ret@[i]),
        decreases len - n,
    {
        let index = gen_index(&mut rng, DICTIONARY_LEN);
        match dictionary_letter(index) {
            Some(letter) => {
                let ghost before = ret@;
                ret.append(letter);
                assert(ret@[n as int] == DICTIONARY@[index as int]);
                assert forall|i: int| 0 <= i < n + 1 implies DICTIONARY@.contains(
                    #[trigger] ret@[i],
                ) by {
                    if i < n {
                        assert(ret@[i] == before[i]);
                    }
                }
                n = n + 1;
            },
            None => {
                assert(false);
            },
        }
    }
    ret
}

/// The base URL of a connection: its scheme, then `://`, then its host.
pub fn conn_scheme_host_port(scheme: &str, host: &str) -> (base: String)
    ensures
        base@ == scheme@ + "://"@ + host@,
{
    let mut base = String::from_str(scheme);
    base.append("://");
    base.append(host);
    base
}

/// The key under which a feature stores the entry `id`: the feature's prefix,
/// then the identifier, as bytes.
pub fn prefixed_key(prefix: &str, id: &str) -> (key: Vec<u8>)
    ensures
        key@ == encode_utf8(prefix@ + id@),
{
    let mut name = String::from_str(prefix);
    name.append(id);
    name.as_str().as_bytes_vec()
}

/// The address under which an entry is served: the base URL, then the
/// feature's path, then the identifier.
pub fn entry_url(base_url: &str, path: &str, id: &str) -> (url: String)
    ensures
        url@ == base_url@ + path@ + id@,
{
    let mut url = String::from_str(base_url);
    url.append(path);
    url.append(id);
    url
}

/// The rule for a freshly drawn identifier: it may be used only if nothing is
/// stored under it yet, that is if `existing`, the text read under its key, is
/// empty. An identifier that is taken is refused with `Other("WTF")`; no
/// second draw is made.
pub fn ensure_unused<E>(existing: &str) -> (verdict: Result<(), AngryError<E>>)
    ensures
        existing@.len() == 0 ==> verdict is Ok,
        existing@.len() != 0 ==> (verdict matches Err(AngryError::Other(message)) && message@
            == "WTF"@),
{
    if existing.is_empty() {
        Ok(())
    } else {
        Err(AngryError::Other(String::from_str("WTF")))
    }
}

/// What `str::to_lowercase` returns for a text: its lowercase equivalent as
/// Unicode defines it. It depends on the text alone.
pub uninterp spec fn lowercase(text: Seq<char>) -> Seq<char>;

/// `str::to_lowercase`.
#[verifier::external_body]
fn to_lowercase(text: &str) -> (lowered: String)
    ensures
        lowered@ == lowercase(text@),
{
    text.to_lowercase()
}

/// `needle` stands somewhere in `text`, character for character.
pub open spec fn occurs_in(needle: Seq<char>, text: Seq<char>) -> bool {
    exists|at: int|
        0 <= at && at + needle.len() <= text.len() && #[trigger] text.subrange(
            at,
            at + needle.len(),
        ) == needle
}

/// `str::contains` with a string as the pattern: whether `needle` is a
/// substring of `text`.
#[verifier::external_body]
fn contains(text: &str, needle: &str) -> (found: bool)
    ensures
        found == occurs_in(needle@, text@),
{
    text.contains(needle)
}

/// A lowercase user agent names one of the browsers that get rendered pages.
pub open spec fn names_browser(lowered: Seq<char>) -> bool {
    ||| occurs_in("chrome"@, lowered)
    ||| occurs_in("msie"@, lowered)
    ||| occurs_in("trident"@, lowered)
    ||| occurs_in("firefox"@, lowered)
    ||| occurs_in("safari"@, lowered)
}

/// Whether a user agent that is already in lowercase is a browser's.
pub fn lowered_is_browser(lowered: &str) -> (browser: bool)
    ensures
        browser == names_browser(lowered@),
{
    contains(lowered, "chrome") || contains(lowered, "msie") || contains(lowered, "trident")
        || contains(lowered, "firefox") || contains(lowered, "safari")
}

/// Whether the user agent is considered a browser: whether its lowercase form
/// names one of `chrome`, `msie`, `trident`, `firefox`, `safari`.
pub fn ua_is_browser(ua: &str) -> (browser: bool)
    ensures
        browser == names_browser(lowercase(ua@)),
{
    let lowered = to_lowercase(ua);
    lowered_is_browser(lowered.as_str())
}

} // verus!
