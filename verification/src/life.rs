//! The counter: one integer under one key, shown, incremented or set.

use crate::codec::le_bytes;
use crate::db::{get_command, set_u64_command, Command, DbCommand};
use crate::http::{decimal, decimal_string};
use vstd::prelude::*;
use vstd::string::StrSliceExecFns;
use vstd::utf8::encode_utf8;

verus! {

/// The key of the counter.
pub const LIFE_KEY: &'static str = "life_secs";

/// The key of the counter, as the store takes it.
pub fn life_key() -> (key: Vec<u8>)
    ensures
        key@ == encode_utf8(LIFE_KEY@),
{
    LIFE_KEY.as_bytes_vec()
}

/// The command that reads the counter. Its answer is read as an integer.
pub fn life_query() -> (command: DbCommand)
    ensures
        command@ == (Command::Read { key: encode_utf8(LIFE_KEY@) }),
{
    get_command(life_key())
}

/// Shows the counter: the page's body is the counter in decimal.
pub fn life_show(a: u64) -> (body: String)
    ensures
        body@ == decimal(a as nat),
{
    decimal_string(a)
}

/// Adds one to the counter `a`: the command that stores the new count, and
/// the page's body, which is the new count in decimal. The counter does not
/// wrap: at the largest integer there is nothing to store.
pub fn life_add(a: u64) -> (step: Option<(DbCommand, String)>)
    ensures
        a == u64::MAX ==> step is None,
        a < u64::MAX ==> step is Some && step->Some_0.0@ == (Command::Write {
            key: encode_utf8(LIFE_KEY@),
            value: le_bytes((a + 1) as u64),
        }) && step->Some_0.1@ == decimal((a + 1) as nat),
{
    if a == u64::MAX {
        return None;
    }
    let new_a: u64 = a + 1;
    Some((set_u64_command(life_key(), new_a), decimal_string(new_a)))
}

/// Sets the counter to `life`: the command that stores it.
pub fn life_set(life: u64) -> (command: DbCommand)
    ensures
        command@ == (Command::Write { key: encode_utf8(LIFE_KEY@), value: le_bytes(life) }),
{
    set_u64_command(life_key(), life)
}

} // verus!
