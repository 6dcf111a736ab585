//! The typed accessors over a raw byte store, without the store. An accessor
//! is split at the point where it would block: a function that says which
//! command goes to the storage engine, and a function that reads what came
//! back. The engine itself is whatever executes a `DbCommand`; `Store` says
//! what this crate expects of it.

use crate::bridge::{flatten_blocking, flattened_blocking};
use crate::codec::{
    bytes_or_empty, decode_u64, decode_utf8_text, encode_u64, is_valid_up_to, le_bytes, le_u64,
    stored_bytes, text_reading, u64_reading,
};
use crate::db_sync::DbSyncCommand;
use crate::error::{AngryError, DecodeFault, PoolRejection, StorageFault};
use vstd::prelude::*;
use vstd::utf8::encode_utf8;

verus! {

/// A command for the storage engine.
#[derive(Debug)]
pub enum DbCommand {
    /// Read the value under `key`. Never creates an entry.
    Read { key: Vec<u8> },
    /// Write `value` under `key`, whether or not the key exists.
    Write { key: Vec<u8>, value: Vec<u8> },
}

/// A command as mathematics.
pub enum Command {
    Read { key: Seq<u8> },
    Write { key: Seq<u8>, value: Seq<u8> },
}

impl View for DbCommand {
    type V = Command;

    open spec fn view(&self) -> Command {
        match *self {
            DbCommand::Read { key } => Command::Read { key: key@ },
            DbCommand::Write { key, value } => Command::Write { key: key@, value: value@ },
        }
    }
}

/// What the worker pool and the storage engine hand back for one command: the
/// pool's rejection, or else the engine's fault, or else the value.
pub type Outcome<T> = Result<Result<T, StorageFault<()>>, PoolRejection>;

/// The store as mathematics: a flat map from keys to values.
pub type Store = Map<Seq<u8>, Seq<u8>>;

/// The value under `key`, if there is one.
pub open spec fn lookup(store: Store, key: Seq<u8>) -> Option<Seq<u8>> {
    if store.dom().contains(key) {
        Some(store[key])
    } else {
        None
    }
}

/// The store after the engine has executed `command`.
pub open spec fn after(store: Store, command: Command) -> Store {
    match command {
        Command::Read { key } => store,
        Command::Write { key, value } => store.insert(key, value),
    }
}

/// The command of `get`.
pub fn get_command(key: Vec<u8>) -> (command: DbCommand)
    ensures
        command@ == (Command::Read { key: key@ }),
{
    DbCommand::Read { key }
}

/// The command of `set`.
pub fn set_command(key: Vec<u8>, value: Vec<u8>) -> (command: DbCommand)
    ensures
        command@ == (Command::Write { key: key@, value: value@ }),
{
    DbCommand::Write { key, value }
}

/// The command of `set_u64`: a `set` of the eight little-endian bytes of
/// `value`.
pub fn set_u64_command(key: Vec<u8>, value: u64) -> (command: DbCommand)
    ensures
        command@ == (Command::Write { key: key@, value: le_bytes(value) }),
{
    let bytes = encode_u64(value);
    DbCommand::Write { key, value: bytes }
}

/// The result of `get`: what the worker pool and the engine handed back,
/// folded into one error channel.
pub fn get_result(outcome: Outcome<Option<Vec<u8>>>) -> (result: Result<
    Option<Vec<u8>>,
    AngryError<()>,
>)
    ensures
        result == flattened_blocking(outcome),
{
    flatten_blocking(outcome)
}

/// The result of `set`, folded in the same way.
pub fn set_result(outcome: Outcome<()>) -> (result: Result<(), AngryError<()>>)
    ensures
        result == flattened_blocking(outcome),
{
    flatten_blocking(outcome)
}

/// What the worker sends to the durability throttle once the engine has
/// answered a `set`: a notification after a write that succeeded, nothing
/// after one that failed. Sending it is best effort; whether it arrives does
/// not change the result of the `set`.
pub fn write_notification(answer: &Result<(), StorageFault<()>>) -> (notification: Option<
    DbSyncCommand,
>)
    ensures
        notification == if answer is Ok {
            Some(DbSyncCommand)
        } else {
            None::<DbSyncCommand>
        },
{
    match answer {
        Ok(_) => Some(DbSyncCommand),
        Err(_) => None,
    }
}

/// How a stored value reads through `get_u64`.
pub open spec fn u64_result(stored: Option<Seq<u8>>) -> Result<u64, AngryError<()>> {
    match u64_reading(stored) {
        Ok(value) => Ok(value),
        Err(fault) => Err(AngryError::DecodeFailure(fault)),
    }
}

/// The second half of `get_u64`: reads what `get` returned as an integer. An
/// absent key reads as zero; a value that is not exactly eight bytes long is a
/// `DecodeFailure`, whatever its length.
pub fn read_u64(stored: Option<Vec<u8>>) -> (result: Result<u64, AngryError<()>>)
    ensures
        result == u64_result(stored_bytes(stored)),
{
    match decode_u64(stored) {
        Ok(value) => Ok(value),
        Err(fault) => Err(AngryError::from(fault)),
    }
}

/// The second half of `get_utf8`: reads what `get` returned as text. An absent
/// key reads as the empty string; bytes that are not UTF-8 are a
/// `DecodeFailure`.
pub fn read_utf8(stored: Option<Vec<u8>>) -> (result: Result<String, AngryError<()>>)
    ensures
        match result {
            Ok(text) => text_reading(stored_bytes(stored)) == Some(text@),
            Err(err) => {
                &&& text_reading(stored_bytes(stored)) is None
                &&& err matches AngryError::DecodeFailure(DecodeFault::InvalidUtf8 { valid_up_to })
                &&& is_valid_up_to(bytes_or_empty(stored_bytes(stored)), valid_up_to as int)
            },
        },
{
    match decode_utf8_text(stored) {
        Ok(text) => Ok(text),
        Err(fault) => Err(AngryError::from(fault)),
    }
}

/// The result of `get_u64` for whatever the worker pool and the engine handed
/// back: their failures first, then the stored value read as an integer.
pub open spec fn get_u64_outcome(outcome: Outcome<Option<Vec<u8>>>) -> Result<u64, AngryError<()>> {
    match flattened_blocking(outcome) {
        Ok(stored) => u64_result(stored_bytes(stored)),
        Err(err) => Err(err),
    }
}

/// The result of `get_u64`.
pub fn get_u64_result(outcome: Outcome<Option<Vec<u8>>>) -> (result: Result<u64, AngryError<()>>)
    ensures
        result == get_u64_outcome(outcome),
{
    match get_result(outcome) {
        Ok(stored) => read_u64(stored),
        Err(err) => Err(err),
    }
}

/// The result of `get_utf8`: the failures of the worker pool and the engine
/// first, then the stored value read as text.
pub fn get_utf8_result(outcome: Outcome<Option<Vec<u8>>>) -> (result: Result<
    String,
    AngryError<()>,
>)
    ensures
        match flattened_blocking(outcome) {
            Err(err) => result == Err::<String, AngryError<()>>(err),
            Ok(stored) => match result {
                Ok(text) => text_reading(stored_bytes(stored)) == Some(text@),
                Err(err) => {
                    &&& text_reading(stored_bytes(stored)) is None
                    &&& err matches AngryError::DecodeFailure(
                        DecodeFault::InvalidUtf8 { valid_up_to },
                    )
                    &&& is_valid_up_to(bytes_or_empty(stored_bytes(stored)), valid_up_to as int)
                },
            },
        },
{
    match get_result(outcome) {
        Ok(stored) => read_utf8(stored),
        Err(err) => Err(err),
    }
}

/// A key that was never written reads as absent, as zero and as the empty
/// string.
pub proof fn lemma_unwritten_key(store: Store, key: Seq<u8>)
    requires
        !store.dom().contains(key),
    ensures
        lookup(store, key) == None::<Seq<u8>>,
        u64_result(lookup(store, key)) == Ok::<u64, AngryError<()>>(0u64),
        text_reading(lookup(store, key)) == Some(Seq::<char>::empty()),
{
    crate::codec::lemma_absent_reads_as_empty_text();
}

/// Reading a key does not create it.
pub proof fn lemma_get_creates_nothing(store: Store, key: Seq<u8>)
    ensures
        after(store, Command::Read { key }) == store,
{
}

/// What `set` wrote is what `get` reads, exactly.
pub proof fn lemma_set_then_get(store: Store, key: Seq<u8>, value: Seq<u8>)
    ensures
        lookup(after(store, Command::Write { key, value }), key) == Some(value),
{
}

/// An integer that `set_u64` wrote is the integer that `get_u64` reads.
pub proof fn lemma_set_u64_then_get_u64(store: Store, key: Seq<u8>, value: u64)
    ensures
        u64_result(lookup(after(store, Command::Write { key, value: le_bytes(value) }), key)) == Ok::<
            u64,
            AngryError<()>,
        >(value),
{
    crate::codec::lemma_encode_then_decode(value);
}

/// For any eight bytes `bytes`: writing the integer that they spell with
/// `set_u64` and reading it with `get_u64` gives that integer, and the store
/// holds the same eight bytes.
pub proof fn lemma_u64_round_trip(store: Store, key: Seq<u8>, bytes: Seq<u8>)
    requires
        bytes.len() == 8,
    ensures
        lookup(after(store, Command::Write { key, value: le_bytes(le_u64(bytes) as u64) }), key)
            == Some(bytes),
        u64_result(
            lookup(after(store, Command::Write { key, value: le_bytes(le_u64(bytes) as u64) }), key),
        ) == Ok::<u64, AngryError<()>>(le_u64(bytes) as u64),
{
    crate::codec::lemma_decode_then_encode(bytes);
}

/// Text whose UTF-8 bytes `set` wrote is the text that `get_utf8` reads.
pub proof fn lemma_set_then_get_utf8(store: Store, key: Seq<u8>, text: Seq<char>)
    ensures
        text_reading(lookup(after(store, Command::Write { key, value: encode_utf8(text) }), key))
            == Some(text),
{
    crate::codec::lemma_encoded_text_reads_back(text);
}

/// A stored value that is not exactly eight bytes long never reads as an
/// integer: `get_u64` answers with a `DecodeFailure` that names the length.
pub proof fn lemma_wrong_length_is_decode_failure(store: Store, key: Seq<u8>)
    requires
        store.dom().contains(key),
        store[key].len() != 8,
    ensures
        u64_result(lookup(store, key)) == Err::<u64, AngryError<()>>(
            AngryError::DecodeFailure(DecodeFault::BadLength { len: store[key].len() as usize }),
        ),
{
}

/// Two writes to distinct keys do not disturb each other: in whichever order
/// the engine executes them, the store ends up the same and each key reads back
/// its own value.
pub proof fn lemma_sets_on_distinct_keys(
    store: Store,
    key1: Seq<u8>,
    value1: Seq<u8>,
    key2: Seq<u8>,
    value2: Seq<u8>,
)
    requires
        key1 != key2,
    ensures
        after(
            after(store, Command::Write { key: key1, value: value1 }),
            Command::Write { key: key2, value: value2 },
        ) == after(
            after(store, Command::Write { key: key2, value: value2 }),
            Command::Write { key: key1, value: value1 },
        ),
        lookup(
            after(
                after(store, Command::Write { key: key1, value: value1 }),
                Command::Write { key: key2, value: value2 },
            ),
            key1,
        ) == Some(value1),
        lookup(
            after(
                after(store, Command::Write { key: key1, value: value1 }),
                Command::Write { key: key2, value: value2 },
            ),
            key2,
        ) == Some(value2),
{
    assert(store.insert(key1, value1).insert(key2, value2) =~= store.insert(key2, value2).insert(
        key1,
        value1,
    ));
}

} // verus!
