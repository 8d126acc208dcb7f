//! The backend as the core sees it: three operations on byte strings, their
//! errors, and how a 32-bit flags field travels inside a value.

use vstd::prelude::*;
use crate::bytes::{
    copy_range, crlf, decimal_digits, decimal_u64, fields, find_crlf, first_crlf_from,
    has_prefix, parse_decimal, push_decimal, split_fields, starts_with, CR, LF, SP,
};
use crate::words::{
    lit_backend_timeout, lit_delete, lit_delete_failed, lit_deleted, lit_get, lit_get_failed,
    lit_internal_server_error, lit_not_found, lit_scheme, lit_set, lit_set_failed, lit_stored,
    lit_value, word_backend_timeout, word_delete, word_delete_failed, word_deleted, word_get,
    word_get_failed,
    word_internal_server_error, word_not_found, word_scheme, word_set, word_set_failed,
    word_stored, word_value,
};
use crate::MAX_REQUEST_SIZE;

verus! {

/// The milliseconds that a call to the backend may take.
pub const BACKEND_DEADLINE_MILLIS: u64 = 200;

/// What the backend answered to a `get`.
#[derive(Clone, Debug, PartialEq, Eq)]
pub enum GetResponse {
    Hit { value: Vec<u8> },
    Miss,
}

/// Why a call to the backend failed.
#[derive(Clone, Debug, PartialEq, Eq)]
pub enum BackendError {
    /// The deadline passed.
    Timeout,
    /// The transport failed.
    Io { message: Vec<u8> },
    /// The service reported an error.
    Remote { code: Vec<u8>, message: Vec<u8> },
    /// The backend was used in a way that it does not support.
    Config { message: Vec<u8> },
}

impl BackendError {
    /// The text that tells a client of this error.
    pub open spec fn text(&self) -> Seq<u8> {
        match self {
            BackendError::Timeout => word_backend_timeout(),
            BackendError::Io { message } => message@,
            BackendError::Remote { code, message } => message@,
            BackendError::Config { message } => message@,
        }
    }

    /// A later try may succeed: the deadline passed or the transport failed.
    pub open spec fn retriable(&self) -> bool {
        self is Timeout || self is Io
    }

    /// The text that tells a client of this error.
    pub fn message(&self) -> (text: Vec<u8>)
        ensures
            text@ == self.text(),
    {
        match self {
            BackendError::Timeout => lit_backend_timeout(),
            BackendError::Io { message } => crate::bytes::copy_range(
                message.as_slice(),
                0,
                message.len(),
            ),
            BackendError::Remote { code, message } => crate::bytes::copy_range(
                message.as_slice(),
                0,
                message.len(),
            ),
            BackendError::Config { message } => crate::bytes::copy_range(
                message.as_slice(),
                0,
                message.len(),
            ),
        }
    }

    /// Whether a later try may succeed.
    pub fn is_retriable(&self) -> (yes: bool)
        ensures
            yes == self.retriable(),
    {
        match self {
            BackendError::Timeout => true,
            BackendError::Io { .. } => true,
            _ => false,
        }
    }
}

/// A cache service behind the proxy. Each call is expected to return within
/// the deadline, with `BackendError::Timeout` where the service did not
/// answer in time.
pub trait CacheBackend {
    /// Looks `key` up in the cache `cache_name`.
    fn get(&self, cache_name: &str, key: &[u8]) -> Result<GetResponse, BackendError>;

    /// Stores `value` under `key`, to live `ttl` seconds where one is given.
    fn set(&self, cache_name: &str, key: Vec<u8>, value: Vec<u8>, ttl: Option<u64>) -> Result<
        (),
        BackendError,
    >;

    /// Removes `key`.
    fn delete(&self, cache_name: &str, key: Vec<u8>) -> Result<(), BackendError>;
}

/// The four bytes of `flags`, most significant first.
pub open spec fn flag_bytes(flags: u32) -> Seq<u8> {
    seq![
        (flags / 16777216) as u8,
        ((flags / 65536) % 256) as u8,
        ((flags / 256) % 256) as u8,
        (flags % 256) as u8,
    ]
}

/// The number that four bytes write, most significant first.
pub open spec fn flags_of(b: Seq<u8>) -> u32 {
    (b[0] * 16777216 + b[1] * 65536 + b[2] * 256 + b[3]) as u32
}

/// The value that the backend stores for a payload: with flags carried, the
/// four bytes of the flags and then the payload; the payload alone otherwise.
pub open spec fn transport_value(carry_flags: bool, flags: u32, payload: Seq<u8>) -> Seq<u8> {
    if carry_flags {
        flag_bytes(flags) + payload
    } else {
        payload
    }
}

/// The flags and the payload that a stored value holds. With flags carried
/// the value has the four bytes of the flags and one byte of payload at
/// least; a shorter one holds nothing. Without, the whole value is payload
/// and the flags are 0.
pub open spec fn stored_parts(carry_flags: bool, value: Seq<u8>) -> Option<(u32, Seq<u8>)> {
    if !carry_flags {
        Some((0u32, value))
    } else if value.len() < 5 {
        None
    } else {
        Some((flags_of(value.subrange(0, 4)), value.subrange(4, value.len() as int)))
    }
}

/// The value that the backend stores for a payload.
pub fn encode_value(carry_flags: bool, flags: u32, payload: &[u8]) -> (value: Vec<u8>)
    ensures
        value@ == transport_value(carry_flags, flags, payload@),
{
    let mut value: Vec<u8> = Vec::new();
    if carry_flags {
        value.push((flags / 16777216) as u8);
        value.push(((flags / 65536) % 256) as u8);
        value.push(((flags / 256) % 256) as u8);
        value.push((flags % 256) as u8);
        assert(value@ =~= flag_bytes(flags));
    }
    value.extend_from_slice(payload);
    assert(value@ =~= transport_value(carry_flags, flags, payload@));
    value
}

/// The flags and the payload that a stored value holds.
pub fn decode_value(carry_flags: bool, value: &[u8]) -> (parts: Option<(u32, Vec<u8>)>)
    ensures
        match (parts, stored_parts(carry_flags, value@)) {
            (Some(got), Some(want)) => got.0 == want.0 && got.1@ == want.1,
            (None, None) => true,
            _ => false,
        },
{
    if !carry_flags {
        let payload = crate::bytes::copy_range(value, 0, value.len());
        assert(payload@ =~= value@);
        Some((0, payload))
    } else if value.len() < 5 {
        None
    } else {
        let b0 = value[0] as u32;
        let b1 = value[1] as u32;
        let b2 = value[2] as u32;
        let b3 = value[3] as u32;
        let flags: u32 = b0 * 16777216 + b1 * 65536 + b2 * 256 + b3;
        let payload = crate::bytes::copy_range(value, 4, value.len());
        Some((flags, payload))
    }
}

/// Flags and payload come back as they were stored: for every payload of
/// one byte or more, and for an empty one where no flags are carried.
pub proof fn lemma_value_round_trip(carry_flags: bool, flags: u32, payload: Seq<u8>)
    requires
        payload.len() >= 1 || !carry_flags,
    ensures
        stored_parts(carry_flags, transport_value(carry_flags, flags, payload)) == Some(
            (
                if carry_flags {
                    flags
                } else {
                    0u32
                },
                payload,
            ),
        ),
{
    if carry_flags {
        let value = transport_value(carry_flags, flags, payload);
        assert(value.subrange(0, 4) =~= flag_bytes(flags));
        assert(value.subrange(4, value.len() as int) =~= payload);
        assert(flags_of(flag_bytes(flags)) == flags);
    }
}

/// The worker tasks of the backend that speaks to a memcached server.
pub const WORKER_COUNT: usize = 100;

/// The commands that may wait for one worker.
pub const WORKER_INBOX_DEPTH: usize = 100;

/// The milliseconds that a worker waits before it connects again.
pub const RECONNECT_BACKOFF_MILLIS: u64 = 100;

/// The worker that takes the next command: the workers take turns.
pub fn pick_worker(counter: usize, workers: usize) -> (index: usize)
    requires
        workers > 0,
    ensures
        index == counter % workers,
        index < workers,
{
    counter % workers
}

/// The address in `server`: what follows the scheme `memcache://`, or all of
/// it where it names no scheme.
pub open spec fn address_of(server: Seq<u8>) -> Seq<u8> {
    if has_prefix(server, word_scheme()) {
        server.subrange(word_scheme().len() as int, server.len() as int)
    } else {
        server
    }
}

/// The address of the first of `servers`, or `None` where there is none.
pub fn server_address(servers: &Vec<Vec<u8>>) -> (address: Option<Vec<u8>>)
    ensures
        match address {
            Some(a) => servers@.len() > 0 && a@ == address_of(servers@[0]@),
            None => servers@.len() == 0,
        },
{
    if servers.len() == 0 {
        return None;
    }
    let server = servers[0].as_slice();
    let scheme = lit_scheme();
    if starts_with(server, scheme.as_slice()) {
        Some(copy_range(server, scheme.len(), server.len()))
    } else {
        let whole = copy_range(server, 0, server.len());
        assert(whole@ =~= server@);
        Some(whole)
    }
}

/// The value that a `get` of the memcached backend hands out for `data`:
/// the flags, which that backend does not keep, as four zero bytes, and then
/// the data.
pub fn zero_flagged(data: &[u8]) -> (value: Vec<u8>)
    ensures
        value@ == transport_value(true, 0, data@),
{
    encode_value(true, 0, data)
}

/// The data of a value on its way to the memcached backend: the value
/// without its first four bytes, the flags; a value shorter than that whole.
pub open spec fn unflagged(value: Seq<u8>) -> Seq<u8> {
    if value.len() >= 4 {
        value.subrange(4, value.len() as int)
    } else {
        value
    }
}

/// The data of a value on its way to the memcached backend.
pub fn strip_flags(value: Vec<u8>) -> (data: Vec<u8>)
    ensures
        data@ == unflagged(value@),
{
    if value.len() >= 4 {
        copy_range(value.as_slice(), 4, value.len())
    } else {
        value
    }
}

/// The expiration that the memcached backend is given for a time to live:
/// its seconds, the largest 32-bit number at most; 0 for none.
pub open spec fn expiration_of(ttl: Option<u64>) -> u32 {
    match ttl {
        Some(t) => if t > u32::MAX {
            u32::MAX
        } else {
            t as u32
        },
        None => 0,
    }
}

/// The expiration that the memcached backend is given for a time to live.
pub fn expiration(ttl: Option<u64>) -> (exptime: u32)
    ensures
        exptime == expiration_of(ttl),
{
    match ttl {
        Some(t) => if t > u32::MAX as u64 {
            u32::MAX
        } else {
            t as u32
        },
        None => 0,
    }
}

/// What the memcached backend stores comes back with flags 0: a payload of
/// one byte or more that went through `strip_flags` on its way in and
/// through `zero_flagged` on its way out is read as that payload.
pub proof fn lemma_memcached_round_trip(flags: u32, payload: Seq<u8>)
    requires
        payload.len() >= 1,
    ensures
        stored_parts(
            true,
            transport_value(true, 0, unflagged(transport_value(true, flags, payload))),
        ) == Some((0u32, payload)),
{
    let sent = transport_value(true, flags, payload);
    assert(unflagged(sent) =~= payload);
    lemma_value_round_trip(true, 0, payload);
}

/// The command that asks a memcached server for `key`.
pub open spec fn get_command_bytes(key: Seq<u8>) -> Seq<u8> {
    word_get() + seq![SP] + key + crlf()
}

/// The command that stores `data` under `key` in a memcached server, with
/// flags 0.
pub open spec fn set_command_bytes(key: Seq<u8>, exptime: u32, data: Seq<u8>) -> Seq<u8> {
    word_set() + seq![SP] + key + seq![SP] + decimal_digits(0) + seq![SP] + decimal_digits(
        exptime as nat,
    ) + seq![SP] + decimal_digits(data.len()) + crlf() + data + crlf()
}

/// The command that removes `key` from a memcached server.
pub open spec fn delete_command_bytes(key: Seq<u8>) -> Seq<u8> {
    word_delete() + seq![SP] + key + crlf()
}

/// The command that asks a memcached server for `key`.
pub fn get_command(key: &[u8]) -> (command: Vec<u8>)
    ensures
        command@ == get_command_bytes(key@),
{
    let mut command = lit_get();
    command.push(SP);
    command.extend_from_slice(key);
    command.push(CR);
    command.push(LF);
    assert(command@ =~= get_command_bytes(key@));
    command
}

/// The command that stores `data` under `key` in a memcached server.
pub fn set_command(key: &[u8], exptime: u32, data: &[u8]) -> (command: Vec<u8>)
    ensures
        command@ == set_command_bytes(key@, exptime, data@),
{
    let mut command = lit_set();
    command.push(SP);
    command.extend_from_slice(key);
    command.push(SP);
    push_decimal(&mut command, 0);
    command.push(SP);
    push_decimal(&mut command, exptime as u64);
    command.push(SP);
    let ghost head = command@;
    assert(head =~= word_set() + seq![SP] + key@ + seq![SP] + decimal_digits(0) + seq![SP]
        + decimal_digits(exptime as nat) + seq![SP]);
    push_decimal(&mut command, data.len() as u64);
    command.push(CR);
    command.push(LF);
    command.extend_from_slice(data);
    command.push(CR);
    command.push(LF);
    assert(command@ =~= head + decimal_digits(data@.len()) + crlf() + data@ + crlf());
    assert(command@ =~= set_command_bytes(key@, exptime, data@));
    command
}

/// The command that removes `key` from a memcached server.
pub fn delete_command(key: &[u8]) -> (command: Vec<u8>)
    ensures
        command@ == delete_command_bytes(key@),
{
    let mut command = lit_delete();
    command.push(SP);
    command.extend_from_slice(key);
    command.push(CR);
    command.push(LF);
    assert(command@ =~= delete_command_bytes(key@));
    command
}

/// The text of a line: what stands before its terminator, or all of it
/// where it has none.
pub open spec fn line_text(line: Seq<u8>) -> Seq<u8> {
    line.subrange(0, first_crlf_from(line, 0))
}

/// The text of a line.
pub fn text_of_line(line: &[u8]) -> (text: Vec<u8>)
    ensures
        text@ == line_text(line@),
{
    match find_crlf(line, 0) {
        Some(eol) => copy_range(line, 0, eol),
        None => copy_range(line, 0, line.len()),
    }
}

/// The number of bytes of data that the first line of an answer to `get`
/// announces. A line `VALUE <key> <flags> <length>` announces that length;
/// where the length is no numeral, or more than a request may hold, the
/// answer cannot be read, and the message says so with the text of the
/// line. Any other line announces nothing: the key was not found.
pub open spec fn announced_length(line: Seq<u8>) -> Result<Option<nat>, Seq<u8>> {
    let f = fields(line_text(line));
    if f.len() >= 4 && f[0] == word_value() {
        match decimal_u64(f[3]) {
            Some(n) => if n <= MAX_REQUEST_SIZE {
                Ok(Some(n as nat))
            } else {
                Err(word_get_failed() + line_text(line))
            },
            None => Err(word_get_failed() + line_text(line)),
        }
    } else {
        Ok(None)
    }
}

/// The error of a `get` whose answer cannot be read.
fn unreadable(text: Vec<u8>) -> (e: BackendError)
    ensures
        e matches BackendError::Remote { code, message } && code@
            == word_internal_server_error() && message@ == word_get_failed() + text@,
{
    let mut message = lit_get_failed();
    message.extend_from_slice(text.as_slice());
    BackendError::Remote { code: lit_internal_server_error(), message }
}

/// The number of bytes of data that the first line of an answer to `get`
/// announces, or the error of an answer that cannot be read.
pub fn value_length(line: &[u8]) -> (length: Result<Option<usize>, BackendError>)
    ensures
        match length {
            Ok(Some(n)) => announced_length(line@) == Ok::<Option<nat>, Seq<u8>>(Some(n as nat)),
            Ok(None) => announced_length(line@) == Ok::<Option<nat>, Seq<u8>>(None),
            Err(e) => e matches BackendError::Remote { code, message } && code@
                == word_internal_server_error() && announced_length(line@) == Err::<
                Option<nat>,
                Seq<u8>,
            >(message@),
        },
{
    let text = text_of_line(line);
    let f = split_fields(text.as_slice());
    if f.len() >= 4 && crate::bytes::bytes_eq(f[0].as_slice(), lit_value().as_slice()) {
        match parse_decimal(f[3].as_slice()) {
            Some(n) => if n <= MAX_REQUEST_SIZE as u64 {
                Ok(Some(n as usize))
            } else {
                Err(unreadable(text))
            },
            None => Err(unreadable(text)),
        }
    } else {
        Ok(None)
    }
}

/// Whether the answer of a memcached server to a `set` says that the value
/// was stored.
pub fn set_succeeded(line: &[u8]) -> (ok: bool)
    ensures
        ok == has_prefix(line@, word_stored()),
{
    starts_with(line, lit_stored().as_slice())
}

/// Whether the answer of a memcached server to a `delete` says that the key
/// is gone: it was deleted, or it was not there.
pub fn delete_succeeded(line: &[u8]) -> (ok: bool)
    ensures
        ok == (has_prefix(line@, word_deleted()) || has_prefix(line@, word_not_found())),
{
    starts_with(line, lit_deleted().as_slice()) || starts_with(line, lit_not_found().as_slice())
}

/// The outcome of a `set` that a memcached server answered with `line`.
pub fn set_reply(line: &[u8]) -> (outcome: Result<(), BackendError>)
    ensures
        outcome is Ok <==> has_prefix(line@, word_stored()),
        outcome matches Err(e) ==> e matches BackendError::Remote { code, message } && code@
            == word_internal_server_error() && message@ == word_set_failed() + line_text(line@),
{
    if set_succeeded(line) {
        Ok(())
    } else {
        let mut message = lit_set_failed();
        let text = text_of_line(line);
        message.extend_from_slice(text.as_slice());
        Err(BackendError::Remote { code: lit_internal_server_error(), message })
    }
}

/// The outcome of a `delete` that a memcached server answered with `line`.
pub fn delete_reply(line: &[u8]) -> (outcome: Result<(), BackendError>)
    ensures
        outcome is Ok <==> (has_prefix(line@, word_deleted()) || has_prefix(
            line@,
            word_not_found(),
        )),
        outcome matches Err(e) ==> e matches BackendError::Remote { code, message } && code@
            == word_internal_server_error() && message@ == word_delete_failed() + line_text(
            line@,
        ),
{
    if delete_succeeded(line) {
        Ok(())
    } else {
        let mut message = lit_delete_failed();
        let text = text_of_line(line);
        message.extend_from_slice(text.as_slice());
        Err(BackendError::Remote { code: lit_internal_server_error(), message })
    }
}

} // verus!
