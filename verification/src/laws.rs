//! What holds of the handlers whatever the backend answers.

use vstd::prelude::*;
use crate::bytes::crlf;
use crate::cache::{clamped_ttl, expiry};
use crate::cache_backend::{
    lemma_value_round_trip, transport_value, BackendError, GetResponse,
};
use crate::config::MAX_LOCAL_TTL_SECONDS;
use crate::dispatch::{
    backend_calls, backend_ttl, fetched_values, first_failure, found_values, get_response,
    key_result, KeyResultView,
};
use crate::memcache::{error_line, response_bytes, value_frames, RequestView, ValueView};
use crate::words::{word_end, word_server_error};

verus! {

/// The number of `results` that the local cache answered.
pub open spec fn local_hits(results: Seq<KeyResultView>) -> nat
    decreases results.len(),
{
    if results.len() == 0 {
        0
    } else {
        local_hits(results.drop_last()) + if results.last() is Local {
            1nat
        } else {
            0nat
        }
    }
}

/// A `get` of k keys of which h were answered by the local cache takes
/// k - h calls to the backend and hands out k values at most.
pub proof fn lemma_get_counts(results: Seq<KeyResultView>)
    ensures
        local_hits(results) + backend_calls(results) == results.len(),
        found_values(results).len() <= results.len(),
        fetched_values(results).len() <= backend_calls(results),
    decreases results.len(),
{
    if results.len() > 0 {
        lemma_get_counts(results.drop_last());
    }
}

/// Every value that a `get` hands out was found for one of its keys, by the
/// local cache or by the backend, and the values come in the order of the
/// keys: the value at place `i` stems from a key that stands behind the key
/// of the value at place `i - 1`.
pub proof fn lemma_values_have_sources(results: Seq<KeyResultView>, i: int) -> (at: int)
    requires
        0 <= i < found_values(results).len(),
    ensures
        0 <= at < results.len(),
        results[at].found() == Some(found_values(results)[i]),
        results[at] is Local || results[at] is Hit,
        found_values(results.subrange(0, at)).len() == i,
    decreases results.len(),
{
    let front = results.drop_last();
    if results.last().found() is Some && i == found_values(front).len() {
        assert(results.subrange(0, results.len() - 1) =~= front);
        results.len() - 1
    } else {
        let at = lemma_values_have_sources(front, i);
        assert(results.subrange(0, at) =~= front.subrange(0, at));
        at
    }
}

/// The answer to a `get` is a server error where a lookup failed, and
/// otherwise the frames of the values that were found and one `END`.
pub proof fn lemma_get_reply_shape(keys: Seq<Seq<u8>>, results: Seq<KeyResultView>)
    ensures
        response_bytes(RequestView::Get { keys }, get_response(results)) == match first_failure(
            results,
        ) {
            Some(message) => error_line(word_server_error(), message),
            None => value_frames(found_values(results)) + word_end() + crlf(),
        },
{
    if first_failure(results) is None && found_values(results).len() == 0 {
        assert(value_frames(found_values(results)) + word_end() + crlf() =~= word_end()
            + crlf());
    }
}

/// What a `set` stored is what a `get` finds: the value that the backend
/// holds for a payload of one byte or more reads back as that payload, with
/// the flags of the `set` where flags are carried and with flags 0
/// otherwise.
pub proof fn lemma_set_then_get(
    carry_flags: bool,
    flags: u32,
    payload: Seq<u8>,
    key: Seq<u8>,
    stored: Vec<u8>,
)
    requires
        payload.len() >= 1,
        stored@ == transport_value(carry_flags, flags, payload),
    ensures
        key_result(
            Ok::<GetResponse, BackendError>(GetResponse::Hit { value: stored }),
            carry_flags,
            key,
        ) == KeyResultView::Hit(
            ValueView {
                key,
                flags: if carry_flags {
                    flags
                } else {
                    0u32
                },
                data: payload,
            },
        ),
{
    lemma_value_round_trip(carry_flags, flags, payload);
}

/// A time to live that the client names reaches the backend as one second
/// at least, and unchanged where it is one second or more.
pub proof fn lemma_ttl_floor(ttl: u32)
    ensures
        backend_ttl(Some(ttl)) matches Some(t) && t >= 1 && (ttl >= 1 ==> t == ttl),
        backend_ttl(None::<u32>) is None,
{
}

/// An entry of the local cache lives five years at most: whatever the time
/// to live that a cache was asked for, an entry stored at `now` expires no
/// later than five years after.
pub proof fn lemma_ttl_ceiling(now: u64, ttl: u64)
    ensures
        clamped_ttl(ttl) <= MAX_LOCAL_TTL_SECONDS,
        ttl <= MAX_LOCAL_TTL_SECONDS ==> clamped_ttl(ttl) == ttl,
        expiry(now, clamped_ttl(ttl)) - now <= MAX_LOCAL_TTL_SECONDS,
{
}

} // verus!
