//! The handlers of the memcache commands: what is looked up where, what is
//! sent to the backend, and which response each outcome makes.

use vstd::prelude::*;
use crate::bytes::{copy_range, views};
use crate::binary::Envelope;
use crate::cache::{CacheEntry, CacheValue, LocalCache};
use crate::frontend::PipelineSlot;
use crate::cache_backend::{
    decode_value, encode_value, stored_parts, transport_value, BackendError, CacheBackend,
    GetResponse,
};
use crate::memcache::{
    value_views, DeleteRequest, GetRequest, Request, RequestView, Response, ResponseView,
    SetRequest, Value, ValueView,
};
use crate::metrics::{
    with_wrapped_error_response_rpc_call_guard, MemcachedMetrics, Outcome, Rpc, RpcCallGuard,
};
use crate::words::{lit_empty_value, lit_internal_error, word_empty_value, word_internal_error};

verus! {

/// How the lookup of one key of a `get` ended.
#[derive(Clone, Debug, PartialEq, Eq)]
pub enum KeyResult {
    /// The local cache had the key.
    Local(Value),
    /// The backend had the key.
    Hit(Value),
    /// The backend did not have the key, or what it had holds no payload.
    Miss,
    /// The backend did not answer in time: the key counts as not found.
    Timeout,
    /// The backend failed, with this message.
    Failed(Vec<u8>),
}

/// What a `KeyResult` holds.
pub enum KeyResultView {
    Local(ValueView),
    Hit(ValueView),
    Miss,
    Timeout,
    Failed(Seq<u8>),
}

impl View for KeyResult {
    type V = KeyResultView;

    open spec fn view(&self) -> KeyResultView {
        match self {
            KeyResult::Local(v) => KeyResultView::Local(v@),
            KeyResult::Hit(v) => KeyResultView::Hit(v@),
            KeyResult::Miss => KeyResultView::Miss,
            KeyResult::Timeout => KeyResultView::Timeout,
            KeyResult::Failed(message) => KeyResultView::Failed(message@),
        }
    }
}

impl KeyResultView {
    /// The value that was found, if one was.
    pub open spec fn found(self) -> Option<ValueView> {
        match self {
            KeyResultView::Local(v) => Some(v),
            KeyResultView::Hit(v) => Some(v),
            _ => None,
        }
    }

    /// The latency series under which this result is filed, if under any.
    pub open spec fn outcome(self) -> Option<Outcome> {
        match self {
            KeyResultView::Local(_) => Some(Outcome::HitLocal),
            KeyResultView::Hit(_) => Some(Outcome::HitRemote),
            KeyResultView::Miss => Some(Outcome::Miss),
            KeyResultView::Timeout => Some(Outcome::Timeout),
            KeyResultView::Failed(_) => None,
        }
    }

    /// The result is one that the lookup of `key` can have: a value that
    /// was found is a value for that key.
    pub open spec fn answers(self, key: Seq<u8>) -> bool {
        self.found() matches Some(v) ==> v.key == key
    }
}

/// What the results of a list of keys hold.
pub open spec fn result_views(results: Seq<KeyResult>) -> Seq<KeyResultView> {
    results.map_values(|r: KeyResult| r@)
}

/// What the answer of the backend to the lookup of `key` means. A hit is
/// split into flags and payload; one that holds no payload is a miss. A
/// timeout is told apart from the other errors.
pub open spec fn key_result(
    reply: Result<GetResponse, BackendError>,
    carry_flags: bool,
    key: Seq<u8>,
) -> KeyResultView {
    match reply {
        Ok(GetResponse::Hit { value }) => match stored_parts(carry_flags, value@) {
            Some((flags, data)) => KeyResultView::Hit(ValueView { key, flags, data }),
            None => KeyResultView::Miss,
        },
        Ok(GetResponse::Miss) => KeyResultView::Miss,
        Err(BackendError::Timeout) => KeyResultView::Timeout,
        Err(e) => KeyResultView::Failed(e.text()),
    }
}

/// The result is one that the lookup of `key` can end with: a value that
/// was found is a value for that key, and a result that the local cache did
/// not give is what some answer of the backend means.
pub open spec fn looked_up(result: KeyResultView, carry_flags: bool, key: Seq<u8>) -> bool {
    &&& result.answers(key)
    &&& (result is Local || exists|reply: Result<GetResponse, BackendError>|
        result == #[trigger] key_result(reply, carry_flags, key))
}

/// What the answer of the backend to the lookup of `key` means.
pub fn interpret_get(reply: &Result<GetResponse, BackendError>, carry_flags: bool, key: &[u8]) -> (result:
    KeyResult)
    ensures
        result@ == key_result(*reply, carry_flags, key@),
        result@.answers(key@),
        !(result is Local),
{
    match reply {
        Ok(GetResponse::Hit { value }) => match decode_value(carry_flags, value.as_slice()) {
            Some((flags, data)) => {
                let owned = copy_range(key, 0, key.len());
                assert(owned@ =~= key@);
                KeyResult::Hit(Value { key: owned, flags, data })
            },
            None => KeyResult::Miss,
        },
        Ok(GetResponse::Miss) => KeyResult::Miss,
        Err(BackendError::Timeout) => KeyResult::Timeout,
        Err(e) => KeyResult::Failed(e.message()),
    }
}

/// The message of the first of `results` that failed.
pub open spec fn first_failure(results: Seq<KeyResultView>) -> Option<Seq<u8>>
    decreases results.len(),
{
    if results.len() == 0 {
        None
    } else {
        match first_failure(results.drop_last()) {
            Some(message) => Some(message),
            None => match results.last() {
                KeyResultView::Failed(message) => Some(message),
                _ => None,
            },
        }
    }
}

/// The values that were found, in the order of `results`.
pub open spec fn found_values(results: Seq<KeyResultView>) -> Seq<ValueView>
    decreases results.len(),
{
    if results.len() == 0 {
        Seq::<ValueView>::empty()
    } else {
        match results.last().found() {
            Some(v) => found_values(results.drop_last()).push(v),
            None => found_values(results.drop_last()),
        }
    }
}

/// The values that the backend found, in the order of `results`: those
/// that the local cache has yet to learn of.
pub open spec fn fetched_values(results: Seq<KeyResultView>) -> Seq<ValueView>
    decreases results.len(),
{
    if results.len() == 0 {
        Seq::<ValueView>::empty()
    } else {
        match results.last() {
            KeyResultView::Hit(v) => fetched_values(results.drop_last()).push(v),
            _ => fetched_values(results.drop_last()),
        }
    }
}

/// What the results file, in their order.
pub open spec fn filed(results: Seq<KeyResultView>) -> Seq<Outcome>
    decreases results.len(),
{
    if results.len() == 0 {
        Seq::<Outcome>::empty()
    } else {
        match results.last().outcome() {
            Some(o) => filed(results.drop_last()).push(o),
            None => filed(results.drop_last()),
        }
    }
}

/// The number of `results` that took a call to the backend.
pub open spec fn backend_calls(results: Seq<KeyResultView>) -> nat
    decreases results.len(),
{
    if results.len() == 0 {
        0
    } else {
        backend_calls(results.drop_last()) + if results.last() is Local {
            0nat
        } else {
            1nat
        }
    }
}

/// The response of a `get` whose keys ended as `results`: a server error
/// with the message of the first failure, where a lookup failed; else the
/// values that were found, in the order of the keys; else that nothing was
/// found.
pub open spec fn get_response(results: Seq<KeyResultView>) -> ResponseView {
    match first_failure(results) {
        Some(message) => ResponseView::ServerError(message),
        None => if found_values(results).len() > 0 {
            ResponseView::Values(found_values(results))
        } else {
            ResponseView::NotFound { noreply: false }
        },
    }
}

/// A copy of `v`.
pub fn clone_value(v: &Value) -> (copy: Value)
    ensures
        copy@ == v@,
{
    let key = copy_range(v.key.as_slice(), 0, v.key.len());
    let data = copy_range(v.data.as_slice(), 0, v.data.len());
    assert(key@ =~= v.key@);
    assert(data@ =~= v.data@);
    Value { key, flags: v.flags, data }
}

/// What a `get` leaves to do once every key has its result.
#[derive(Clone, Debug, PartialEq, Eq)]
pub struct GetDone {
    /// The response to the client.
    pub response: Response,
    /// The values to store in the local cache.
    pub backfill: Vec<Value>,
}

/// Makes the response of a `get` from the results of its keys, names the
/// values that the local cache is to learn, and files each result with
/// `recorder`.
pub fn finish_get(results: &Vec<KeyResult>, recorder: &mut RpcCallGuard) -> (done: GetDone)
    ensures
        done.response@ == get_response(result_views(results@)),
        value_views(done.backfill@) == if first_failure(result_views(results@)) is Some {
            Seq::<ValueView>::empty()
        } else {
            fetched_values(result_views(results@))
        },
        final(recorder).observed() == old(recorder).observed() + filed(result_views(results@)),
        final(recorder).recorded() == (old(recorder).recorded() || filed(
            result_views(results@),
        ).len() > 0),
        final(recorder).rpc() == old(recorder).rpc(),
{
    let ghost all = result_views(results@);
    let mut values: Vec<Value> = Vec::new();
    let mut backfill: Vec<Value> = Vec::new();
    let mut failure: Option<Vec<u8>> = None;
    let mut i: usize = 0;
    assert(old(recorder).observed() + filed(all.subrange(0, 0)) =~= old(recorder).observed());
    while i < results.len()
        invariant
            i <= results@.len(),
            all == result_views(results@),
            value_views(values@) == found_values(all.subrange(0, i as int)),
            value_views(backfill@) == fetched_values(all.subrange(0, i as int)),
            match (failure, first_failure(all.subrange(0, i as int))) {
                (Some(got), Some(want)) => got@ == want,
                (None, None) => true,
                _ => false,
            },
            recorder.observed() == old(recorder).observed() + filed(all.subrange(0, i as int)),
            recorder.recorded() == (old(recorder).recorded() || filed(
                all.subrange(0, i as int),
            ).len() > 0),
            recorder.rpc() == old(recorder).rpc(),
        decreases results@.len() - i,
    {
        let ghost front = all.subrange(0, i as int);
        let ghost next = all.subrange(0, i + 1);
        proof {
            assert(next.drop_last() =~= front);
            assert(next.last() == results@[i as int]@);
        }
        let ghost values_before = values@;
        let ghost backfill_before = backfill@;
        match &results[i] {
            KeyResult::Local(v) => {
                values.push(clone_value(v));
                recorder.complete_hit_mcache();
                assert(value_views(values@) =~= value_views(values_before).push(v@));
            },
            KeyResult::Hit(v) => {
                values.push(clone_value(v));
                backfill.push(clone_value(v));
                recorder.complete_hit_momento();
                assert(value_views(values@) =~= value_views(values_before).push(v@));
                assert(value_views(backfill@) =~= value_views(backfill_before).push(v@));
            },
            KeyResult::Miss => {
                recorder.complete_miss();
            },
            KeyResult::Timeout => {
                recorder.complete_timeout();
            },
            KeyResult::Failed(message) => {
                if failure.is_none() {
                    failure = Some(copy_range(message.as_slice(), 0, message.len()));
                    assert(failure.unwrap()@ =~= message@);
                }
            },
        }
        proof {
            assert(recorder.observed() =~= old(recorder).observed() + filed(next));
        }
        i += 1;
    }
    assert(all.subrange(0, i as int) =~= all);
    match failure {
        Some(message) => GetDone { response: Response::ServerError(message), backfill: Vec::new() },
        None => {
            if values.len() > 0 {
                GetDone { response: Response::Values(values), backfill }
            } else {
                GetDone { response: Response::NotFound { noreply: false }, backfill }
            }
        },
    }
}

/// The value of an entry that the local cache had.
pub open spec fn local_value(found: Option<CacheEntry>) -> Option<Value> {
    match found {
        Some(entry) => match entry.value {
            CacheValue::Memcached { value } => Some(value),
        },
        None => None,
    }
}

/// The keys of `keys` that are asked of the backend, in their order: those
/// for which the local cache had nothing, which holds of every key that it
/// was not asked for.
pub open spec fn to_fetch(keys: Seq<Vec<u8>>, found: Seq<Option<CacheEntry>>) -> Seq<Seq<u8>>
    decreases keys.len(),
{
    if keys.len() == 0 {
        Seq::<Seq<u8>>::empty()
    } else {
        let front = to_fetch(keys.drop_last(), found);
        if keys.len() - 1 < found.len() && found[keys.len() - 1] is Some {
            front
        } else {
            front.push(keys.last()@)
        }
    }
}

/// What a `get` goes on with once the local cache was asked for its keys.
#[derive(Clone, Debug, PartialEq, Eq)]
pub struct GetPlan {
    /// For each key, the value that the local cache had.
    pub local: Vec<Option<Value>>,
    /// The keys to ask of the backend, in the order of the keys.
    pub fetch: Vec<Vec<u8>>,
}

/// Splits the keys of a `get` by what the local cache had for them: `found`
/// holds its answer for each key, in the order of the keys.
pub fn begin_get(keys: &Vec<Vec<u8>>, found: Vec<Option<CacheEntry>>) -> (plan: GetPlan)
    ensures
        plan.local@.len() == keys@.len(),
        forall|i: int|
            0 <= i < keys@.len() ==> #[trigger] plan.local@[i] == if i < found@.len() {
                local_value(found@[i])
            } else {
                None
            },
        views(plan.fetch@) == to_fetch(keys@, found@),
{
    let mut found = found;
    let ghost all = found@;
    let mut local: Vec<Option<Value>> = Vec::new();
    let mut fetch: Vec<Vec<u8>> = Vec::new();
    let mut i: usize = 0;
    assert(keys@.subrange(0, 0) =~= Seq::<Vec<u8>>::empty());
    assert(views(fetch@) =~= Seq::<Seq<u8>>::empty());
    while i < keys.len()
        invariant
            i <= keys@.len(),
            found@.len() == all.len(),
            forall|k: int| i <= k < all.len() ==> found@[k] == all[k],
            local@.len() == i,
            forall|k: int|
                0 <= k < i ==> #[trigger] local@[k] == if k < all.len() {
                    local_value(all[k])
                } else {
                    None
                },
            views(fetch@) == to_fetch(keys@.subrange(0, i as int), all),
        decreases keys@.len() - i,
    {
        let ghost before = fetch@;
        let mut taken: Option<CacheEntry> = None;
        if i < found.len() {
            std::mem::swap(&mut found[i], &mut taken);
        }
        proof {
            let next = keys@.subrange(0, i + 1);
            assert(next.drop_last() =~= keys@.subrange(0, i as int));
            assert(next.last() == keys@[i as int]);
        }
        match taken {
            Some(entry) => {
                match entry.into_value() {
                    CacheValue::Memcached { value } => {
                        local.push(Some(value));
                    },
                }
            },
            None => {
                local.push(None);
                let key = copy_range(keys[i].as_slice(), 0, keys[i].len());
                assert(key@ =~= keys@[i as int]@);
                fetch.push(key);
                assert(views(fetch@) =~= views(before).push(keys@[i as int]@));
            },
        }
        i += 1;
    }
    assert(keys@.subrange(0, i as int) =~= keys@);
    GetPlan { local, fetch }
}

/// The results of the keys of a `get`, from what the local cache had for
/// each key and what the backend answered for the others: a key that the
/// local cache had is a local hit; each other key takes the next of the
/// answers of the backend, and counts as not found once those have run out.
pub open spec fn merged(local: Seq<Option<Value>>, fetched: Seq<KeyResult>) -> Seq<KeyResultView>
    decreases local.len(),
{
    if local.len() == 0 {
        Seq::<KeyResultView>::empty()
    } else {
        match local[0] {
            Some(v) => seq![KeyResultView::Local(v@)] + merged(local.skip(1), fetched),
            None => if fetched.len() > 0 {
                seq![fetched[0]@] + merged(local.skip(1), fetched.skip(1))
            } else {
                seq![KeyResultView::Miss] + merged(local.skip(1), fetched)
            },
        }
    }
}

/// Puts the answers of the backend into the places of the keys that the
/// local cache did not have.
pub fn merge_results(local: Vec<Option<Value>>, fetched: Vec<KeyResult>) -> (results: Vec<KeyResult>)
    ensures
        result_views(results@) == merged(local@, fetched@),
        results@.len() == local@.len(),
{
    let mut results: Vec<KeyResult> = Vec::new();
    let mut local = local;
    let mut fetched = fetched;
    let ghost all_local = local@;
    let ghost all_fetched = fetched@;
    let mut i: usize = 0;
    let mut j: usize = 0;
    let n = local.len();
    assert(local@.skip(0) =~= local@);
    assert(fetched@.skip(0) =~= fetched@);
    assert(result_views(results@) + merged(all_local, all_fetched) =~= merged(
        all_local,
        all_fetched,
    ));
    while i < n
        invariant
            n == all_local.len(),
            i <= n,
            j <= all_fetched.len(),
            results@.len() == i,
            local@.len() == n,
            fetched@.len() == all_fetched.len(),
            forall|k: int| i <= k < n ==> local@[k] == all_local[k],
            forall|k: int| j <= k < all_fetched.len() ==> fetched@[k] == all_fetched[k],
            merged(all_local, all_fetched) == result_views(results@) + merged(
                all_local.skip(i as int),
                all_fetched.skip(j as int),
            ),
        decreases n - i,
    {
        let ghost before = results@;
        let ghost rest_local = all_local.skip(i as int);
        let ghost rest_fetched = all_fetched.skip(j as int);
        proof {
            assert(rest_local[0] == all_local[i as int]);
            assert(rest_local.skip(1) =~= all_local.skip(i + 1));
            if j < all_fetched.len() {
                assert(rest_fetched[0] == all_fetched[j as int]);
                assert(rest_fetched.skip(1) =~= all_fetched.skip(j + 1));
            }
        }
        let mut taken: Option<Value> = None;
        std::mem::swap(&mut local[i], &mut taken);
        match taken {
            Some(v) => {
                results.push(KeyResult::Local(v));
            },
            None => {
                if j < fetched.len() {
                    let mut answer = KeyResult::Miss;
                    std::mem::swap(&mut fetched[j], &mut answer);
                    results.push(answer);
                    j += 1;
                } else {
                    results.push(KeyResult::Miss);
                }
            },
        }
        proof {
            assert(result_views(results@) =~= result_views(before).push(results@[i as int]@));
            assert(merged(all_local, all_fetched) =~= result_views(results@) + merged(
                all_local.skip(i + 1),
                all_fetched.skip(j as int),
            ));
        }
        i += 1;
    }
    assert(merged(all_local.skip(n as int), all_fetched.skip(j as int)) =~= Seq::<
        KeyResultView,
    >::empty());
    assert(result_views(results@) + Seq::<KeyResultView>::empty() =~= result_views(results@));
    results
}

/// Looks one key up in the backend: the result is what its answer means.
pub fn run_get<B: CacheBackend>(client: &B, cache_name: &str, carry_flags: bool, key: &[u8]) -> (result:
    KeyResult)
    ensures
        result@.answers(key@),
        !(result is Local),
        exists|reply: Result<GetResponse, BackendError>|
            result@ == #[trigger] key_result(reply, carry_flags, key@),
        looked_up(result@, carry_flags, key@),
{
    let reply = client.get(cache_name, key);
    let result = interpret_get(&reply, carry_flags, key);
    assert(result@ == key_result(reply, carry_flags, key@));
    result
}

/// What a `get` did.
#[derive(Clone, Debug, PartialEq, Eq)]
pub struct GetReport {
    /// The response to the client.
    pub response: Response,
    /// How each key ended, in the order of the keys.
    pub results: Vec<KeyResult>,
    /// The number of calls to the backend that were made.
    pub backend_calls: usize,
    /// The values that were handed to the local cache.
    pub backfill: Vec<Value>,
}

/// The values that a `get` hands to the local cache: those that the backend
/// found, where there is a local cache and no lookup failed.
pub open spec fn backfilled(results: Seq<KeyResultView>, cached: bool) -> Seq<ValueView> {
    if cached && first_failure(results) is None {
        fetched_values(results)
    } else {
        Seq::<ValueView>::empty()
    }
}

/// Serves a `get`: each key from the local cache where that has it, from
/// the backend otherwise; values that the backend found are stored in the
/// local cache, unless a lookup failed.
///
/// The backend decides what is found. Whatever it answers, every key has
/// one result, a value that goes out belongs to its key, only keys that the
/// local cache did not have are asked of the backend, and the response is
/// the one that the results make.
pub fn get<B: CacheBackend>(
    client: &B,
    cache_name: &str,
    request: &GetRequest,
    flags: bool,
    memory_cache: Option<&LocalCache>,
    recorder: &mut RpcCallGuard,
    now: u64,
) -> (report: GetReport)
    ensures
        report.results@.len() == request.keys@.len(),
        forall|i: int|
            0 <= i < report.results@.len() ==> looked_up(
                (#[trigger] report.results@[i])@,
                flags,
                request.keys@[i]@,
            ),
        memory_cache is None ==> forall|i: int|
            0 <= i < report.results@.len() ==> !((#[trigger] report.results@[i]) is Local),
        report.backend_calls == backend_calls(result_views(report.results@)),
        value_views(report.backfill@) == backfilled(
            result_views(report.results@),
            memory_cache is Some,
        ),
        memory_cache is None ==> report.backend_calls == request.keys@.len(),
        report.response@ == get_response(result_views(report.results@)),
        final(recorder).observed() == old(recorder).observed() + filed(
            result_views(report.results@),
        ),
        final(recorder).recorded() == (old(recorder).recorded() || filed(
            result_views(report.results@),
        ).len() > 0),
        final(recorder).rpc() == old(recorder).rpc(),
{
    let mut results: Vec<KeyResult> = Vec::new();
    let mut calls: usize = 0;
    let mut i: usize = 0;
    assert(result_views(results@) =~= Seq::<KeyResultView>::empty());
    while i < request.keys.len()
        invariant
            i <= request.keys@.len(),
            results@.len() == i,
            forall|j: int|
                0 <= j < i ==> looked_up((#[trigger] results@[j])@, flags, request.keys@[j]@),
            memory_cache is None ==> forall|j: int|
                0 <= j < i ==> !((#[trigger] results@[j]) is Local),
            calls == backend_calls(result_views(results@)),
            calls <= i,
            memory_cache is None ==> calls == i,
        decreases request.keys@.len() - i,
    {
        let key = request.keys[i].as_slice();
        let ghost before = results@;
        let local = match memory_cache {
            Some(cache) => cache.get(key, now),
            None => None,
        };
        match local {
            Some(entry) => {
                match entry.into_value() {
                    CacheValue::Memcached { value } => {
                        results.push(KeyResult::Local(value));
                    },
                }
            },
            None => {
                results.push(run_get(client, cache_name, flags, key));
                calls = calls + 1;
            },
        }
        proof {
            assert(result_views(results@).drop_last() =~= result_views(before));
        }
        i += 1;
    }
    let done = finish_get(&results, recorder);
    match memory_cache {
        Some(cache) => {
            let mut j: usize = 0;
            while j < done.backfill.len()
                invariant
                    j <= done.backfill@.len(),
                decreases done.backfill@.len() - j,
            {
                let value = clone_value(&done.backfill[j]);
                let key = copy_range(value.key.as_slice(), 0, value.key.len());
                cache.set(key, CacheValue::Memcached { value }, now);
                j += 1;
            }
            GetReport {
                response: done.response,
                results,
                backend_calls: calls,
                backfill: done.backfill,
            }
        },
        None => {
            let backfill: Vec<Value> = Vec::new();
            assert(value_views(backfill@) =~= Seq::<ValueView>::empty());
            GetReport { response: done.response, results, backend_calls: calls, backfill }
        },
    }
}

/// What a `set` sends to the backend and stores in the local cache.
#[derive(Clone, Debug, PartialEq, Eq)]
pub struct SetForward {
    pub key: Vec<u8>,
    /// The value as the backend stores it.
    pub value: Vec<u8>,
    /// The seconds that the backend is to keep it; `None` for its default.
    pub ttl: Option<u64>,
    /// The value as the local cache stores it.
    pub local: Value,
}

/// What a `SetForward` holds.
pub struct SetForwardView {
    pub key: Seq<u8>,
    pub value: Seq<u8>,
    pub ttl: Option<u64>,
    pub local: ValueView,
}

impl View for SetForward {
    type V = SetForwardView;

    open spec fn view(&self) -> SetForwardView {
        SetForwardView { key: self.key@, value: self.value@, ttl: self.ttl, local: self.local@ }
    }
}

/// What an optional plan holds.
pub open spec fn forward_view(plan: Option<SetForward>) -> Option<SetForwardView> {
    match plan {
        Some(f) => Some(f@),
        None => None,
    }
}

/// The time to live that the backend is asked for: what the client gave,
/// one second at least; nothing where the client gave nothing.
pub open spec fn backend_ttl(ttl: Option<u32>) -> Option<u64> {
    match ttl {
        Some(t) => Some(
            if t < 1 {
                1u64
            } else {
                t as u64
            },
        ),
        None => None,
    }
}

/// What a `set` sends on, or nothing for a `set` of an empty value, which
/// is refused. The backend gets the key, the payload behind its flags where
/// flags are carried, and the time to live of the client, one second at
/// least. The local cache gets the payload with the flags, which are 0
/// where flags are not carried.
pub open spec fn forward_of(request: SetRequest, carry_flags: bool) -> Option<SetForwardView> {
    if request.value@.len() == 0 {
        None
    } else {
        Some(
            SetForwardView {
                key: request.key@,
                value: transport_value(carry_flags, request.flags, request.value@),
                ttl: backend_ttl(request.ttl),
                local: ValueView {
                    key: request.key@,
                    flags: if carry_flags {
                        request.flags
                    } else {
                        0
                    },
                    data: request.value@,
                },
            },
        )
    }
}

/// A copy of `forward`.
pub fn clone_forward(forward: &SetForward) -> (copy: SetForward)
    ensures
        copy@ == forward@,
{
    let key = copy_range(forward.key.as_slice(), 0, forward.key.len());
    let value = copy_range(forward.value.as_slice(), 0, forward.value.len());
    assert(key@ =~= forward.key@);
    assert(value@ =~= forward.value@);
    SetForward { key, value, ttl: forward.ttl, local: clone_value(&forward.local) }
}

/// What a `set` sends on, or `None` for a `set` of an empty value, which is
/// refused.
pub fn plan_set(request: &SetRequest, carry_flags: bool) -> (plan: Option<SetForward>)
    ensures
        forward_view(plan) == forward_of(*request, carry_flags),
        plan is None <==> request.value@.len() == 0,
        plan matches Some(f) ==> {
            &&& f.key@ == request.key@
            &&& f.value@ == transport_value(carry_flags, request.flags, request.value@)
            &&& f.ttl == backend_ttl(request.ttl)
            &&& (f.ttl matches Some(t) ==> t >= 1)
            &&& f.local@ == (ValueView {
                key: request.key@,
                flags: if carry_flags {
                    request.flags
                } else {
                    0
                },
                data: request.value@,
            })
        },
{
    if request.value.len() == 0 {
        return None;
    }
    let key = copy_range(request.key.as_slice(), 0, request.key.len());
    let local_key = copy_range(request.key.as_slice(), 0, request.key.len());
    let data = copy_range(request.value.as_slice(), 0, request.value.len());
    assert(key@ =~= request.key@);
    assert(local_key@ =~= request.key@);
    assert(data@ =~= request.value@);
    let value = encode_value(carry_flags, request.flags, request.value.as_slice());
    let ttl: Option<u64> = match request.ttl {
        Some(t) => Some(
            if t < 1 {
                1
            } else {
                t as u64
            },
        ),
        None => None,
    };
    let flags = if carry_flags {
        request.flags
    } else {
        0
    };
    Some(SetForward { key, value, ttl, local: Value { key: local_key, flags, data } })
}

/// The response to a mutation that the backend answered with `outcome`:
/// `success` where it succeeded, a server error with the message of the
/// failure otherwise, which for a missed deadline is `backend timeout`.
pub open spec fn mutation_response(outcome: Result<(), BackendError>, success: ResponseView)
    -> ResponseView {
    match outcome {
        Ok(_) => success,
        Err(e) => ResponseView::ServerError(e.text()),
    }
}

/// The response to a `set` that the backend answered with `outcome`.
pub fn finish_set(outcome: &Result<(), BackendError>, noreply: bool) -> (response: Response)
    ensures
        response@ == mutation_response(*outcome, ResponseView::Stored { noreply }),
{
    match outcome {
        Ok(_) => Response::Stored { noreply },
        Err(e) => Response::ServerError(e.message()),
    }
}

/// The response to a `delete` that the backend answered with `outcome`.
pub fn finish_delete(outcome: &Result<(), BackendError>, noreply: bool) -> (response: Response)
    ensures
        response@ == mutation_response(*outcome, ResponseView::Deleted { noreply }),
{
    match outcome {
        Ok(_) => Response::Deleted { noreply },
        Err(e) => Response::ServerError(e.message()),
    }
}

/// What a `set` did.
#[derive(Clone, Debug, PartialEq, Eq)]
pub struct SetReport {
    /// The response to the client.
    pub response: Response,
    /// What was sent to the backend and handed to the local cache; nothing
    /// for a `set` that was refused.
    pub forward: Option<SetForward>,
}

/// Serves a `set`. An empty value is refused with a client error and
/// nothing is stored. Otherwise the value is written to the local cache at
/// once and then sent to the backend, whose answer makes the response.
pub fn set<B: CacheBackend>(
    client: &B,
    cache_name: &str,
    request: &SetRequest,
    flags: bool,
    memory_cache: Option<&LocalCache>,
    now: u64,
) -> (report: SetReport)
    ensures
        forward_view(report.forward) == forward_of(*request, flags),
        request.value@.len() == 0 ==> report.response@ == ResponseView::ClientError(
            word_empty_value(),
        ),
        request.value@.len() > 0 ==> exists|outcome: Result<(), BackendError>|
            report.response@ == #[trigger] mutation_response(
                outcome,
                ResponseView::Stored { noreply: request.noreply },
            ),
{
    match plan_set(request, flags) {
        None => SetReport { response: Response::client_error(lit_empty_value()), forward: None },
        Some(forward) => {
            let sent = clone_forward(&forward);
            match memory_cache {
                Some(cache) => {
                    let key = copy_range(forward.key.as_slice(), 0, forward.key.len());
                    cache.set(key, CacheValue::Memcached { value: forward.local }, now);
                },
                None => {},
            }
            let outcome = client.set(cache_name, forward.key, forward.value, forward.ttl);
            let response = finish_set(&outcome, request.noreply);
            assert(response@ == mutation_response(
                outcome,
                ResponseView::Stored { noreply: request.noreply },
            ));
            SetReport { response, forward: Some(sent) }
        },
    }
}

/// Serves a `delete`: the key leaves the local cache whatever the backend
/// answers, and the answer of the backend makes the response.
pub fn delete<B: CacheBackend>(
    client: &B,
    cache_name: &str,
    request: &DeleteRequest,
    memory_cache: Option<&LocalCache>,
) -> (response: Response)
    ensures
        exists|outcome: Result<(), BackendError>|
            response@ == #[trigger] mutation_response(
                outcome,
                ResponseView::Deleted { noreply: request.noreply },
            ),
{
    match memory_cache {
        Some(cache) => {
            let _ = cache.delete(request.key.as_slice());
        },
        None => {},
    }
    let key = copy_range(request.key.as_slice(), 0, request.key.len());
    let outcome = client.delete(cache_name, key);
    let response = finish_delete(&outcome, request.noreply);
    assert(response@ == mutation_response(
        outcome,
        ResponseView::Deleted { noreply: request.noreply },
    ));
    response
}

/// The call that serves `request`.
pub open spec fn rpc_of(request: RequestView) -> Rpc {
    match request {
        RequestView::Get { .. } => Rpc::MemcachedGet,
        RequestView::Store { .. } => Rpc::MemcachedSet,
        RequestView::Delete { .. } => Rpc::MemcachedDelete,
        RequestView::Unsupported { .. } => Rpc::MemcachedUnimplemented,
    }
}

/// What a call files: what its keys filed, where any did; otherwise the
/// one outcome of the call, an error where the response reports one and a
/// success where it does not.
pub open spec fn call_filed(results: Seq<KeyResultView>, response: ResponseView) -> Seq<Outcome> {
    if filed(results).len() > 0 {
        filed(results)
    } else if response.is_error() {
        seq![Outcome::Error]
    } else {
        seq![Outcome::Success]
    }
}

/// A request that was served.
#[derive(Clone, Debug, PartialEq, Eq)]
pub struct Handled {
    pub sequence: u64,
    pub request: Request,
    pub response: Response,
    /// The call that served it.
    pub rpc: Rpc,
    /// How each key of a `get` ended, in the order of the keys; empty for
    /// the other requests.
    pub results: Vec<KeyResult>,
    /// What to file for that call.
    pub observed: Vec<Outcome>,
    /// The connection is to close once the response is out.
    pub fatal: bool,
}

/// The response and the results are what serving `request` can give.
///
/// A `get` has a result for each key, each of them one that the lookup of
/// its key can end with, and the response that those results make. A `set`
/// of an empty value is refused with a client error; any other `set` is
/// answered as the backend answered it: stored, or a server error with the
/// message of the failure. A `delete` is answered as the backend answered
/// it: deleted, or a server error. A command that is not served is answered
/// with `ERROR`.
pub open spec fn served(
    request: Request,
    carry_flags: bool,
    response: ResponseView,
    results: Seq<KeyResult>,
) -> bool {
    match request {
        Request::Get(g) => {
            &&& results.len() == g.keys@.len()
            &&& forall|i: int|
                0 <= i < results.len() ==> looked_up(
                    (#[trigger] results[i])@,
                    carry_flags,
                    g.keys@[i]@,
                )
            &&& response == get_response(result_views(results))
        },
        Request::Store(s) => {
            &&& results.len() == 0
            &&& s.value@.len() == 0 ==> response == ResponseView::ClientError(word_empty_value())
            &&& s.value@.len() > 0 ==> exists|outcome: Result<(), BackendError>|
                response == #[trigger] mutation_response(
                    outcome,
                    ResponseView::Stored { noreply: s.noreply },
                )
        },
        Request::Delete(d) => {
            &&& results.len() == 0
            &&& exists|outcome: Result<(), BackendError>|
                response == #[trigger] mutation_response(
                    outcome,
                    ResponseView::Deleted { noreply: d.noreply },
                )
        },
        Request::Unsupported { .. } => results.len() == 0 && response == ResponseView::Error,
    }
}

/// The recorder of the call that serves `request`.
pub fn recorder_for<M: MemcachedMetrics>(proxy_metrics: &M, request: &Request) -> (recorder:
    RpcCallGuard)
    ensures
        recorder.rpc() == rpc_of(request@),
        !recorder.recorded(),
        recorder.observed() == Seq::<Outcome>::empty(),
{
    match request {
        Request::Get(_) => proxy_metrics.begin_memcached_get(),
        Request::Store(_) => proxy_metrics.begin_memcached_set(),
        Request::Delete(_) => proxy_metrics.begin_memcached_delete(),
        Request::Unsupported { .. } => proxy_metrics.begin_memcached_unimplemented(),
    }
}

/// What a call has filed once it is closed with `response`: what was filed
/// before, and behind it the one outcome of the call where nothing was, an
/// error where the response reports one and a success where it does not.
pub open spec fn closed_call(recorded: bool, observed: Seq<Outcome>, response: ResponseView) -> Seq<
    Outcome,
> {
    if recorded {
        observed
    } else if response.is_error() {
        observed.push(Outcome::Error)
    } else {
        observed.push(Outcome::Success)
    }
}

/// Closes the call that served `request` with `response`: the call is
/// filed, and a command that is not served closes the connection.
pub fn finish_request(
    sequence: u64,
    request: Request,
    response: Response,
    results: Vec<KeyResult>,
    recorder: RpcCallGuard,
) -> (handled: Handled)
    ensures
        handled.sequence == sequence,
        handled.request == request,
        handled.response == response,
        handled.results == results,
        handled.rpc == recorder.rpc(),
        handled.fatal == (request is Unsupported),
        handled.observed@ == closed_call(recorder.recorded(), recorder.observed(), response@),
{
    let mut recorder = recorder;
    let fatal = match &request {
        Request::Unsupported { .. } => true,
        _ => false,
    };
    let response = match with_wrapped_error_response_rpc_call_guard(
        &mut recorder,
        Ok::<Response, BackendError>(response),
    ) {
        Ok(response) => response,
        Err(_) => Response::Error,
    };
    let rpc = recorder.call();
    let observed = recorder.finish();
    Handled { sequence, request, response, rpc, results, observed, fatal }
}

impl Handled {
    /// The slot that carries the response to the writer, with the envelope
    /// in which the request came.
    pub fn into_slot(self, envelope: Option<Envelope>) -> (slot: PipelineSlot)
        ensures
            slot.sequence == self.sequence,
            slot.request == self.request,
            slot.response == self.response,
            slot.envelope == envelope,
    {
        PipelineSlot {
            sequence: self.sequence,
            request: self.request,
            response: self.response,
            envelope,
        }
    }
}

/// Serves one request of a memcache client and files the call. A command
/// that is not served is answered with `ERROR`, filed as an error, and
/// closes the connection.
pub fn handle_memcache_request<B: CacheBackend, M: MemcachedMetrics>(
    client: &B,
    cache_name: &str,
    sequence: u64,
    request: Request,
    flags: bool,
    proxy_metrics: &M,
    memory_cache: Option<&LocalCache>,
    now: u64,
) -> (handled: Handled)
    ensures
        handled.sequence == sequence,
        handled.request == request,
        handled.rpc == rpc_of(request@),
        handled.fatal == (request is Unsupported),
        served(request, flags, handled.response@, handled.results@),
        memory_cache is None ==> forall|i: int|
            0 <= i < handled.results@.len() ==> !((#[trigger] handled.results@[i]) is Local),
        handled.observed@ == call_filed(result_views(handled.results@), handled.response@),
{
    let mut recorder = recorder_for(proxy_metrics, &request);
    let (response, results) = match &request {
        Request::Get(r) => {
            let report = get(client, cache_name, r, flags, memory_cache, &mut recorder, now);
            assert(Seq::<Outcome>::empty() + filed(result_views(report.results@)) =~= filed(
                result_views(report.results@),
            ));
            (report.response, report.results)
        },
        Request::Store(r) => {
            let report = set(client, cache_name, r, flags, memory_cache, now);
            (report.response, Vec::new())
        },
        Request::Delete(r) => (delete(client, cache_name, r, memory_cache), Vec::new()),
        Request::Unsupported { .. } => (Response::Error, Vec::new()),
    };
    proof {
        if results@.len() == 0 {
            assert(result_views(results@) =~= Seq::<KeyResultView>::empty());
        }
        assert(recorder.observed() =~= filed(result_views(results@)));
        assert(closed_call(recorder.recorded(), recorder.observed(), response@) =~= call_filed(
            result_views(results@),
            response@,
        ));
    }
    finish_request(sequence, request, response, results, recorder)
}

/// What goes back for a request whose handler broke off: a server error
/// with the message `internal error`, filed as an error. The connection
/// stays open.
pub fn handler_failed(sequence: u64, request: Request) -> (handled: Handled)
    ensures
        handled.sequence == sequence,
        handled.request == request,
        handled.response@ == ResponseView::ServerError(word_internal_error()),
        handled.rpc == rpc_of(request@),
        handled.results@.len() == 0,
        handled.observed@ == seq![Outcome::Error],
        !handled.fatal,
{
    let rpc = match &request {
        Request::Get(_) => Rpc::MemcachedGet,
        Request::Store(_) => Rpc::MemcachedSet,
        Request::Delete(_) => Rpc::MemcachedDelete,
        Request::Unsupported { .. } => Rpc::MemcachedUnimplemented,
    };
    let mut recorder = RpcCallGuard::new(rpc);
    recorder.complete_error();
    let observed = recorder.finish();
    Handled {
        sequence,
        request,
        response: Response::ServerError(lit_internal_error()),
        rpc,
        results: Vec::new(),
        observed,
        fatal: false,
    }
}

} // verus!
