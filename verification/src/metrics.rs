//! What the proxy measures of each call: one latency per call, filed under
//! the way the call ended.
//!
//! The recorders here decide what is filed; the caller owns the clocks and
//! the histograms and files what it is told.

use vstd::prelude::*;
use crate::commands::RespCommand;
use crate::words::{
    lit_memcached_delete, lit_memcached_get, lit_memcached_set, lit_memcached_unimplemented,
    lit_resp_unimplemented, lit_result_error, lit_result_hit, lit_result_miss, lit_result_ok,
    lit_result_timeout, lit_source_mcache, lit_source_momento, word_memcached_delete,
    word_memcached_get, word_memcached_set, word_memcached_unimplemented,
    word_resp_unimplemented, word_result_error, word_result_hit, word_result_miss,
    word_result_ok, word_result_timeout, word_source_mcache, word_source_momento,
};

verus! {

/// The calls whose latency the proxy measures.
#[derive(Clone, Copy, Debug, PartialEq, Eq, Hash, Structural)]
pub enum Rpc {
    MemcachedGet,
    MemcachedSet,
    MemcachedDelete,
    MemcachedUnimplemented,
    /// A served command of the RESP side.
    Resp(RespCommand),
    RespUnimplemented,
}

impl Rpc {
    /// The name under which the latency of the call is filed.
    pub open spec fn name(self) -> Seq<u8> {
        match self {
            Rpc::MemcachedGet => word_memcached_get(),
            Rpc::MemcachedSet => word_memcached_set(),
            Rpc::MemcachedDelete => word_memcached_delete(),
            Rpc::MemcachedUnimplemented => word_memcached_unimplemented(),
            Rpc::Resp(command) => command.rpc_name(),
            Rpc::RespUnimplemented => word_resp_unimplemented(),
        }
    }

    /// The name under which the latency of the call is filed.
    pub fn name_bytes(self) -> (name: Vec<u8>)
        ensures
            name@ == self.name(),
    {
        match self {
            Rpc::MemcachedGet => lit_memcached_get(),
            Rpc::MemcachedSet => lit_memcached_set(),
            Rpc::MemcachedDelete => lit_memcached_delete(),
            Rpc::MemcachedUnimplemented => lit_memcached_unimplemented(),
            Rpc::Resp(command) => command.rpc(),
            Rpc::RespUnimplemented => lit_resp_unimplemented(),
        }
    }
}

/// The ways in which a call can end, each with a latency series of its own.
#[derive(Clone, Copy, Debug, PartialEq, Eq, Hash, Structural)]
pub enum Outcome {
    Success,
    Error,
    Timeout,
    Miss,
    /// A hit that the local cache answered.
    HitLocal,
    /// A hit that the backend answered.
    HitRemote,
}

impl Outcome {
    /// The value of the dimension `result` of the latency series.
    pub open spec fn result(self) -> Seq<u8> {
        match self {
            Outcome::Success => word_result_ok(),
            Outcome::Error => word_result_error(),
            Outcome::Timeout => word_result_timeout(),
            Outcome::Miss => word_result_miss(),
            Outcome::HitLocal => word_result_hit(),
            Outcome::HitRemote => word_result_hit(),
        }
    }

    /// The value of the dimension `source` of the latency series, which
    /// only the series of hits have.
    pub open spec fn source(self) -> Option<Seq<u8>> {
        match self {
            Outcome::HitLocal => Some(word_source_mcache()),
            Outcome::HitRemote => Some(word_source_momento()),
            _ => None,
        }
    }

    /// The value of the dimension `result` of the latency series.
    pub fn result_name(self) -> (name: Vec<u8>)
        ensures
            name@ == self.result(),
    {
        match self {
            Outcome::Success => lit_result_ok(),
            Outcome::Error => lit_result_error(),
            Outcome::Timeout => lit_result_timeout(),
            Outcome::Miss => lit_result_miss(),
            Outcome::HitLocal => lit_result_hit(),
            Outcome::HitRemote => lit_result_hit(),
        }
    }

    /// The value of the dimension `source` of the latency series.
    pub fn source_name(self) -> (name: Option<Vec<u8>>)
        ensures
            match (name, self.source()) {
                (Some(got), Some(want)) => got@ == want,
                (None, None) => true,
                _ => false,
            },
    {
        match self {
            Outcome::HitLocal => Some(lit_source_mcache()),
            Outcome::HitRemote => Some(lit_source_momento()),
            _ => None,
        }
    }
}

/// The batching of the metrics export.
#[derive(Clone, Copy, Debug, PartialEq, Eq, Structural)]
pub struct ProxyMetricsBuilder {
    /// Seconds between two batches.
    pub batch_interval_seconds: u64,
    /// The batches that may wait for the exporter.
    pub batch_capacity: usize,
}

impl ProxyMetricsBuilder {
    /// One batch a second, and room for 128 of them.
    pub fn new() -> (builder: ProxyMetricsBuilder)
        ensures
            builder.batch_interval_seconds == 1,
            builder.batch_capacity == 128,
    {
        ProxyMetricsBuilder { batch_interval_seconds: 1, batch_capacity: 128 }
    }
}

/// A response that can report a failure although the call that made it
/// returned normally.
pub trait ResponseWrappingError {
    /// The response reports a failure.
    spec fn reports_error(&self) -> bool;

    /// Whether the response reports a failure.
    fn is_error(&self) -> (failed: bool)
        ensures
            failed == self.reports_error(),
    ;
}

impl ResponseWrappingError for crate::memcache::Response {
    open spec fn reports_error(&self) -> bool {
        self@.is_error()
    }

    fn is_error(&self) -> (failed: bool) {
        crate::memcache::Response::is_error(self)
    }
}

/// The recorder of one call. It files a latency when the call is completed,
/// and `Timeout` at the end where it never was.
///
/// Completing as `Ok` or `Error` files only where nothing was filed before.
/// The completions of a single key (miss, hit, timeout of that key) always
/// file, since one call may look up many keys.
#[derive(Clone, Debug, PartialEq, Eq)]
pub struct RpcCallGuard {
    rpc: Rpc,
    recorded: bool,
    observed: Vec<Outcome>,
}

impl RpcCallGuard {
    /// The call that is recorded.
    pub closed spec fn rpc(&self) -> Rpc {
        self.rpc
    }

    /// Something was filed.
    pub closed spec fn recorded(&self) -> bool {
        self.recorded
    }

    /// What was filed so far, in order.
    pub closed spec fn observed(&self) -> Seq<Outcome> {
        self.observed@
    }

    /// What `outcome` adds to a recorder that is at `(recorded, observed)`.
    pub open spec fn after(recorded: bool, observed: Seq<Outcome>, outcome: Outcome) -> Seq<
        Outcome,
    > {
        match outcome {
            Outcome::Success | Outcome::Error => if recorded {
                observed
            } else {
                observed.push(outcome)
            },
            _ => observed.push(outcome),
        }
    }

    /// The recorder of a call of `rpc` that starts now.
    pub fn new(rpc: Rpc) -> (guard: RpcCallGuard)
        ensures
            guard.rpc() == rpc,
            !guard.recorded(),
            guard.observed() == Seq::<Outcome>::empty(),
    {
        RpcCallGuard { rpc, recorded: false, observed: Vec::new() }
    }

    /// The call that is recorded.
    pub fn call(&self) -> (rpc: Rpc)
        ensures
            rpc == self.rpc(),
    {
        self.rpc
    }

    /// Files `outcome` by the rule of the recorder.
    pub fn complete_as(&mut self, outcome: Outcome)
        ensures
            final(self).rpc() == old(self).rpc(),
            final(self).recorded(),
            final(self).observed() == Self::after(
                old(self).recorded(),
                old(self).observed(),
                outcome,
            ),
    {
        match outcome {
            Outcome::Success | Outcome::Error => {
                if !self.recorded {
                    self.observed.push(outcome);
                }
            },
            _ => {
                self.observed.push(outcome);
            },
        }
        self.recorded = true;
    }

    /// The call succeeded.
    pub fn complete_ok(&mut self)
        ensures
            final(self).rpc() == old(self).rpc(),
            final(self).recorded(),
            final(self).observed() == Self::after(
                old(self).recorded(),
                old(self).observed(),
                Outcome::Success,
            ),
    {
        self.complete_as(Outcome::Success)
    }

    /// The call failed.
    pub fn complete_error(&mut self)
        ensures
            final(self).rpc() == old(self).rpc(),
            final(self).recorded(),
            final(self).observed() == Self::after(
                old(self).recorded(),
                old(self).observed(),
                Outcome::Error,
            ),
    {
        self.complete_as(Outcome::Error)
    }

    /// The call ended with `result`: a success where that is `Ok`, an error
    /// otherwise.
    pub fn complete<T, E>(&mut self, result: &Result<T, E>)
        ensures
            final(self).rpc() == old(self).rpc(),
            final(self).recorded(),
            final(self).observed() == Self::after(
                old(self).recorded(),
                old(self).observed(),
                if result is Ok {
                    Outcome::Success
                } else {
                    Outcome::Error
                },
            ),
    {
        match result {
            Ok(_) => self.complete_ok(),
            Err(_) => self.complete_error(),
        }
    }

    /// A key was not found.
    pub fn complete_miss(&mut self)
        ensures
            final(self).rpc() == old(self).rpc(),
            final(self).recorded(),
            final(self).observed() == old(self).observed().push(Outcome::Miss),
    {
        self.complete_as(Outcome::Miss)
    }

    /// A key was found in the local cache.
    pub fn complete_hit_mcache(&mut self)
        ensures
            final(self).rpc() == old(self).rpc(),
            final(self).recorded(),
            final(self).observed() == old(self).observed().push(Outcome::HitLocal),
    {
        self.complete_as(Outcome::HitLocal)
    }

    /// A key was found by the backend.
    pub fn complete_hit_momento(&mut self)
        ensures
            final(self).rpc() == old(self).rpc(),
            final(self).recorded(),
            final(self).observed() == old(self).observed().push(Outcome::HitRemote),
    {
        self.complete_as(Outcome::HitRemote)
    }

    /// The backend did not answer for a key in time.
    pub fn complete_timeout(&mut self)
        ensures
            final(self).rpc() == old(self).rpc(),
            final(self).recorded(),
            final(self).observed() == old(self).observed().push(Outcome::Timeout),
    {
        self.complete_as(Outcome::Timeout)
    }

    /// Ends the recorder and hands out everything to file: what was filed
    /// so far, or a single `Timeout` where the call was never completed.
    pub fn finish(self) -> (observed: Vec<Outcome>)
        ensures
            observed@ == if self.recorded() {
                self.observed()
            } else {
                self.observed().push(Outcome::Timeout)
            },
    {
        let mut observed = self.observed;
        if !self.recorded {
            observed.push(Outcome::Timeout);
        }
        observed
    }
}

/// The outcome of a call that ended with `result`: an error where the call
/// failed or its response reports a failure, a success otherwise.
pub open spec fn wrapped_outcome<R: ResponseWrappingError, E>(result: Result<R, E>) -> Outcome {
    match result {
        Ok(response) => if response.reports_error() {
            Outcome::Error
        } else {
            Outcome::Success
        },
        Err(_) => Outcome::Error,
    }
}

/// Completes `recorder` for a call that ended with `result`, whose response
/// can report a failure, and hands the result on.
pub fn with_wrapped_error_response_rpc_call_guard<R: ResponseWrappingError, E>(
    recorder: &mut RpcCallGuard,
    result: Result<R, E>,
) -> (out: Result<R, E>)
    ensures
        out == result,
        final(recorder).rpc() == old(recorder).rpc(),
        final(recorder).recorded(),
        final(recorder).observed() == RpcCallGuard::after(
            old(recorder).recorded(),
            old(recorder).observed(),
            wrapped_outcome(result),
        ),
{
    match &result {
        Ok(response) => {
            if response.is_error() {
                recorder.complete_error();
            } else {
                recorder.complete_ok();
            }
        },
        Err(_) => {
            recorder.complete_error();
        },
    }
    result
}

/// Completes `recorder` for a call that ended with `result`, and hands the
/// result on.
pub fn with_rpc_call_guard<T, E>(recorder: &mut RpcCallGuard, result: Result<T, E>) -> (out: Result<
    T,
    E,
>)
    ensures
        out == result,
        final(recorder).rpc() == old(recorder).rpc(),
        final(recorder).recorded(),
        final(recorder).observed() == RpcCallGuard::after(
            old(recorder).recorded(),
            old(recorder).observed(),
            if result is Ok {
                Outcome::Success
            } else {
                Outcome::Error
            },
        ),
{
    recorder.complete(&result);
    result
}

/// The latency series of one call.
#[derive(Clone, Copy, Debug, PartialEq, Eq, Structural)]
pub struct RpcMetrics {
    pub rpc: Rpc,
}

impl RpcMetrics {
    /// The latency series of `rpc`.
    pub fn new(rpc: Rpc) -> (metrics: RpcMetrics)
        ensures
            metrics.rpc == rpc,
    {
        RpcMetrics { rpc }
    }

    /// The recorder of a call that starts now.
    pub fn record_api_call(&self) -> (guard: RpcCallGuard)
        ensures
            guard.rpc() == self.rpc,
            !guard.recorded(),
            guard.observed() == Seq::<Outcome>::empty(),
    {
        RpcCallGuard::new(self.rpc)
    }
}

/// The connections that were opened and closed.
#[derive(Clone, Copy, Debug, PartialEq, Eq, Structural)]
pub struct ConnectionCounts {
    pub opened: u64,
    pub closed: u64,
}

/// The mark of a connection that was counted as opened and is to be
/// counted as closed.
#[derive(Debug, PartialEq, Eq)]
pub struct ConnectionGuard {
    counted: bool,
}

impl ConnectionCounts {
    /// No more connections were closed than were opened.
    pub open spec fn wf(&self) -> bool {
        self.closed <= self.opened
    }

    /// The connections that are open.
    pub open spec fn active(&self) -> int {
        self.opened - self.closed
    }

    /// The counts of a proxy that has seen no connection.
    pub fn new() -> (counts: ConnectionCounts)
        ensures
            counts.wf(),
            counts.opened == 0,
            counts.closed == 0,
    {
        ConnectionCounts { opened: 0, closed: 0 }
    }

    /// The connections that are open.
    pub fn total_active_connections(&self) -> (active: u64)
        requires
            self.wf(),
        ensures
            active == self.active(),
    {
        self.opened - self.closed
    }
}

impl ConnectionGuard {
    /// The guard stands for a connection that was counted.
    pub closed spec fn counted(&self) -> bool {
        self.counted
    }

    /// Counts a connection as opened. A proxy that has counted as many as
    /// the counter holds counts no more.
    pub fn new(counts: &mut ConnectionCounts) -> (guard: ConnectionGuard)
        requires
            old(counts).wf(),
        ensures
            final(counts).wf(),
            final(counts).closed == old(counts).closed,
            guard.counted() == (old(counts).opened < u64::MAX),
            final(counts).opened == old(counts).opened + if guard.counted() {
                1int
            } else {
                0int
            },
    {
        if counts.opened < u64::MAX {
            counts.opened = counts.opened + 1;
            ConnectionGuard { counted: true }
        } else {
            ConnectionGuard { counted: false }
        }
    }

    /// Counts the connection as closed.
    pub fn close(self, counts: &mut ConnectionCounts)
        requires
            old(counts).wf(),
        ensures
            final(counts).wf(),
            final(counts).opened == old(counts).opened,
            final(counts).closed == old(counts).closed + if self.counted() && old(counts).closed
                < old(counts).opened {
                1int
            } else {
                0int
            },
    {
        if self.counted && counts.closed < counts.opened {
            counts.closed = counts.closed + 1;
        }
    }
}

/// The recorders of the connections.
pub trait ConnectionMetrics {
    /// The counts that the recorders keep.
    spec fn counts(&self) -> ConnectionCounts;

    /// Counts a connection that was accepted, unless the counter is full.
    fn begin_connection(&mut self) -> (guard: ConnectionGuard)
        requires
            old(self).counts().wf(),
        ensures
            final(self).counts().wf(),
            final(self).counts().closed == old(self).counts().closed,
            guard.counted() == (old(self).counts().opened < u64::MAX),
            final(self).counts().opened == old(self).counts().opened + if guard.counted() {
                1int
            } else {
                0int
            },
    ;
}

/// The recorders of the memcache commands.
pub trait MemcachedMetrics {
    fn begin_memcached_get(&self) -> (guard: RpcCallGuard)
        ensures
            guard.rpc() == Rpc::MemcachedGet,
            !guard.recorded(),
            guard.observed() == Seq::<Outcome>::empty(),
    ;

    fn begin_memcached_set(&self) -> (guard: RpcCallGuard)
        ensures
            guard.rpc() == Rpc::MemcachedSet,
            !guard.recorded(),
            guard.observed() == Seq::<Outcome>::empty(),
    ;

    fn begin_memcached_delete(&self) -> (guard: RpcCallGuard)
        ensures
            guard.rpc() == Rpc::MemcachedDelete,
            !guard.recorded(),
            guard.observed() == Seq::<Outcome>::empty(),
    ;

    fn begin_memcached_unimplemented(&self) -> (guard: RpcCallGuard)
        ensures
            guard.rpc() == Rpc::MemcachedUnimplemented,
            !guard.recorded(),
            guard.observed() == Seq::<Outcome>::empty(),
    ;
}

/// The recorders of the RESP commands.
pub trait RespMetrics {
    /// The recorder of a call of `command`.
    fn begin_resp(&self, command: RespCommand) -> (guard: RpcCallGuard)
        ensures
            guard.rpc() == Rpc::Resp(command),
            !guard.recorded(),
            guard.observed() == Seq::<Outcome>::empty(),
    ;

    /// The recorder of a command that is not served.
    fn begin_resp_unimplemented(&self) -> (guard: RpcCallGuard)
        ensures
            guard.rpc() == Rpc::RespUnimplemented,
            !guard.recorded(),
            guard.observed() == Seq::<Outcome>::empty(),
    ;
}

/// All the recorders of the proxy.
pub trait ProxyMetrics: ConnectionMetrics + MemcachedMetrics + RespMetrics {

}

/// The recorders of the proxy, one latency series for each call.
#[derive(Clone, Copy, Debug, PartialEq, Eq, Structural)]
pub struct DefaultProxyMetrics {
    pub connections: ConnectionCounts,
}

impl DefaultProxyMetrics {
    /// The recorders of a proxy that has seen no connection.
    pub fn new() -> (metrics: DefaultProxyMetrics)
        ensures
            metrics.connections.wf(),
            metrics.connections.opened == 0,
            metrics.connections.closed == 0,
    {
        DefaultProxyMetrics { connections: ConnectionCounts::new() }
    }
}

impl ConnectionMetrics for DefaultProxyMetrics {
    open spec fn counts(&self) -> ConnectionCounts {
        self.connections
    }

    fn begin_connection(&mut self) -> (guard: ConnectionGuard) {
        ConnectionGuard::new(&mut self.connections)
    }
}

impl MemcachedMetrics for DefaultProxyMetrics {
    fn begin_memcached_get(&self) -> (guard: RpcCallGuard) {
        RpcMetrics::new(Rpc::MemcachedGet).record_api_call()
    }

    fn begin_memcached_set(&self) -> (guard: RpcCallGuard) {
        RpcMetrics::new(Rpc::MemcachedSet).record_api_call()
    }

    fn begin_memcached_delete(&self) -> (guard: RpcCallGuard) {
        RpcMetrics::new(Rpc::MemcachedDelete).record_api_call()
    }

    fn begin_memcached_unimplemented(&self) -> (guard: RpcCallGuard) {
        RpcMetrics::new(Rpc::MemcachedUnimplemented).record_api_call()
    }
}

impl RespMetrics for DefaultProxyMetrics {
    fn begin_resp(&self, command: RespCommand) -> (guard: RpcCallGuard) {
        RpcMetrics::new(Rpc::Resp(command)).record_api_call()
    }

    fn begin_resp_unimplemented(&self) -> (guard: RpcCallGuard) {
        RpcMetrics::new(Rpc::RespUnimplemented).record_api_call()
    }
}

impl ProxyMetrics for DefaultProxyMetrics {

}

} // verus!
