//! The engine of one client connection: which protocol it speaks, which
//! requests its read buffer holds, and in which order the responses go out.
//!
//! Requests get a sequence number as they are read. Their handlers finish
//! in any order; the writer side holds back each response until all the
//! earlier ones are out.

use vstd::prelude::*;
use std::collections::BTreeMap;
use crate::binary::{
    binary_response_bytes, compose_binary_response, parse_binary, parse_binary_spec,
    BinaryParsed, BinaryParsedView, Envelope, REQUEST_MAGIC,
};
use crate::memcache::{
    compose_response, parse_request, parse_request_spec, response_bytes, Parsed, ParsedView,
    Request, RequestView, Response, ResponseView,
};
use crate::words::{lit_malformed_request, word_malformed_request};

verus! {

broadcast use vstd::std_specs::btree::group_btree_axioms;

/// The responses that may wait between the handlers and the writer.
pub const RESPONSE_QUEUE_DEPTH: usize = 1024;

/// The requests of one connection that may be in flight at a time: the
/// reader accepts no more until the writer has sent a response.
pub const SEQUENCE_WINDOW: u64 = 1024;

/// The seconds that the writer gets to flush after the reader has stopped.
pub const WRITER_GRACE_SECONDS: u64 = 60;

/// What a look at the first byte of a new connection showed.
#[derive(Clone, Copy, Debug, PartialEq, Eq)]
pub enum Peek {
    /// This many bytes are there to read, the first of them being `first`.
    Bytes { count: usize, first: u8 },
    /// The socket was not ready after all.
    WouldBlock,
    /// The socket reported another error.
    Failed,
}

/// What to do with a new connection after a look at its first byte.
#[derive(Clone, Copy, Debug, PartialEq, Eq)]
pub enum Detected {
    /// The client speaks the text protocol.
    Text,
    /// The client speaks the binary protocol.
    Binary,
    /// Nothing was learned: look again.
    Retry,
    /// The client hung up or the socket failed: drop the connection.
    Hangup,
}

/// Which memcache protocol a client speaks, by the first byte it sent: the
/// magic byte of the binary protocol, or anything else for text. No byte at
/// all is a hangup; a wakeup without data asks for another look.
pub open spec fn detected(peek: Peek) -> Detected {
    match peek {
        Peek::Bytes { count, first } => if count == 0 {
            Detected::Hangup
        } else if first == REQUEST_MAGIC {
            Detected::Binary
        } else {
            Detected::Text
        },
        Peek::WouldBlock => Detected::Retry,
        Peek::Failed => Detected::Hangup,
    }
}

impl Detected {
    /// The framing that was detected, if one was.
    pub fn codec(self) -> (codec: Option<Codec>)
        ensures
            codec == match self {
                Detected::Text => Some(Codec::Text),
                Detected::Binary => Some(Codec::Binary),
                _ => None,
            },
    {
        match self {
            Detected::Text => Some(Codec::Text),
            Detected::Binary => Some(Codec::Binary),
            _ => None,
        }
    }
}

/// Which memcache protocol a client speaks, by the first byte it sent.
pub fn detect_protocol(peek: Peek) -> (d: Detected)
    ensures
        d == detected(peek),
{
    match peek {
        Peek::Bytes { count, first } => if count == 0 {
            Detected::Hangup
        } else if first == REQUEST_MAGIC {
            Detected::Binary
        } else {
            Detected::Text
        },
        Peek::WouldBlock => Detected::Retry,
        Peek::Failed => Detected::Hangup,
    }
}

/// The framing that a memcache client uses.
#[derive(Clone, Copy, Debug, PartialEq, Eq, Structural)]
pub enum Codec {
    Text,
    Binary,
}

/// What reading a buffer for one request gives, in either framing.
#[derive(Clone, Debug, PartialEq, Eq)]
pub enum Decoded {
    /// A whole request, the envelope that it came in where the framing is
    /// binary, and the number of bytes that it took.
    Ready { request: Request, envelope: Option<Envelope>, consumed: usize },
    NeedMore,
    Malformed,
}

/// What a `Decoded` holds.
pub enum DecodedView {
    Ready { request: RequestView, envelope: Option<Envelope>, consumed: nat },
    NeedMore,
    Malformed,
}

impl View for Decoded {
    type V = DecodedView;

    open spec fn view(&self) -> DecodedView {
        match self {
            Decoded::Ready { request, envelope, consumed } => DecodedView::Ready {
                request: request@,
                envelope: *envelope,
                consumed: *consumed as nat,
            },
            Decoded::NeedMore => DecodedView::NeedMore,
            Decoded::Malformed => DecodedView::Malformed,
        }
    }
}

/// What the start of `buf` holds for a client that speaks `codec`.
pub open spec fn decoded(buf: Seq<u8>, codec: Codec) -> DecodedView {
    match codec {
        Codec::Text => match parse_request_spec(buf) {
            ParsedView::Ready { request, consumed } => DecodedView::Ready {
                request,
                envelope: None,
                consumed,
            },
            ParsedView::NeedMore => DecodedView::NeedMore,
            ParsedView::Malformed => DecodedView::Malformed,
        },
        Codec::Binary => match parse_binary_spec(buf) {
            BinaryParsedView::Ready { request, envelope, consumed } => DecodedView::Ready {
                request,
                envelope: Some(envelope),
                consumed,
            },
            BinaryParsedView::NeedMore => DecodedView::NeedMore,
            BinaryParsedView::Malformed => DecodedView::Malformed,
        },
    }
}

/// Reads one request from the start of `buf`, in the framing of `codec`.
pub fn decode(buf: &[u8], codec: Codec) -> (out: Decoded)
    ensures
        out@ == decoded(buf@, codec),
{
    match codec {
        Codec::Text => match parse_request(buf) {
            Parsed::Ready { request, consumed } => Decoded::Ready {
                request,
                envelope: None,
                consumed,
            },
            Parsed::NeedMore => Decoded::NeedMore,
            Parsed::Malformed => Decoded::Malformed,
        },
        Codec::Binary => match parse_binary(buf) {
            BinaryParsed::Ready { request, envelope, consumed } => Decoded::Ready {
                request,
                envelope: Some(envelope),
                consumed,
            },
            BinaryParsed::NeedMore => Decoded::NeedMore,
            BinaryParsed::Malformed => Decoded::Malformed,
        },
    }
}

/// A request with its place in the connection and its response.
#[derive(Clone, Debug, PartialEq, Eq)]
pub struct PipelineSlot {
    pub sequence: u64,
    pub request: Request,
    pub response: Response,
    /// The envelope of a request that came in binary framing.
    pub envelope: Option<Envelope>,
}

/// What a `PipelineSlot` holds.
pub struct PipelineSlotView {
    pub sequence: int,
    pub request: RequestView,
    pub response: ResponseView,
    pub envelope: Option<Envelope>,
}

impl View for PipelineSlot {
    type V = PipelineSlotView;

    open spec fn view(&self) -> PipelineSlotView {
        PipelineSlotView {
            sequence: self.sequence as int,
            request: self.request@,
            response: self.response@,
            envelope: self.envelope,
        }
    }
}

/// The slot that answers bytes that are no request: a client error with the
/// message `malformed request`, in the framing of the client, under the
/// sequence number `sequence`.
pub open spec fn rejection_view(sequence: int, codec: Codec) -> PipelineSlotView {
    PipelineSlotView {
        sequence,
        request: RequestView::Unsupported { verb: Seq::<u8>::empty() },
        response: ResponseView::ClientError(word_malformed_request()),
        envelope: match codec {
            Codec::Text => None,
            Codec::Binary => Some(Envelope { opcode: 0, opaque: 0 }),
        },
    }
}

/// The bytes that tell a client that it sent no request: in text the line
/// `CLIENT_ERROR malformed request`, in binary a packet with the status of
/// invalid arguments and that message.
pub open spec fn rejection_wire(codec: Codec) -> Seq<u8> {
    match codec {
        Codec::Text => crate::memcache::error_line(
            crate::words::word_client_error(),
            word_malformed_request(),
        ),
        Codec::Binary => crate::binary::checked_packet(
            Envelope { opcode: 0, opaque: 0 },
            crate::binary::STATUS_INVALID,
            Seq::<u8>::empty(),
            Seq::<u8>::empty(),
            word_malformed_request(),
        ),
    }
}

/// The slot that answers bytes that are no request.
pub fn rejection(sequence: u64, codec: Codec) -> (slot: PipelineSlot)
    ensures
        slot@ == rejection_view(sequence as int, codec),
        slot.wire() == rejection_wire(codec),
{
    PipelineSlot {
        sequence,
        request: Request::Unsupported { verb: Vec::new() },
        response: Response::ClientError(lit_malformed_request()),
        envelope: match codec {
            Codec::Text => None,
            Codec::Binary => Some(Envelope { opcode: 0, opaque: 0 }),
        },
    }
}

impl PipelineSlot {
    /// The bytes that this slot puts on the wire: the response in the
    /// framing in which the request came.
    pub open spec fn wire(&self) -> Seq<u8> {
        match self.envelope {
            Some(envelope) => binary_response_bytes(envelope, self.response@),
            None => response_bytes(self.request@, self.response@),
        }
    }

    /// Appends to `out` the bytes that this slot puts on the wire.
    pub fn compose(&self, out: &mut Vec<u8>)
        ensures
            final(out)@ == old(out)@ + self.wire(),
    {
        match self.envelope {
            Some(envelope) => compose_binary_response(envelope, &self.response, out),
            None => compose_response(&self.request, &self.response, out),
        }
    }
}

/// The phases of a connection, in the order in which it goes through them.
#[derive(Clone, Copy, Debug, PartialEq, Eq)]
pub enum ConnectionPhase {
    /// Both halves are alive.
    Running,
    /// The read half is done; the writer drains what is in flight.
    ReaderDone,
    /// The writer has finished or failed.
    Closing,
}

impl ConnectionPhase {
    /// The place of a phase in the life of a connection.
    pub open spec fn rank(self) -> int {
        match self {
            ConnectionPhase::Running => 0,
            ConnectionPhase::ReaderDone => 1,
            ConnectionPhase::Closing => 2,
        }
    }
}

/// The bytes of the slots that `backlog` holds under the `count` sequence
/// numbers from `from` on, in that order.
pub open spec fn backlog_wire(backlog: Map<u64, PipelineSlot>, from: int, count: nat) -> Seq<u8>
    decreases count,
{
    if count == 0 {
        Seq::<u8>::empty()
    } else {
        backlog_wire(backlog, from, (count - 1) as nat) + backlog[(from + count - 1) as u64].wire()
    }
}

/// What remains of `backlog` once every slot below `next` is out.
pub open spec fn backlog_from(backlog: Map<u64, PipelineSlot>, next: u64) -> Map<
    u64,
    PipelineSlot,
> {
    Map::new(|k: u64| backlog.contains_key(k) && k >= next, |k: u64| backlog[k])
}

/// The number of sequence numbers from `from` on, below `limit`, under
/// which `backlog` holds a slot without a gap.
pub open spec fn run_length(backlog: Map<u64, PipelineSlot>, from: int, limit: int) -> nat
    decreases limit - from,
{
    if from < 0 || from >= limit || !backlog.contains_key(from as u64) {
        0
    } else {
        1 + run_length(backlog, from + 1, limit)
    }
}

/// The writer side of a connection as a value: the next sequence number to
/// go out, the number of requests accepted, the finished slots that wait,
/// and all the bytes written so far.
pub struct WriterModel {
    pub next: u64,
    pub count: u64,
    pub waiting: Map<u64, PipelineSlot>,
    pub wire: Seq<u8>,
}

/// What the arrival of a finished slot does to the writer side.
///
/// A slot whose turn it is goes out at once, and after it the waiting slots
/// that follow it without a gap. A slot that is early waits. One whose
/// number was never given out, or is already out, is dropped.
pub open spec fn model_complete(m: WriterModel, slot: PipelineSlot) -> WriterModel {
    if slot.sequence >= m.count || slot.sequence < m.next {
        m
    } else if slot.sequence != m.next {
        WriterModel { waiting: m.waiting.insert(slot.sequence, slot), ..m }
    } else {
        let run = run_length(m.waiting, m.next + 1, m.count as int);
        let next = (m.next + 1 + run) as u64;
        WriterModel {
            next,
            count: m.count,
            waiting: backlog_from(m.waiting, next),
            wire: m.wire + slot.wire() + backlog_wire(m.waiting, m.next + 1, run),
        }
    }
}

/// The slots from `from` up to `to` are all there, and `to` is the limit or
/// a gap: then the run from `from` on is that long.
pub proof fn lemma_run_length(backlog: Map<u64, PipelineSlot>, from: int, to: int, limit: int)
    requires
        0 <= from <= to <= limit <= u64::MAX,
        forall|k: u64| from <= k < to ==> #[trigger] backlog.contains_key(k),
        to == limit || !backlog.contains_key(to as u64),
    ensures
        run_length(backlog, from, limit) == to - from,
    decreases to - from,
{
    if from < to {
        assert(backlog.contains_key(from as u64));
        lemma_run_length(backlog, from + 1, to, limit);
    }
}

/// A run holds a slot under each of its numbers and ends at the limit or at
/// a gap.
pub proof fn lemma_run_length_holds(backlog: Map<u64, PipelineSlot>, from: int, limit: int)
    requires
        0 <= from <= limit <= u64::MAX,
    ensures
        from + run_length(backlog, from, limit) <= limit,
        forall|k: u64|
            from <= k < from + run_length(backlog, from, limit) ==> #[trigger] backlog.contains_key(
                k,
            ),
        from + run_length(backlog, from, limit) == limit || !backlog.contains_key(
            (from + run_length(backlog, from, limit)) as u64,
        ),
    decreases limit - from,
{
    if from < limit && backlog.contains_key(from as u64) {
        lemma_run_length_holds(backlog, from + 1, limit);
    }
}

/// A request with the sequence number that it was given.
#[derive(Clone, Debug, PartialEq, Eq)]
pub struct Accepted {
    pub sequence: u64,
    pub request: Request,
    /// The envelope of a request that came in binary framing.
    pub envelope: Option<Envelope>,
}

/// A request as it was read: its sequence number, the request and its
/// envelope.
pub struct FramedRequest {
    pub sequence: int,
    pub request: RequestView,
    pub envelope: Option<Envelope>,
}

/// The requests that a list of accepted requests holds.
pub open spec fn accepted_views(requests: Seq<Accepted>) -> Seq<FramedRequest> {
    requests.map_values(
        |a: Accepted|
            FramedRequest { sequence: a.sequence as int, request: a.request@, envelope: a.envelope },
    )
}

/// What the reader took from its buffer.
#[derive(Clone, Debug, PartialEq, Eq)]
pub struct Drained {
    /// The requests read, in the order in which they stood.
    pub requests: Vec<Accepted>,
    /// The number of bytes that they took.
    pub consumed: usize,
    /// What follows them is no request and cannot become one: the read half
    /// is done, and `rejected` answers the client.
    pub malformed: bool,
    /// The slot that tells the client that it sent no request. It has the
    /// sequence number behind the requests read, so it goes out after their
    /// responses.
    pub rejected: Option<PipelineSlot>,
    /// What follows them was not looked at further, because the connection
    /// accepts nothing more for now.
    pub stopped: bool,
}

/// What a `Drained` holds.
pub struct DrainedView {
    pub requests: Seq<FramedRequest>,
    pub consumed: nat,
    pub malformed: bool,
    pub rejected: Option<PipelineSlotView>,
    pub stopped: bool,
}

impl View for Drained {
    type V = DrainedView;

    open spec fn view(&self) -> DrainedView {
        DrainedView {
            requests: accepted_views(self.requests@),
            consumed: self.consumed as nat,
            malformed: self.malformed,
            rejected: match self.rejected {
                Some(slot) => Some(slot@),
                None => None,
            },
            stopped: self.stopped,
        }
    }
}

impl DrainedView {
    /// This, read behind `requests` that took `consumed` bytes.
    pub open spec fn after(self, requests: Seq<FramedRequest>, consumed: nat) -> DrainedView {
        DrainedView {
            requests: requests + self.requests,
            consumed: consumed + self.consumed,
            malformed: self.malformed,
            rejected: self.rejected,
            stopped: self.stopped,
        }
    }

    /// The number of sequence numbers that were given out: one for each
    /// request, and one for the slot that answers what is no request.
    pub open spec fn accepted(self) -> nat {
        self.requests.len() + if self.malformed {
            1nat
        } else {
            0nat
        }
    }
}

/// What a reader takes from bytes that are no request and cannot become
/// one: with room for one more sequence number, the slot that says so under
/// the number `first`; without, nothing for now.
pub open spec fn drain_malformed(budget: nat, codec: Codec, first: int) -> DrainedView {
    let nothing = Seq::<FramedRequest>::empty();
    if budget == 0 {
        DrainedView {
            requests: nothing,
            consumed: 0,
            malformed: false,
            rejected: None,
            stopped: true,
        }
    } else {
        DrainedView {
            requests: nothing,
            consumed: 0,
            malformed: true,
            rejected: Some(rejection_view(first, codec)),
            stopped: false,
        }
    }
}

/// What a reader that may accept `budget` requests takes from `buf`, where
/// the next sequence number is `first`: the whole requests at its start, one
/// after the other and numbered in that order, up to the first bytes that
/// are not a whole request or to the end of its budget. Bytes that cannot
/// become a request are answered by a slot with the next number.
pub open spec fn drain_spec(buf: Seq<u8>, budget: nat, codec: Codec, first: int) -> DrainedView
    decreases buf.len(),
{
    let nothing = Seq::<FramedRequest>::empty();
    match decoded(buf, codec) {
        DecodedView::Ready { request, envelope, consumed } => if budget == 0 {
            DrainedView {
                requests: nothing,
                consumed: 0,
                malformed: false,
                rejected: None,
                stopped: true,
            }
        } else if 0 < consumed <= buf.len() {
            drain_spec(buf.skip(consumed as int), (budget - 1) as nat, codec, first + 1).after(
                seq![FramedRequest { sequence: first, request, envelope }],
                consumed,
            )
        } else {
            drain_malformed(budget, codec, first)
        },
        DecodedView::NeedMore => DrainedView {
            requests: nothing,
            consumed: 0,
            malformed: false,
            rejected: None,
            stopped: false,
        },
        DecodedView::Malformed => drain_malformed(budget, codec, first),
    }
}

/// A request that was read took bytes, and no more than there were.
pub proof fn lemma_ready_consumes(buf: Seq<u8>, codec: Codec)
    ensures
        decoded(buf, codec) matches DecodedView::Ready { consumed, .. } ==> 0 < consumed
            <= buf.len(),
{
    crate::bytes::lemma_first_crlf_from(buf, 0);
}

/// The state of one connection.
pub struct ConnectionState {
    read_alive: bool,
    write_alive: bool,
    next_sequence_to_emit: u64,
    accepted: u64,
    backlog: BTreeMap<u64, PipelineSlot>,
}

impl ConnectionState {
    /// The read half is alive.
    pub closed spec fn reading(&self) -> bool {
        self.read_alive
    }

    /// The write half is alive.
    pub closed spec fn writing(&self) -> bool {
        self.write_alive
    }

    /// The sequence number of the response that goes out next.
    pub closed spec fn next(&self) -> u64 {
        self.next_sequence_to_emit
    }

    /// The number of requests accepted so far, which is the sequence number
    /// that the next request gets.
    pub closed spec fn count(&self) -> u64 {
        self.accepted
    }

    /// The finished slots that wait for an earlier one.
    pub closed spec fn waiting(&self) -> Map<u64, PipelineSlot> {
        self.backlog@
    }

    /// The phase that the two alive flags make.
    pub open spec fn phase_spec(&self) -> ConnectionPhase {
        if !self.writing() {
            ConnectionPhase::Closing
        } else if !self.reading() {
            ConnectionPhase::ReaderDone
        } else {
            ConnectionPhase::Running
        }
    }

    /// The state is consistent: nothing goes out before it was accepted, no
    /// more requests are in flight than the window admits, and every waiting
    /// slot sits under its own sequence number, which is one that was
    /// accepted and is later than the next to go out.
    pub open spec fn wf(&self) -> bool {
        &&& self.next() <= self.count()
        &&& self.count() - self.next() <= SEQUENCE_WINDOW
        &&& forall|k: u64| #[trigger]
            self.waiting().contains_key(k) ==> self.next() < k < self.count()
                && self.waiting()[k].sequence == k
    }

    /// The number of requests that the connection may still accept: none
    /// once the read half is done, else as many as the window of requests in
    /// flight and the sequence numbers leave room for.
    pub open spec fn budget(&self) -> nat {
        let in_flight = self.count() - self.next();
        if !self.reading() || in_flight >= SEQUENCE_WINDOW {
            0
        } else if u64::MAX - self.count() < SEQUENCE_WINDOW - in_flight {
            (u64::MAX - self.count()) as nat
        } else {
            (SEQUENCE_WINDOW - in_flight) as nat
        }
    }

    /// The writer side of this state, with `wire` for the bytes written so
    /// far.
    pub open spec fn model(&self, wire: Seq<u8>) -> WriterModel {
        WriterModel { next: self.next(), count: self.count(), waiting: self.waiting(), wire }
    }

    /// The state of a connection that was just accepted.
    pub fn new() -> (state: ConnectionState)
        ensures
            state.wf(),
            state.reading(),
            state.writing(),
            state.next() == 0,
            state.count() == 0,
            state.waiting() == Map::<u64, PipelineSlot>::empty(),
    {
        ConnectionState {
            read_alive: true,
            write_alive: true,
            next_sequence_to_emit: 0,
            accepted: 0,
            backlog: BTreeMap::new(),
        }
    }

    /// Whether the read half is alive.
    pub fn read_alive(&self) -> (alive: bool)
        ensures
            alive == self.reading(),
    {
        self.read_alive
    }

    /// Whether the write half is alive.
    pub fn write_alive(&self) -> (alive: bool)
        ensures
            alive == self.writing(),
    {
        self.write_alive
    }

    /// The sequence number of the response that goes out next.
    pub fn next_sequence_to_emit(&self) -> (next: u64)
        ensures
            next == self.next(),
    {
        self.next_sequence_to_emit
    }

    /// The number of requests that were accepted and whose response is not
    /// out yet.
    pub fn pending_dispatches(&self) -> (pending: u64)
        requires
            self.wf(),
        ensures
            pending == self.count() - self.next(),
    {
        self.accepted - self.next_sequence_to_emit
    }

    /// The number of finished slots that wait for an earlier one.
    pub fn backlog_len(&self) -> (n: usize)
        ensures
            n == self.waiting().len(),
    {
        self.backlog.len()
    }

    /// The phase of the connection.
    pub fn phase(&self) -> (phase: ConnectionPhase)
        ensures
            phase == self.phase_spec(),
    {
        if !self.write_alive {
            ConnectionPhase::Closing
        } else if !self.read_alive {
            ConnectionPhase::ReaderDone
        } else {
            ConnectionPhase::Running
        }
    }

    /// Gives the next request its sequence number. A connection whose read
    /// half is done accepts nothing, and neither does one whose window of
    /// requests in flight is full or that has used up the sequence numbers.
    pub fn accept(&mut self) -> (sequence: Option<u64>)
        requires
            old(self).wf(),
        ensures
            final(self).wf(),
            final(self).reading() == old(self).reading(),
            final(self).writing() == old(self).writing(),
            final(self).next() == old(self).next(),
            final(self).waiting() == old(self).waiting(),
            sequence == if old(self).budget() > 0 {
                Some(old(self).count())
            } else {
                None
            },
            final(self).count() == old(self).count() + if sequence is Some {
                1int
            } else {
                0int
            },
            sequence is Some ==> final(self).budget() == old(self).budget() - 1,
    {
        if self.read_alive && self.accepted < u64::MAX && self.accepted
            - self.next_sequence_to_emit < SEQUENCE_WINDOW {
            let sequence = self.accepted;
            self.accepted = sequence + 1;
            Some(sequence)
        } else {
            None
        }
    }

    /// Records that the read half is done: the client hung up, or sent what
    /// is no request.
    pub fn reader_done(&mut self)
        requires
            old(self).wf(),
        ensures
            final(self).wf(),
            !final(self).reading(),
            final(self).writing() == old(self).writing(),
            final(self).next() == old(self).next(),
            final(self).count() == old(self).count(),
            final(self).waiting() == old(self).waiting(),
            final(self).phase_spec().rank() >= old(self).phase_spec().rank(),
    {
        self.read_alive = false;
    }

    /// Records that the writer has finished or failed: both halves are done.
    pub fn writer_done(&mut self)
        requires
            old(self).wf(),
        ensures
            final(self).wf(),
            !final(self).reading(),
            !final(self).writing(),
            final(self).next() == old(self).next(),
            final(self).count() == old(self).count(),
            final(self).waiting() == old(self).waiting(),
            final(self).phase_spec() == ConnectionPhase::Closing,
    {
        self.read_alive = false;
        self.write_alive = false;
    }

    /// Whether the writer has nothing left to wait for: the read half is
    /// done and the response of every accepted request is out.
    pub fn drained(&self) -> (done: bool)
        ensures
            done == (!self.reading() && self.next() == self.count()),
    {
        !self.read_alive && self.next_sequence_to_emit == self.accepted
    }

    /// Takes the finished `slot` and appends to `out` every response that
    /// can go out now, returning how many those are.
    pub fn complete(&mut self, slot: PipelineSlot, out: &mut Vec<u8>) -> (emitted: u64)
        requires
            old(self).wf(),
        ensures
            final(self).wf(),
            final(self).reading() == old(self).reading(),
            final(self).writing() == old(self).writing(),
            final(self).model(final(out)@) == model_complete(old(self).model(old(out)@), slot),
            emitted == final(self).next() - old(self).next(),
    {
        let sequence = slot.sequence;
        if sequence >= self.accepted || sequence < self.next_sequence_to_emit {
            return 0;
        }
        if sequence != self.next_sequence_to_emit {
            self.backlog.insert(sequence, slot);
            return 0;
        }
        let ghost start = self.next_sequence_to_emit;
        let ghost held = self.backlog@;
        let ghost before = out@;
        slot.compose(out);
        self.next_sequence_to_emit = sequence + 1;
        let mut emitted: u64 = 1;
        loop
            invariant
                start < self.next_sequence_to_emit <= self.accepted,
                self.accepted == old(self).accepted,
                self.read_alive == old(self).read_alive,
                self.write_alive == old(self).write_alive,
                old(self).wf(),
                held == old(self).backlog@,
                start == old(self).next_sequence_to_emit,
                slot.sequence == start,
                before == old(out)@,
                emitted == self.next_sequence_to_emit - start,
                forall|k: u64| start < k < self.next_sequence_to_emit ==> #[trigger] held.contains_key(k),
                self.backlog@ == backlog_from(held, self.next_sequence_to_emit),
                out@ == before + slot.wire() + backlog_wire(held, start + 1, (emitted - 1) as nat),
            decreases self.accepted - self.next_sequence_to_emit,
        {
            let next = self.next_sequence_to_emit;
            match self.backlog.remove(&next) {
                Some(waiting) => {
                    assert(held.contains_key(next));
                    assert(waiting == held[next]);
                    assert(next < self.accepted);
                    waiting.compose(out);
                    self.next_sequence_to_emit = next + 1;
                    proof {
                        assert(self.backlog@ =~= backlog_from(held, self.next_sequence_to_emit));
                    }
                    emitted = emitted + 1;
                },
                None => {
                    assert(!held.contains_key(next));
                    assert(self.backlog@ =~= backlog_from(held, next));
                    proof {
                        lemma_run_length(held, start + 1, next as int, self.accepted as int);
                    }
                    return emitted;
                },
            }
        }
    }

    /// Reads every whole request from the start of `buf` and gives each its
    /// sequence number. Stops at the first bytes that are not a whole
    /// request. Where those cannot become one, nothing behind them is read:
    /// the slot that tells the client so gets the next sequence number, which
    /// puts it behind the responses to the requests before it, and the read
    /// half is done, so that the connection closes once that slot is out.
    pub fn drain_requests(&mut self, buf: &[u8], codec: Codec) -> (drained: Drained)
        requires
            old(self).wf(),
        ensures
            final(self).wf(),
            final(self).writing() == old(self).writing(),
            final(self).next() == old(self).next(),
            final(self).waiting() == old(self).waiting(),
            drained@ == drain_spec(buf@, old(self).budget(), codec, old(self).count() as int),
            final(self).count() == old(self).count() + drained@.accepted(),
            forall|i: int|
                0 <= i < drained.requests@.len() ==> (#[trigger] drained.requests@[i]).sequence
                    == old(self).count() + i,
            drained.malformed <==> drained.rejected is Some,
            drained.rejected matches Some(slot) ==> slot.sequence == old(self).count()
                + drained.requests@.len() && slot.wire() == rejection_wire(codec),
            final(self).reading() == (old(self).reading() && !drained.malformed),
    {
        let mut requests: Vec<Accepted> = Vec::new();
        let mut consumed: usize = 0;
        let len = buf.len();
        let ghost budget = self.budget();
        let ghost first = self.accepted as int;
        proof {
            assert(buf@.skip(0) =~= buf@);
            let all = drain_spec(buf@, budget, codec, first);
            assert(accepted_views(requests@) + all.requests =~= all.requests);
        }
        loop
            invariant
                self.wf(),
                len == buf@.len(),
                consumed <= len,
                self.write_alive == old(self).write_alive,
                self.read_alive == old(self).read_alive,
                self.next_sequence_to_emit == old(self).next_sequence_to_emit,
                self.backlog@ == old(self).backlog@,
                self.accepted == old(self).accepted + requests@.len(),
                budget == old(self).budget(),
                first == old(self).accepted,
                self.budget() + requests@.len() == budget,
                forall|i: int|
                    0 <= i < requests@.len() ==> (#[trigger] requests@[i]).sequence == old(
                        self,
                    ).accepted + i,
                drain_spec(buf@, budget, codec, first) == drain_spec(
                    buf@.skip(consumed as int),
                    self.budget(),
                    codec,
                    first + requests@.len(),
                ).after(accepted_views(requests@), consumed as nat),
            decreases len - consumed,
        {
            let rest = vstd::slice::slice_subrange(buf, consumed, len);
            assert(rest@ =~= buf@.skip(consumed as int));
            proof {
                lemma_ready_consumes(rest@, codec);
                assert(accepted_views(requests@) + Seq::<FramedRequest>::empty()
                    =~= accepted_views(requests@));
            }
            match decode(rest, codec) {
                Decoded::Ready { request, envelope, consumed: taken } => {
                    match self.accept() {
                        Some(sequence) => {
                            let ghost before = requests@;
                            let ghost view = FramedRequest {
                                sequence: sequence as int,
                                request: request@,
                                envelope,
                            };
                            requests.push(Accepted { sequence, request, envelope });
                            proof {
                                assert(accepted_views(requests@) =~= accepted_views(before).push(
                                    view,
                                ));
                                assert(rest@.skip(taken as int) =~= buf@.skip(consumed + taken));
                                let tail = drain_spec(
                                    rest@.skip(taken as int),
                                    self.budget(),
                                    codec,
                                    first + requests@.len(),
                                );
                                assert(drain_spec(buf@, budget, codec, first).requests
                                    =~= accepted_views(requests@) + tail.requests);
                            }
                            consumed = consumed + taken;
                        },
                        None => {
                            return Drained {
                                requests,
                                consumed,
                                malformed: false,
                                rejected: None,
                                stopped: true,
                            };
                        },
                    }
                },
                Decoded::NeedMore => {
                    return Drained {
                        requests,
                        consumed,
                        malformed: false,
                        rejected: None,
                        stopped: false,
                    };
                },
                Decoded::Malformed => {
                    if self.read_alive && self.accepted < u64::MAX && self.accepted
                        - self.next_sequence_to_emit < SEQUENCE_WINDOW {
                        let slot = rejection(self.accepted, codec);
                        self.accepted = self.accepted + 1;
                        self.read_alive = false;
                        return Drained {
                            requests,
                            consumed,
                            malformed: true,
                            rejected: Some(slot),
                            stopped: false,
                        };
                    } else {
                        return Drained {
                            requests,
                            consumed,
                            malformed: false,
                            rejected: None,
                            stopped: true,
                        };
                    }
                },
            }
        }
    }
}

} // verus!
