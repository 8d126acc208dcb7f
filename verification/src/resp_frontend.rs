//! The connection of a RESP client: how a command is read from the buffer,
//! which handler serves it, and what goes back when the handler is done.

use vstd::prelude::*;
use crate::bytes::{
    copy_range, crlf, decimal_u64, find_crlf, first_crlf_from, lemma_first_crlf_from,
    parse_decimal, views, CR, LF,
};
use crate::commands::{command_of, is_command, RespCommand};
use crate::error::{ProxyError, ProxyErrorView};
use crate::metrics::{with_rpc_call_guard, Outcome, RespMetrics, Rpc, RpcCallGuard};
use crate::resp::{error_bytes, error_is_fatal, error_line, error_reply};
use crate::words::{lit_malformed_request, lit_resp_err, word_malformed_request};
use crate::MAX_REQUEST_SIZE;

verus! {

/// The most arguments that a command may have, its name included.
pub const MAX_ARGUMENTS: usize = 1048576;

/// What reading a buffer for one command gives.
#[derive(Clone, Debug, PartialEq, Eq)]
pub enum Framed {
    /// A whole command: its name and arguments, and the bytes that it took.
    Ready { arguments: Vec<Vec<u8>>, consumed: usize },
    /// The buffer holds the start of a command and more bytes are needed.
    NeedMore,
    /// The buffer does not start with a command.
    Malformed,
}

/// What a `Framed` holds.
pub enum FramedView {
    Ready { arguments: Seq<Seq<u8>>, consumed: nat },
    NeedMore,
    Malformed,
}

impl View for Framed {
    type V = FramedView;

    open spec fn view(&self) -> FramedView {
        match self {
            Framed::Ready { arguments, consumed } => FramedView::Ready {
                arguments: views(arguments@),
                consumed: *consumed as nat,
            },
            Framed::NeedMore => FramedView::NeedMore,
            Framed::Malformed => FramedView::Malformed,
        }
    }
}

/// What a line that starts with `mark` at index `at` of `buf` counts: the
/// line is `mark`, a numeral of at most `limit`, and a line terminator.
/// `Ready` holds the number with no arguments, and the index behind the line
/// as the bytes consumed.
pub open spec fn counted_line(buf: Seq<u8>, at: int, mark: u8, limit: nat) -> (FramedView, nat) {
    if at < 0 || at >= buf.len() {
        (FramedView::NeedMore, 0)
    } else if buf[at] != mark {
        (FramedView::Malformed, 0)
    } else {
        let eol = first_crlf_from(buf, at + 1);
        if eol >= buf.len() {
            if buf.len() - at >= MAX_REQUEST_SIZE {
                (FramedView::Malformed, 0)
            } else {
                (FramedView::NeedMore, 0)
            }
        } else {
            match decimal_u64(buf.subrange(at + 1, eol)) {
                Some(n) => if n <= limit {
                    (
                        FramedView::Ready {
                            arguments: Seq::<Seq<u8>>::empty(),
                            consumed: (eol + 2) as nat,
                        },
                        n as nat,
                    )
                } else {
                    (FramedView::Malformed, 0)
                },
                None => (FramedView::Malformed, 0),
            }
        }
    }
}

/// The `count` bulk strings that stand in `buf` from index `at` on, one
/// behind the other: each is `$`, its length, a line terminator, that many
/// bytes and a line terminator. `Ready` holds them and the index behind the
/// last.
pub open spec fn bulk_strings(buf: Seq<u8>, at: int, count: nat) -> FramedView
    decreases count,
{
    if count == 0 {
        FramedView::Ready { arguments: Seq::<Seq<u8>>::empty(), consumed: at as nat }
    } else {
        match bulk_strings(buf, at, (count - 1) as nat) {
            FramedView::Ready { arguments, consumed } => {
                match counted_line(buf, consumed as int, 36, MAX_REQUEST_SIZE as nat) {
                    (FramedView::Ready { consumed: data, .. }, n) => {
                        let start = data as int;
                        if buf.len() < start + n + 2 {
                            FramedView::NeedMore
                        } else if buf.subrange(start + n, start + n + 2) != crlf() {
                            FramedView::Malformed
                        } else {
                            FramedView::Ready {
                                arguments: arguments.push(buf.subrange(start, start + n)),
                                consumed: (start + n + 2) as nat,
                            }
                        }
                    },
                    (other, _) => other,
                }
            },
            other => other,
        }
    }
}

/// What the start of `buf` holds: a command is an array of one bulk string
/// or more, the first of which is its name.
pub open spec fn frame_spec(buf: Seq<u8>) -> FramedView {
    match counted_line(buf, 0, 42, MAX_ARGUMENTS as nat) {
        (FramedView::Ready { consumed, .. }, n) => if n == 0 {
            FramedView::Malformed
        } else {
            bulk_strings(buf, consumed as int, n)
        },
        (other, _) => other,
    }
}

/// The outcome of reading one counted line.
enum Counted {
    Ready { count: usize, next: usize },
    NeedMore,
    Malformed,
}

/// Reads the line that starts with `mark` at index `at` of `buf`.
fn read_counted_line(buf: &[u8], at: usize, mark: u8, limit: usize) -> (out: Counted)
    requires
        at <= buf@.len(),
        limit <= MAX_REQUEST_SIZE,
    ensures
        match out {
            Counted::Ready { count, next } => counted_line(buf@, at as int, mark, limit as nat)
                == (
                FramedView::Ready { arguments: Seq::<Seq<u8>>::empty(), consumed: next as nat },
                count as nat,
            ) && at < next <= buf@.len() && count <= limit,
            Counted::NeedMore => counted_line(buf@, at as int, mark, limit as nat).0
                == FramedView::NeedMore,
            Counted::Malformed => counted_line(buf@, at as int, mark, limit as nat).0
                == FramedView::Malformed,
        },
{
    let len = buf.len();
    if at >= len {
        return Counted::NeedMore;
    }
    if buf[at] != mark {
        return Counted::Malformed;
    }
    proof {
        lemma_first_crlf_from(buf@, at + 1);
    }
    match find_crlf(buf, at + 1) {
        None => {
            if len - at >= MAX_REQUEST_SIZE {
                Counted::Malformed
            } else {
                Counted::NeedMore
            }
        },
        Some(eol) => {
            let digits = vstd::slice::slice_subrange(buf, at + 1, eol);
            match parse_decimal(digits) {
                Some(n) => {
                    if n <= limit as u64 {
                        Counted::Ready { count: n as usize, next: eol + 2 }
                    } else {
                        Counted::Malformed
                    }
                },
                None => Counted::Malformed,
            }
        },
    }
}

/// Reads one command from the start of `buf`.
pub fn parse_command(buf: &[u8]) -> (out: Framed)
    ensures
        out@ == frame_spec(buf@),
        out matches Framed::Ready { arguments, consumed } ==> 0 < consumed <= buf@.len()
            && arguments@.len() >= 1,
{
    let len = buf.len();
    let (count, start) = match read_counted_line(buf, 0, 42, MAX_ARGUMENTS) {
        Counted::Ready { count, next } => (count, next),
        Counted::NeedMore => {
            return Framed::NeedMore;
        },
        Counted::Malformed => {
            return Framed::Malformed;
        },
    };
    if count == 0 {
        return Framed::Malformed;
    }
    let mut arguments: Vec<Vec<u8>> = Vec::new();
    let mut at: usize = start;
    let mut i: usize = 0;
    assert(views(arguments@) =~= Seq::<Seq<u8>>::empty());
    while i < count
        invariant
            i <= count,
            count > 0,
            counted_line(buf@, 0, 42, MAX_ARGUMENTS as nat) == (
                FramedView::Ready {
                    arguments: Seq::<Seq<u8>>::empty(),
                    consumed: start as nat,
                },
                count as nat,
            ),
            len == buf@.len(),
            0 < start <= at <= len,
            arguments@.len() == i,
            bulk_strings(buf@, start as int, i as nat) == (FramedView::Ready {
                arguments: views(arguments@),
                consumed: at as nat,
            }),
        decreases count - i,
    {
        let (n, data) = match read_counted_line(buf, at, 36, MAX_REQUEST_SIZE) {
            Counted::Ready { count, next } => (count, next),
            Counted::NeedMore => {
                proof {
                    lemma_bulk_strings_stop(buf@, start as int, (i + 1) as nat, count as nat);
                }
                return Framed::NeedMore;
            },
            Counted::Malformed => {
                proof {
                    lemma_bulk_strings_stop(buf@, start as int, (i + 1) as nat, count as nat);
                }
                return Framed::Malformed;
            },
        };
        if len - data < n + 2 {
            proof {
                lemma_bulk_strings_stop(buf@, start as int, (i + 1) as nat, count as nat);
            }
            return Framed::NeedMore;
        }
        if buf[data + n] != CR || buf[data + n + 1] != LF {
            proof {
                assert(buf@.subrange(data + n, data + n + 2)[0] == buf@[data + n]);
                assert(buf@.subrange(data + n, data + n + 2)[1] == buf@[data + n + 1]);
                lemma_bulk_strings_stop(buf@, start as int, (i + 1) as nat, count as nat);
            }
            return Framed::Malformed;
        }
        let ghost before = arguments@;
        arguments.push(copy_range(buf, data, data + n));
        proof {
            assert(buf@.subrange(data + n, data + n + 2) =~= crlf());
            assert(views(arguments@) =~= views(before).push(
                buf@.subrange(data as int, data + n),
            ));
        }
        at = data + n + 2;
        i += 1;
    }
    Framed::Ready { arguments, consumed: at }
}

/// Once a bulk string is missing or malformed, so is every longer list.
proof fn lemma_bulk_strings_stop(buf: Seq<u8>, at: int, reached: nat, count: nat)
    requires
        reached <= count,
        !(bulk_strings(buf, at, reached) is Ready),
    ensures
        bulk_strings(buf, at, count) == bulk_strings(buf, at, reached),
    decreases count - reached,
{
    if reached < count {
        lemma_bulk_strings_stop(buf, at, reached, (count - 1) as nat);
    }
}

/// What the connection does with a command that was read.
#[derive(Clone, Debug, PartialEq, Eq)]
pub enum Routed {
    /// Run the handler of this command.
    Serve(RespCommand),
    /// The command is not served: the error closes the connection.
    Refuse(ProxyError),
}

/// Names the handler for a command by its first argument, the name. A name
/// that is none of the served commands is refused as unsupported.
pub fn route(arguments: &Vec<Vec<u8>>) -> (routed: Routed)
    requires
        arguments@.len() >= 1,
    ensures
        match routed {
            Routed::Serve(c) => is_command(arguments@[0]@, c),
            Routed::Refuse(e) => e@ == (ProxyErrorView::UnsupportedCommand {
                command: arguments@[0]@,
            }) && forall|c: RespCommand| !is_command(arguments@[0]@, c),
        },
{
    match command_of(arguments[0].as_slice()) {
        Some(c) => Routed::Serve(c),
        None => {
            let command = copy_range(arguments[0].as_slice(), 0, arguments[0].len());
            assert(command@ =~= arguments@[0]@);
            Routed::Refuse(ProxyError::UnsupportedCommand { command })
        },
    }
}

/// What the connection writes after a command, and whether it closes then.
#[derive(Clone, Debug, PartialEq, Eq)]
pub struct Written {
    pub bytes: Vec<u8>,
    pub fatal: bool,
}

/// The line that tells a client that what it sent is no command.
pub open spec fn malformed_bytes() -> Seq<u8> {
    error_line(word_malformed_request())
}

/// What the connection writes for bytes that are no command: the error
/// line, after which it closes.
pub fn malformed_reply() -> (written: Written)
    ensures
        written.bytes@ == malformed_bytes(),
        written.fatal,
{
    let mut bytes = lit_resp_err();
    bytes.extend_from_slice(lit_malformed_request().as_slice());
    bytes.push(CR);
    bytes.push(LF);
    assert(bytes@ =~= malformed_bytes());
    Written { bytes, fatal: true }
}

/// What the connection writes after a handler: what the handler put into
/// `response_buf` where it succeeded; where it failed, nothing of that but
/// the line of its error.
pub fn finish_command(result: Result<(), ProxyError>, response_buf: Vec<u8>) -> (written: Written)
    ensures
        match result {
            Ok(_) => written.bytes@ == response_buf@ && !written.fatal,
            Err(e) => written.bytes@ == error_bytes(e@) && written.fatal == error_is_fatal(e@),
        },
{
    match result {
        Ok(_) => Written { bytes: response_buf, fatal: false },
        Err(e) => {
            let reply = error_reply(&e);
            Written { bytes: reply.bytes, fatal: reply.fatal }
        },
    }
}

/// What the connection took from its buffer.
#[derive(Clone, Debug, PartialEq, Eq)]
pub struct DrainedCommands {
    /// The commands read, in the order in which they stood.
    pub commands: Vec<Vec<Vec<u8>>>,
    /// The number of bytes that they took.
    pub consumed: usize,
    /// What follows them is no command and cannot become one.
    pub malformed: bool,
}

/// What a `DrainedCommands` holds.
pub struct DrainedCommandsView {
    pub commands: Seq<Seq<Seq<u8>>>,
    pub consumed: nat,
    pub malformed: bool,
}

/// The arguments that a list of commands holds.
pub open spec fn command_views(commands: Seq<Vec<Vec<u8>>>) -> Seq<Seq<Seq<u8>>> {
    commands.map_values(|c: Vec<Vec<u8>>| views(c@))
}

impl View for DrainedCommands {
    type V = DrainedCommandsView;

    open spec fn view(&self) -> DrainedCommandsView {
        DrainedCommandsView {
            commands: command_views(self.commands@),
            consumed: self.consumed as nat,
            malformed: self.malformed,
        }
    }
}

impl DrainedCommandsView {
    /// This, read behind `commands` that took `consumed` bytes.
    pub open spec fn after(self, commands: Seq<Seq<Seq<u8>>>, consumed: nat) -> DrainedCommandsView {
        DrainedCommandsView {
            commands: commands + self.commands,
            consumed: consumed + self.consumed,
            malformed: self.malformed,
        }
    }
}

/// What the connection takes from `buf`: every whole command at its start,
/// one after the other, up to the first bytes that are not a whole command.
/// A burst of commands is taken as a whole.
pub open spec fn drained_commands(buf: Seq<u8>) -> DrainedCommandsView
    decreases buf.len(),
{
    let nothing = Seq::<Seq<Seq<u8>>>::empty();
    match frame_spec(buf) {
        FramedView::Ready { arguments, consumed } => if 0 < consumed <= buf.len() {
            drained_commands(buf.skip(consumed as int)).after(seq![arguments], consumed)
        } else {
            DrainedCommandsView { commands: nothing, consumed: 0, malformed: true }
        },
        FramedView::NeedMore => DrainedCommandsView {
            commands: nothing,
            consumed: 0,
            malformed: false,
        },
        FramedView::Malformed => DrainedCommandsView {
            commands: nothing,
            consumed: 0,
            malformed: true,
        },
    }
}

/// Reads every whole command from the start of `buf`. Each of them has its
/// name as its first argument.
pub fn drain_commands(buf: &[u8]) -> (drained: DrainedCommands)
    ensures
        drained@ == drained_commands(buf@),
        drained.consumed <= buf@.len(),
        forall|i: int|
            0 <= i < drained.commands@.len() ==> (#[trigger] drained.commands@[i])@.len() >= 1,
{
    let mut commands: Vec<Vec<Vec<u8>>> = Vec::new();
    let mut consumed: usize = 0;
    let len = buf.len();
    proof {
        assert(buf@.skip(0) =~= buf@);
        let all = drained_commands(buf@);
        assert(command_views(commands@) + all.commands =~= all.commands);
    }
    loop
        invariant
            len == buf@.len(),
            consumed <= len,
            forall|i: int| 0 <= i < commands@.len() ==> (#[trigger] commands@[i])@.len() >= 1,
            drained_commands(buf@) == drained_commands(buf@.skip(consumed as int)).after(
                command_views(commands@),
                consumed as nat,
            ),
        decreases len - consumed,
    {
        let rest = vstd::slice::slice_subrange(buf, consumed, len);
        assert(rest@ =~= buf@.skip(consumed as int));
        proof {
            assert(command_views(commands@) + Seq::<Seq<Seq<u8>>>::empty() =~= command_views(
                commands@,
            ));
        }
        match parse_command(rest) {
            Framed::Ready { arguments, consumed: taken } => {
                let ghost before = commands@;
                let ghost view = views(arguments@);
                commands.push(arguments);
                proof {
                    assert(command_views(commands@) =~= command_views(before).push(view));
                    assert(rest@.skip(taken as int) =~= buf@.skip(consumed + taken));
                    let tail = drained_commands(rest@.skip(taken as int));
                    assert(drained_commands(buf@).commands =~= command_views(commands@)
                        + tail.commands);
                }
                consumed = consumed + taken;
            },
            Framed::NeedMore => {
                return DrainedCommands { commands, consumed, malformed: false };
            },
            Framed::Malformed => {
                return DrainedCommands { commands, consumed, malformed: true };
            },
        }
    }
}

/// What was filed for a command, and what the connection writes after it.
#[derive(Clone, Debug, PartialEq, Eq)]
pub struct Closed {
    pub written: Written,
    /// The call under which the latency is filed.
    pub rpc: Rpc,
    /// What to file for that call.
    pub observed: Vec<Outcome>,
}

/// The recorder of the call that `routed` asks for: that of the command
/// that is served, or that of the commands that are not.
pub fn recorder_for<M: RespMetrics>(proxy_metrics: &M, routed: &Routed) -> (recorder: RpcCallGuard)
    ensures
        recorder.rpc() == match routed {
            Routed::Serve(command) => Rpc::Resp(*command),
            Routed::Refuse(_) => Rpc::RespUnimplemented,
        },
        !recorder.recorded(),
        recorder.observed() == Seq::<Outcome>::empty(),
{
    match routed {
        Routed::Serve(command) => proxy_metrics.begin_resp(*command),
        Routed::Refuse(_) => proxy_metrics.begin_resp_unimplemented(),
    }
}

/// Closes the call of a command whose handler ended with `result`: the call
/// is filed as a success or as an error, and what the handler wrote, or the
/// line of its error, goes back.
pub fn close_command(recorder: RpcCallGuard, result: Result<(), ProxyError>, response_buf: Vec<u8>)
    -> (closed: Closed)
    ensures
        closed.rpc == recorder.rpc(),
        closed.observed@ == RpcCallGuard::after(
            recorder.recorded(),
            recorder.observed(),
            if result is Ok {
                Outcome::Success
            } else {
                Outcome::Error
            },
        ),
        match result {
            Ok(_) => closed.written.bytes@ == response_buf@ && !closed.written.fatal,
            Err(e) => closed.written.bytes@ == error_bytes(e@) && closed.written.fatal
                == error_is_fatal(e@),
        },
{
    let mut recorder = recorder;
    let result = with_rpc_call_guard(&mut recorder, result);
    let rpc = recorder.call();
    let observed = recorder.finish();
    Closed { written: finish_command(result, response_buf), rpc, observed }
}

} // verus!
