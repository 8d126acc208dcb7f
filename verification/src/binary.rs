//! The memcache binary protocol: a header of 24 bytes and a body of extras,
//! key and value.

use vstd::prelude::*;
use crate::bytes::copy_range;
use crate::cache_backend::flag_bytes;
use crate::memcache::{
    is_valid_key, valid_key, DeleteRequest, GetRequest, Request, RequestView, Response,
    ResponseView, SetRequest, ValueView,
};
use crate::MAX_REQUEST_SIZE;

verus! {

/// The first byte of a request.
pub const REQUEST_MAGIC: u8 = 128;

/// The first byte of a response.
pub const RESPONSE_MAGIC: u8 = 129;

/// The length of a header.
pub const HEADER_LEN: usize = 24;

/// The opcode of `get`.
pub const OP_GET: u8 = 0;

/// The opcode of `set`.
pub const OP_SET: u8 = 1;

/// The opcode of `delete`.
pub const OP_DELETE: u8 = 4;

/// The opcode of a `get` that wants the key in the answer.
pub const OP_GETK: u8 = 12;

/// The opcode of a `set` that wants no answer.
pub const OP_SETQ: u8 = 17;

/// The opcode of a `delete` that wants no answer.
pub const OP_DELETEQ: u8 = 20;

/// The status of success.
pub const STATUS_OK: u16 = 0;

/// The status of a key that was not found.
pub const STATUS_NOT_FOUND: u16 = 1;

/// The status of a request with invalid arguments.
pub const STATUS_INVALID: u16 = 4;

/// The status of an unknown command.
pub const STATUS_UNKNOWN_COMMAND: u16 = 129;

/// The status of an internal error.
pub const STATUS_INTERNAL_ERROR: u16 = 132;

/// What a binary request carries beside the request itself, and has to
/// come back in the response.
#[derive(Clone, Copy, Debug, PartialEq, Eq, Structural)]
pub struct Envelope {
    pub opcode: u8,
    pub opaque: u32,
}

/// The number that the two bytes at `at` write, most significant first.
pub open spec fn be16(b: Seq<u8>, at: int) -> int {
    b[at] * 256 + b[at + 1]
}

/// The number that the four bytes at `at` write, most significant first.
pub open spec fn be32(b: Seq<u8>, at: int) -> int {
    b[at] * 16777216 + b[at + 1] * 65536 + b[at + 2] * 256 + b[at + 3]
}

/// The two bytes of `n`, most significant first.
pub open spec fn bytes16(n: u16) -> Seq<u8> {
    seq![(n / 256) as u8, (n % 256) as u8]
}

/// The eight bytes of a number below 2^32, most significant first.
pub open spec fn bytes64(n: u32) -> Seq<u8> {
    seq![0u8, 0u8, 0u8, 0u8] + flag_bytes(n)
}

/// What reading a buffer for one binary request gives.
#[derive(Clone, Debug, PartialEq, Eq)]
pub enum BinaryParsed {
    Ready { request: Request, envelope: Envelope, consumed: usize },
    NeedMore,
    Malformed,
}

/// What a `BinaryParsed` holds.
pub enum BinaryParsedView {
    Ready { request: RequestView, envelope: Envelope, consumed: nat },
    NeedMore,
    Malformed,
}

impl View for BinaryParsed {
    type V = BinaryParsedView;

    open spec fn view(&self) -> BinaryParsedView {
        match self {
            BinaryParsed::Ready { request, envelope, consumed } => BinaryParsedView::Ready {
                request: request@,
                envelope: *envelope,
                consumed: *consumed as nat,
            },
            BinaryParsed::NeedMore => BinaryParsedView::NeedMore,
            BinaryParsed::Malformed => BinaryParsedView::Malformed,
        }
    }
}

/// The request that a whole packet holds, or `None` where its parts do not
/// fit its opcode. `extras`, `key` and `value` are the three parts of the
/// body. A `get` has a key only; a `set` has eight bytes of extras, the
/// flags and the expiration, and a key; a `delete` has a key only. Any other
/// opcode makes a request that is not served, named by its opcode.
pub open spec fn packet_request(opcode: u8, extras: Seq<u8>, key: Seq<u8>, value: Seq<u8>)
    -> Option<RequestView> {
    if opcode == OP_GET || opcode == OP_GETK {
        if extras.len() == 0 && value.len() == 0 && valid_key(key) {
            Some(RequestView::Get { keys: seq![key] })
        } else {
            None
        }
    } else if opcode == OP_SET || opcode == OP_SETQ {
        if extras.len() == 8 && valid_key(key) {
            Some(
                RequestView::Store {
                    key,
                    value,
                    flags: be32(extras, 0) as u32,
                    ttl: if be32(extras, 4) == 0 {
                        None
                    } else {
                        Some(be32(extras, 4) as u32)
                    },
                    noreply: opcode == OP_SETQ,
                },
            )
        } else {
            None
        }
    } else if opcode == OP_DELETE || opcode == OP_DELETEQ {
        if extras.len() == 0 && value.len() == 0 && valid_key(key) {
            Some(RequestView::Delete { key, noreply: opcode == OP_DELETEQ })
        } else {
            None
        }
    } else {
        Some(RequestView::Unsupported { verb: seq![opcode] })
    }
}

/// What the start of `buf` holds. A packet is a header of 24 bytes, which
/// starts with the magic byte and tells the lengths of the key, of the
/// extras and of the whole body, and then the body: extras, key, value.
pub open spec fn parse_binary_spec(buf: Seq<u8>) -> BinaryParsedView {
    if buf.len() >= 1 && buf[0] != REQUEST_MAGIC {
        BinaryParsedView::Malformed
    } else if buf.len() < HEADER_LEN {
        BinaryParsedView::NeedMore
    } else {
        let key_len = be16(buf, 2);
        let extras_len = buf[4] as int;
        let body_len = be32(buf, 8);
        if body_len > MAX_REQUEST_SIZE || extras_len + key_len > body_len {
            BinaryParsedView::Malformed
        } else if buf.len() < HEADER_LEN + body_len {
            BinaryParsedView::NeedMore
        } else {
            let extras = buf.subrange(HEADER_LEN as int, HEADER_LEN + extras_len);
            let key = buf.subrange(HEADER_LEN + extras_len, HEADER_LEN + extras_len + key_len);
            let value = buf.subrange(HEADER_LEN + extras_len + key_len, HEADER_LEN + body_len);
            match packet_request(buf[1], extras, key, value) {
                Some(request) => BinaryParsedView::Ready {
                    request,
                    envelope: Envelope { opcode: buf[1], opaque: be32(buf, 12) as u32 },
                    consumed: (HEADER_LEN + body_len) as nat,
                },
                None => BinaryParsedView::Malformed,
            }
        }
    }
}

/// The number that the four bytes at `at` write.
fn read_be32(buf: &[u8], at: usize) -> (n: u32)
    requires
        at + 4 <= buf@.len(),
    ensures
        n == be32(buf@, at as int),
{
    let b0 = buf[at] as u32;
    let b1 = buf[at + 1] as u32;
    let b2 = buf[at + 2] as u32;
    let b3 = buf[at + 3] as u32;
    b0 * 16777216 + b1 * 65536 + b2 * 256 + b3
}

/// Reads one request from the start of `buf`.
pub fn parse_binary(buf: &[u8]) -> (out: BinaryParsed)
    ensures
        out@ == parse_binary_spec(buf@),
{
    let len = buf.len();
    if len >= 1 && buf[0] != REQUEST_MAGIC {
        return BinaryParsed::Malformed;
    }
    if len < HEADER_LEN {
        return BinaryParsed::NeedMore;
    }
    let opcode = buf[1];
    let key_len: usize = (buf[2] as usize) * 256 + (buf[3] as usize);
    let extras_len: usize = buf[4] as usize;
    let body = read_be32(buf, 8);
    if body > MAX_REQUEST_SIZE as u32 || extras_len + key_len > body as usize {
        return BinaryParsed::Malformed;
    }
    let body_len = body as usize;
    if len - HEADER_LEN < body_len {
        return BinaryParsed::NeedMore;
    }
    let key_at = HEADER_LEN + extras_len;
    let value_at = key_at + key_len;
    let end = HEADER_LEN + body_len;
    let opaque = read_be32(buf, 12);
    let envelope = Envelope { opcode, opaque };
    let ghost extras = buf@.subrange(HEADER_LEN as int, key_at as int);
    let ghost key = buf@.subrange(key_at as int, value_at as int);
    let ghost value = buf@.subrange(value_at as int, end as int);
    proof {
        assert(key_len == be16(buf@, 2));
        assert(body == be32(buf@, 8));
        assert(opaque == be32(buf@, 12));
        assert(extras.len() == extras_len);
        assert(key.len() == key_len);
        assert(value.len() == end - value_at);
    }
    let key_ok = is_valid_key(vstd::slice::slice_subrange(buf, key_at, value_at));
    if opcode == OP_GET || opcode == OP_GETK {
        if extras_len == 0 && value_at == end && key_ok {
            let only = copy_range(buf, key_at, value_at);
            let keys: Vec<Vec<u8>> = vec![only];
            assert(crate::bytes::views(keys@) =~= seq![key]);
            assert(packet_request(opcode, extras, key, value) == Some(
                RequestView::Get { keys: seq![key] },
            ));
            BinaryParsed::Ready {
                request: Request::Get(GetRequest { keys }),
                envelope,
                consumed: end,
            }
        } else {
            BinaryParsed::Malformed
        }
    } else if opcode == OP_SET || opcode == OP_SETQ {
        if extras_len == 8 && key_ok {
            let flags = read_be32(buf, HEADER_LEN);
            let exptime = read_be32(buf, HEADER_LEN + 4);
            assert(be32(extras, 0) == be32(buf@, HEADER_LEN as int));
            assert(be32(extras, 4) == be32(buf@, HEADER_LEN + 4));
            let ttl = if exptime == 0 {
                None
            } else {
                Some(exptime)
            };
            BinaryParsed::Ready {
                request: Request::Store(
                    SetRequest {
                        key: copy_range(buf, key_at, value_at),
                        value: copy_range(buf, value_at, end),
                        flags,
                        ttl,
                        noreply: opcode == OP_SETQ,
                    },
                ),
                envelope,
                consumed: end,
            }
        } else {
            BinaryParsed::Malformed
        }
    } else if opcode == OP_DELETE || opcode == OP_DELETEQ {
        if extras_len == 0 && value_at == end && key_ok {
            BinaryParsed::Ready {
                request: Request::Delete(
                    DeleteRequest {
                        key: copy_range(buf, key_at, value_at),
                        noreply: opcode == OP_DELETEQ,
                    },
                ),
                envelope,
                consumed: end,
            }
        } else {
            BinaryParsed::Malformed
        }
    } else {
        let verb: Vec<u8> = vec![opcode];
        assert(verb@ =~= seq![opcode]);
        assert(packet_request(opcode, extras, key, value) == Some(
            RequestView::Unsupported { verb: seq![opcode] },
        ));
        BinaryParsed::Ready { request: Request::Unsupported { verb }, envelope, consumed: end }
    }
}

/// A response packet: the header, which repeats the opcode and the opaque
/// of the request and tells the status and the lengths, and then the body.
pub open spec fn packet(
    envelope: Envelope,
    status: u16,
    extras: Seq<u8>,
    key: Seq<u8>,
    value: Seq<u8>,
) -> Seq<u8> {
    seq![RESPONSE_MAGIC, envelope.opcode] + bytes16(key.len() as u16) + seq![
        extras.len() as u8,
        0u8,
    ] + bytes16(status) + flag_bytes((extras.len() + key.len() + value.len()) as u32)
        + flag_bytes(envelope.opaque) + bytes64(0) + extras + key + value
}

/// The parts of a body fit a packet: a key of less than 2^16 bytes, extras
/// of less than 2^8, and a body of less than 2^32 in all.
pub open spec fn fits_packet(extras: Seq<u8>, key: Seq<u8>, value: Seq<u8>) -> bool {
    key.len() <= u16::MAX && extras.len() <= u8::MAX && extras.len() + key.len() + value.len()
        <= u32::MAX
}

/// The packet with these parts where they fit one, and otherwise a packet
/// that reports an internal error and has no body.
pub open spec fn checked_packet(
    envelope: Envelope,
    status: u16,
    extras: Seq<u8>,
    key: Seq<u8>,
    value: Seq<u8>,
) -> Seq<u8> {
    if fits_packet(extras, key, value) {
        packet(envelope, status, extras, key, value)
    } else {
        packet(
            envelope,
            STATUS_INTERNAL_ERROR,
            Seq::<u8>::empty(),
            Seq::<u8>::empty(),
            Seq::<u8>::empty(),
        )
    }
}

/// The packet that hands out one value: its flags as extras, its key where
/// the request asked for it, and its data.
pub open spec fn value_packet(envelope: Envelope, v: ValueView) -> Seq<u8> {
    checked_packet(
        envelope,
        STATUS_OK,
        flag_bytes(v.flags),
        if envelope.opcode == OP_GETK {
            v.key
        } else {
            Seq::<u8>::empty()
        },
        v.data,
    )
}

/// The packets of `values`, one after the other.
pub open spec fn value_packets(envelope: Envelope, values: Seq<ValueView>) -> Seq<u8>
    decreases values.len(),
{
    if values.len() == 0 {
        Seq::<u8>::empty()
    } else {
        value_packets(envelope, values.drop_last()) + value_packet(envelope, values.last())
    }
}

/// The text that goes with a status that has no message of its own.
pub open spec fn status_text(status: u16) -> Seq<u8> {
    if status == STATUS_NOT_FOUND {
        seq![78u8, 111, 116, 32, 102, 111, 117, 110, 100]
    } else {
        seq![85u8, 110, 107, 110, 111, 119, 110, 32, 99, 111, 109, 109, 97, 110, 100]
    }
}

/// The bytes that answer a binary request with `response`: nothing where
/// the client asked for no answer; a packet for each value found; a packet
/// with a status otherwise, which for a failure holds its message.
pub open spec fn binary_response_bytes(envelope: Envelope, response: ResponseView) -> Seq<u8> {
    let none = Seq::<u8>::empty();
    match response {
        ResponseView::Values(values) => value_packets(envelope, values),
        ResponseView::NotFound { noreply } => if noreply {
            none
        } else {
            checked_packet(envelope, STATUS_NOT_FOUND, none, none, status_text(STATUS_NOT_FOUND))
        },
        ResponseView::Stored { noreply } => if noreply {
            none
        } else {
            checked_packet(envelope, STATUS_OK, none, none, none)
        },
        ResponseView::Deleted { noreply } => if noreply {
            none
        } else {
            checked_packet(envelope, STATUS_OK, none, none, none)
        },
        ResponseView::Error => checked_packet(
            envelope,
            STATUS_UNKNOWN_COMMAND,
            none,
            none,
            status_text(STATUS_UNKNOWN_COMMAND),
        ),
        ResponseView::ClientError(message) => checked_packet(envelope, STATUS_INVALID, none, none, message),
        ResponseView::ServerError(message) => checked_packet(
            envelope,
            STATUS_INTERNAL_ERROR,
            none,
            none,
            message,
        ),
    }
}

/// Appends the four bytes of `n`.
fn push_be32(out: &mut Vec<u8>, n: u32)
    ensures
        final(out)@ == old(out)@ + flag_bytes(n),
{
    out.push((n / 16777216) as u8);
    out.push(((n / 65536) % 256) as u8);
    out.push(((n / 256) % 256) as u8);
    out.push((n % 256) as u8);
    assert(final(out)@ =~= old(out)@ + flag_bytes(n));
}

/// Appends the two bytes of `n`.
fn push_be16(out: &mut Vec<u8>, n: u16)
    ensures
        final(out)@ == old(out)@ + bytes16(n),
{
    out.push((n / 256) as u8);
    out.push((n % 256) as u8);
    assert(final(out)@ =~= old(out)@ + bytes16(n));
}

/// Appends one response packet, or the packet of an internal error where
/// the parts do not fit one.
fn push_checked_packet(
    out: &mut Vec<u8>,
    envelope: Envelope,
    status: u16,
    extras: &[u8],
    key: &[u8],
    value: &[u8],
)
    ensures
        final(out)@ == old(out)@ + checked_packet(envelope, status, extras@, key@, value@),
{
    let limit: usize = 4294967295;
    let fits = key.len() <= 65535 && extras.len() <= 255 && value.len() <= limit && extras.len()
        + key.len() <= limit - value.len();
    if fits {
        push_packet(out, envelope, status, extras, key, value);
    } else {
        let none: Vec<u8> = Vec::new();
        assert(none@ =~= Seq::<u8>::empty());
        push_packet(
            out,
            envelope,
            STATUS_INTERNAL_ERROR,
            none.as_slice(),
            none.as_slice(),
            none.as_slice(),
        );
    }
}

/// Appends one response packet.
fn push_packet(
    out: &mut Vec<u8>,
    envelope: Envelope,
    status: u16,
    extras: &[u8],
    key: &[u8],
    value: &[u8],
)
    requires
        fits_packet(extras@, key@, value@),
    ensures
        final(out)@ == old(out)@ + packet(envelope, status, extras@, key@, value@),
{
    let ghost before = out@;
    out.push(RESPONSE_MAGIC);
    out.push(envelope.opcode);
    push_be16(out, key.len() as u16);
    out.push(extras.len() as u8);
    out.push(0);
    push_be16(out, status);
    let ghost head = seq![RESPONSE_MAGIC, envelope.opcode] + bytes16(key@.len() as u16) + seq![
        extras@.len() as u8,
        0u8,
    ] + bytes16(status);
    assert(out@ =~= before + head);
    let total: u32 = (extras.len() + key.len() + value.len()) as u32;
    push_be32(out, total);
    push_be32(out, envelope.opaque);
    push_be32(out, 0);
    push_be32(out, 0);
    assert(flag_bytes(0) + flag_bytes(0) =~= bytes64(0));
    let ghost header = head + flag_bytes(total) + flag_bytes(envelope.opaque) + bytes64(0);
    assert(out@ =~= before + header);
    out.extend_from_slice(extras);
    out.extend_from_slice(key);
    out.extend_from_slice(value);
    assert(out@ =~= before + (header + extras@ + key@ + value@));
}

/// The bytes of the text that goes with `status`.
fn status_message(status: u16) -> (text: Vec<u8>)
    ensures
        text@ == status_text(status),
{
    if status == STATUS_NOT_FOUND {
        vec![78, 111, 116, 32, 102, 111, 117, 110, 100]
    } else {
        vec![85, 110, 107, 110, 111, 119, 110, 32, 99, 111, 109, 109, 97, 110, 100]
    }
}

/// Appends to `out` the bytes that answer a binary request with `response`.
pub fn compose_binary_response(envelope: Envelope, response: &Response, out: &mut Vec<u8>)
    ensures
        final(out)@ == old(out)@ + binary_response_bytes(envelope, response@),
{
    let none: Vec<u8> = Vec::new();
    let ghost before = out@;
    match response {
        Response::Values(values) => {
            let ghost all = crate::memcache::value_views(values@);
            let mut i: usize = 0;
            assert(before + value_packets(envelope, all.subrange(0, 0)) =~= before);
            while i < values.len()
                invariant
                    i <= values@.len(),
                    all == crate::memcache::value_views(values@),
                    none@.len() == 0,
                    out@ == before + value_packets(envelope, all.subrange(0, i as int)),
                decreases values@.len() - i,
            {
                let v = &values[i];
                assert(all[i as int] == v@);
                let mut flags: Vec<u8> = Vec::new();
                push_be32(&mut flags, v.flags);
                assert(flags@ =~= flag_bytes(v.flags));
                if envelope.opcode == OP_GETK {
                    push_checked_packet(
                        out,
                        envelope,
                        STATUS_OK,
                        flags.as_slice(),
                        v.key.as_slice(),
                        v.data.as_slice(),
                    );
                } else {
                    assert(none@ =~= Seq::<u8>::empty());
                    push_checked_packet(
                        out,
                        envelope,
                        STATUS_OK,
                        flags.as_slice(),
                        none.as_slice(),
                        v.data.as_slice(),
                    );
                }
                proof {
                    let next = all.subrange(0, i + 1);
                    assert(next.drop_last() =~= all.subrange(0, i as int));
                    assert(next.last() == v@);
                    assert(out@ =~= before + value_packets(envelope, next));
                }
                i += 1;
            }
            assert(all.subrange(0, i as int) =~= all);
        },
        Response::NotFound { noreply } => {
            if !*noreply {
                let text = status_message(STATUS_NOT_FOUND);
                push_checked_packet(
                    out,
                    envelope,
                    STATUS_NOT_FOUND,
                    none.as_slice(),
                    none.as_slice(),
                    text.as_slice(),
                );
            }
            assert(none@ =~= Seq::<u8>::empty());
            assert(out@ =~= before + binary_response_bytes(envelope, response@));
        },
        Response::Stored { noreply } => {
            if !*noreply {
                push_checked_packet(
                    out,
                    envelope,
                    STATUS_OK,
                    none.as_slice(),
                    none.as_slice(),
                    none.as_slice(),
                );
            }
            assert(none@ =~= Seq::<u8>::empty());
            assert(out@ =~= before + binary_response_bytes(envelope, response@));
        },
        Response::Deleted { noreply } => {
            if !*noreply {
                push_checked_packet(
                    out,
                    envelope,
                    STATUS_OK,
                    none.as_slice(),
                    none.as_slice(),
                    none.as_slice(),
                );
            }
            assert(none@ =~= Seq::<u8>::empty());
            assert(out@ =~= before + binary_response_bytes(envelope, response@));
        },
        Response::Error => {
            let text = status_message(STATUS_UNKNOWN_COMMAND);
            push_checked_packet(
                out,
                envelope,
                STATUS_UNKNOWN_COMMAND,
                none.as_slice(),
                none.as_slice(),
                text.as_slice(),
            );
            assert(none@ =~= Seq::<u8>::empty());
        },
        Response::ClientError(message) => {
            assert(none@ =~= Seq::<u8>::empty());
            push_checked_packet(
                out,
                envelope,
                STATUS_INVALID,
                none.as_slice(),
                none.as_slice(),
                message.as_slice(),
            );
        },
        Response::ServerError(message) => {
            assert(none@ =~= Seq::<u8>::empty());
            push_checked_packet(
                out,
                envelope,
                STATUS_INTERNAL_ERROR,
                none.as_slice(),
                none.as_slice(),
                message.as_slice(),
            );
        },
    }
}

} // verus!
