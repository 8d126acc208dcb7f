//! The law of the binary framing: a request that is framed as a packet is
//! read back unchanged.

use vstd::prelude::*;
use crate::binary::{
    be16, be32, packet_request, parse_binary_spec, BinaryParsedView, Envelope, HEADER_LEN,
    OP_DELETE, OP_DELETEQ, OP_GET, OP_GETK, OP_SET, OP_SETQ, REQUEST_MAGIC,
};
use crate::cache_backend::flag_bytes;
use crate::memcache::{valid_key, RequestView};
use crate::MAX_REQUEST_SIZE;

verus! {

/// The byte at place `i` of the four bytes of `n`, most significant first.
pub open spec fn byte_of(n: nat, i: int) -> u8 {
    if i == 0 {
        ((n / 16777216) % 256) as u8
    } else if i == 1 {
        ((n / 65536) % 256) as u8
    } else if i == 2 {
        ((n / 256) % 256) as u8
    } else {
        (n % 256) as u8
    }
}

/// The byte at place `i` of the header of a request packet with a body of
/// these lengths: the magic byte, the opcode, the length of the key in two
/// bytes, the length of the extras, three bytes that are 0, the length of
/// the body in four bytes, the opaque in four bytes, and eight bytes that
/// are 0.
pub open spec fn header_byte(envelope: Envelope, extras: nat, key: nat, value: nat, i: int) -> u8 {
    if i == 0 {
        REQUEST_MAGIC
    } else if i == 1 {
        envelope.opcode
    } else if i == 2 || i == 3 {
        byte_of(key, i)
    } else if i == 4 {
        extras as u8
    } else if 8 <= i < 12 {
        byte_of(extras + key + value, i - 8)
    } else if 12 <= i < 16 {
        byte_of(envelope.opaque as nat, i - 12)
    } else {
        0u8
    }
}

/// The header of a request packet with a body of these lengths.
pub open spec fn request_header(envelope: Envelope, extras: nat, key: nat, value: nat) -> Seq<u8> {
    Seq::new(HEADER_LEN as nat, |i: int| header_byte(envelope, extras, key, value, i))
}

/// Four bytes write the number that they were taken from.
proof fn lemma_byte_of(n: nat)
    requires
        n <= u32::MAX,
    ensures
        byte_of(n, 0) * 16777216 + byte_of(n, 1) * 65536 + byte_of(n, 2) * 256 + byte_of(n, 3)
            == n,
        n <= 65535 ==> byte_of(n, 2) * 256 + byte_of(n, 3) == n,
{
}

/// A request packet: the header and the three parts of the body.
pub open spec fn request_packet(envelope: Envelope, extras: Seq<u8>, key: Seq<u8>, value: Seq<u8>)
    -> Seq<u8> {
    request_header(envelope, extras.len(), key.len(), value.len()) + extras + key + value
}

/// The packet of a request.
pub open spec fn binary_request_bytes(envelope: Envelope, r: RequestView) -> Seq<u8> {
    let none = Seq::<u8>::empty();
    match r {
        RequestView::Get { keys } => request_packet(envelope, none, keys[0], none),
        RequestView::Store { key, value, flags, ttl, noreply } => request_packet(
            envelope,
            flag_bytes(flags) + flag_bytes(
                match ttl {
                    Some(t) => t,
                    None => 0,
                },
            ),
            key,
            value,
        ),
        RequestView::Delete { key, noreply } => request_packet(envelope, none, key, none),
        RequestView::Unsupported { verb } => request_packet(envelope, none, none, none),
    }
}

/// A request and an envelope that can go over the wire together and come
/// back: the opcode is that of the request, a `get` has one key, keys are
/// valid, a time to live is not 0, and the body is no longer than a request
/// may be.
pub open spec fn binary_well_formed(envelope: Envelope, r: RequestView) -> bool {
    match r {
        RequestView::Get { keys } => keys.len() == 1 && valid_key(keys[0]) && (envelope.opcode
            == OP_GET || envelope.opcode == OP_GETK),
        RequestView::Store { key, value, flags, ttl, noreply } => valid_key(key) && ttl != Some(
            0u32,
        ) && 8 + key.len() + value.len() <= MAX_REQUEST_SIZE && envelope.opcode == if noreply {
            OP_SETQ
        } else {
            OP_SET
        },
        RequestView::Delete { key, noreply } => valid_key(key) && envelope.opcode == if noreply {
            OP_DELETEQ
        } else {
            OP_DELETE
        },
        RequestView::Unsupported { verb } => verb == seq![envelope.opcode] && envelope.opcode
            != OP_GET && envelope.opcode != OP_GETK && envelope.opcode != OP_SET
            && envelope.opcode != OP_SETQ && envelope.opcode != OP_DELETE && envelope.opcode
            != OP_DELETEQ,
    }
}

/// What the parser reads from a packet whose parts are within bounds.
proof fn lemma_parse_packet(
    envelope: Envelope,
    extras: Seq<u8>,
    key: Seq<u8>,
    value: Seq<u8>,
    rest: Seq<u8>,
)
    requires
        extras.len() <= 255,
        key.len() <= 65535,
        extras.len() + key.len() + value.len() <= MAX_REQUEST_SIZE,
    ensures
        parse_binary_spec(request_packet(envelope, extras, key, value) + rest) == match packet_request(
            envelope.opcode,
            extras,
            key,
            value,
        ) {
            Some(request) => BinaryParsedView::Ready {
                request,
                envelope,
                consumed: request_packet(envelope, extras, key, value).len(),
            },
            None => BinaryParsedView::Malformed,
        },
{
    let header = request_header(envelope, extras.len(), key.len(), value.len());
    let buf = request_packet(envelope, extras, key, value) + rest;
    let total = extras.len() + key.len() + value.len();
    lemma_byte_of(key.len());
    lemma_byte_of(total);
    lemma_byte_of(envelope.opaque as nat);
    assert(header.len() == HEADER_LEN);
    assert(buf.len() == HEADER_LEN + total + rest.len());
    assert(buf[0] == header[0]);
    assert(buf[1] == header[1]);
    assert(buf[2] == header[2] && buf[3] == header[3]);
    assert(buf[4] == header[4]);
    assert(buf[8] == header[8] && buf[9] == header[9] && buf[10] == header[10] && buf[11]
        == header[11]);
    assert(buf[12] == header[12] && buf[13] == header[13] && buf[14] == header[14] && buf[15]
        == header[15]);
    assert(be16(buf, 2) == key.len());
    assert(buf[4] == extras.len());
    assert(be32(buf, 8) == total);
    assert(be32(buf, 12) == envelope.opaque);
    assert(buf.subrange(HEADER_LEN as int, HEADER_LEN + extras.len()) =~= extras);
    assert(buf.subrange(HEADER_LEN + extras.len(), HEADER_LEN + extras.len() + key.len())
        =~= key);
    assert(buf.subrange(HEADER_LEN + extras.len() + key.len(), HEADER_LEN + total) =~= value);
}

/// The extras of a `set` write its flags and its expiration.
proof fn lemma_set_extras(flags: u32, exptime: u32)
    ensures
        (flag_bytes(flags) + flag_bytes(exptime)).len() == 8,
        be32(flag_bytes(flags) + flag_bytes(exptime), 0) == flags,
        be32(flag_bytes(flags) + flag_bytes(exptime), 4) == exptime,
{
    let extras = flag_bytes(flags) + flag_bytes(exptime);
    assert(extras[0] == flag_bytes(flags)[0] && extras[1] == flag_bytes(flags)[1] && extras[2]
        == flag_bytes(flags)[2] && extras[3] == flag_bytes(flags)[3]);
    assert(extras[4] == flag_bytes(exptime)[0] && extras[5] == flag_bytes(exptime)[1]
        && extras[6] == flag_bytes(exptime)[2] && extras[7] == flag_bytes(exptime)[3]);
}

proof fn lemma_parse_binary_get(envelope: Envelope, keys: Seq<Seq<u8>>, rest: Seq<u8>)
    requires
        binary_well_formed(envelope, RequestView::Get { keys }),
    ensures
        parse_binary_spec(binary_request_bytes(envelope, RequestView::Get { keys }) + rest) == (
        BinaryParsedView::Ready {
            request: RequestView::Get { keys },
            envelope,
            consumed: binary_request_bytes(envelope, RequestView::Get { keys }).len(),
        }),
{
    let none = Seq::<u8>::empty();
    lemma_parse_packet(envelope, none, keys[0], none, rest);
    assert(keys =~= seq![keys[0]]);
}

proof fn lemma_parse_binary_set(
    envelope: Envelope,
    key: Seq<u8>,
    value: Seq<u8>,
    flags: u32,
    ttl: Option<u32>,
    noreply: bool,
    rest: Seq<u8>,
)
    requires
        binary_well_formed(envelope, RequestView::Store { key, value, flags, ttl, noreply }),
    ensures
        parse_binary_spec(
            binary_request_bytes(envelope, RequestView::Store { key, value, flags, ttl, noreply })
                + rest,
        ) == (BinaryParsedView::Ready {
            request: RequestView::Store { key, value, flags, ttl, noreply },
            envelope,
            consumed: binary_request_bytes(
                envelope,
                RequestView::Store { key, value, flags, ttl, noreply },
            ).len(),
        }),
{
    let exptime: u32 = match ttl {
        Some(t) => t,
        None => 0,
    };
    let extras = flag_bytes(flags) + flag_bytes(exptime);
    lemma_set_extras(flags, exptime);
    lemma_parse_packet(envelope, extras, key, value, rest);
}

proof fn lemma_parse_binary_delete(envelope: Envelope, key: Seq<u8>, noreply: bool, rest: Seq<u8>)
    requires
        binary_well_formed(envelope, RequestView::Delete { key, noreply }),
    ensures
        parse_binary_spec(
            binary_request_bytes(envelope, RequestView::Delete { key, noreply }) + rest,
        ) == (BinaryParsedView::Ready {
            request: RequestView::Delete { key, noreply },
            envelope,
            consumed: binary_request_bytes(envelope, RequestView::Delete { key, noreply }).len(),
        }),
{
    let none = Seq::<u8>::empty();
    lemma_parse_packet(envelope, none, key, none, rest);
}

proof fn lemma_parse_binary_unsupported(envelope: Envelope, verb: Seq<u8>, rest: Seq<u8>)
    requires
        binary_well_formed(envelope, RequestView::Unsupported { verb }),
    ensures
        parse_binary_spec(binary_request_bytes(envelope, RequestView::Unsupported { verb }) + rest)
            == (BinaryParsedView::Ready {
            request: RequestView::Unsupported { verb },
            envelope,
            consumed: binary_request_bytes(envelope, RequestView::Unsupported { verb }).len(),
        }),
{
    let none = Seq::<u8>::empty();
    lemma_parse_packet(envelope, none, none, none, rest);
}

/// Framing and parsing are inverse: a buffer that starts with the packet of
/// a well-formed request parses to that request, to its envelope and to the
/// length of the packet, whatever follows it in the buffer.
pub proof fn lemma_parse_binary_composed(envelope: Envelope, r: RequestView, rest: Seq<u8>)
    requires
        binary_well_formed(envelope, r),
    ensures
        parse_binary_spec(binary_request_bytes(envelope, r) + rest) == (BinaryParsedView::Ready {
            request: r,
            envelope,
            consumed: binary_request_bytes(envelope, r).len(),
        }),
{
    match r {
        RequestView::Get { keys } => lemma_parse_binary_get(envelope, keys, rest),
        RequestView::Store { key, value, flags, ttl, noreply } => lemma_parse_binary_set(
            envelope,
            key,
            value,
            flags,
            ttl,
            noreply,
            rest,
        ),
        RequestView::Delete { key, noreply } => lemma_parse_binary_delete(
            envelope,
            key,
            noreply,
            rest,
        ),
        RequestView::Unsupported { verb } => lemma_parse_binary_unsupported(envelope, verb, rest),
    }
}

} // verus!
