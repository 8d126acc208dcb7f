//! Framing of memcache requests, and the law that ties it to the parser:
//! what is framed here is read back unchanged.

use vstd::prelude::*;
use crate::bytes::{
    crlf, crlf_at, decimal_digits, decimal_u32, decimal_u64, fields, fields_from,
    first_byte_from, first_crlf, lemma_decimal_digits, lemma_first_byte_from,
    lemma_first_crlf_is, push_decimal, CR, LF, SP,
};
use crate::cache_backend::{announced_length, line_text};
use crate::memcache::{
    is_verb, parse_request_spec, set_header_ok, valid_key, value_frame, DeleteRequest,
    ParsedView, Request, RequestView, SetRequest, ValueView,
};
use crate::words::{
    lit_delete, lit_get, lit_noreply, lit_set, word_delete, word_get, word_noreply, word_set,
    word_value,
};
use crate::MAX_REQUEST_SIZE;

verus! {

/// Each of `keys` behind a space.
pub open spec fn spaced(keys: Seq<Seq<u8>>) -> Seq<u8>
    decreases keys.len(),
{
    if keys.len() == 0 {
        Seq::<u8>::empty()
    } else {
        spaced(keys.drop_last()) + seq![SP] + keys.last()
    }
}

/// The option `noreply` behind a space, where it is asked for.
pub open spec fn noreply_suffix(noreply: bool) -> Seq<u8> {
    if noreply {
        seq![SP] + word_noreply()
    } else {
        Seq::<u8>::empty()
    }
}

/// The first line of a request, without its terminator.
pub open spec fn request_line(r: RequestView) -> Seq<u8> {
    match r {
        RequestView::Get { keys } => word_get() + spaced(keys),
        RequestView::Store { key, value, flags, ttl, noreply } => word_set() + seq![SP] + key
            + seq![SP] + decimal_digits(flags as nat) + seq![SP] + decimal_digits(
            match ttl {
                Some(t) => t as nat,
                None => 0,
            },
        ) + seq![SP] + decimal_digits(value.len()) + noreply_suffix(noreply),
        RequestView::Delete { key, noreply } => word_delete() + seq![SP] + key + noreply_suffix(
            noreply,
        ),
        RequestView::Unsupported { verb } => verb,
    }
}

/// What follows the first line of a request: for a `set` the data and a line
/// terminator, nothing otherwise.
pub open spec fn request_body(r: RequestView) -> Seq<u8> {
    match r {
        RequestView::Store { key, value, flags, ttl, noreply } => value + crlf(),
        _ => Seq::<u8>::empty(),
    }
}

/// The bytes of a request on the wire.
pub open spec fn request_bytes(r: RequestView) -> Seq<u8> {
    request_line(r) + crlf() + request_body(r)
}

/// A request that can go over the wire and come back: its keys are valid, a
/// time to live is not 0 (on the wire 0 stands for none), the data is no
/// longer than a request may be, and a command that is not served has a name
/// other than those that are.
pub open spec fn well_formed(r: RequestView) -> bool {
    match r {
        RequestView::Get { keys } => keys.len() >= 1 && forall|i: int|
            0 <= i < keys.len() ==> valid_key(#[trigger] keys[i]),
        RequestView::Store { key, value, flags, ttl, noreply } => valid_key(key) && ttl != Some(
            0u32,
        ) && value.len() <= MAX_REQUEST_SIZE,
        RequestView::Delete { key, noreply } => valid_key(key),
        RequestView::Unsupported { verb } => is_verb(verb) && verb != word_get() && verb
            != word_set() && verb != word_delete(),
    }
}

/// Appends a space and `field`.
fn push_field(out: &mut Vec<u8>, field: &[u8])
    ensures
        final(out)@ == old(out)@ + seq![SP] + field@,
{
    out.push(SP);
    out.extend_from_slice(field);
    assert(final(out)@ =~= old(out)@ + seq![SP] + field@);
}

/// Appends a space and the numeral of `n`.
fn push_number(out: &mut Vec<u8>, n: u64)
    ensures
        final(out)@ == old(out)@ + seq![SP] + decimal_digits(n as nat),
{
    out.push(SP);
    push_decimal(out, n);
}

/// Appends the option `noreply` behind a space, where it is asked for.
fn push_noreply(out: &mut Vec<u8>, noreply: bool)
    ensures
        final(out)@ == old(out)@ + noreply_suffix(noreply),
{
    if noreply {
        out.push(SP);
        out.extend_from_slice(lit_noreply().as_slice());
        assert(final(out)@ =~= old(out)@ + noreply_suffix(noreply));
    } else {
        assert(final(out)@ =~= old(out)@ + noreply_suffix(noreply));
    }
}

/// Appends a line terminator.
fn push_end_of_line(out: &mut Vec<u8>)
    ensures
        final(out)@ == old(out)@ + crlf(),
{
    out.push(CR);
    out.push(LF);
    assert(final(out)@ =~= old(out)@ + crlf());
}

/// Appends the first line of a `get`, without its terminator.
fn compose_get_line(keys: &Vec<Vec<u8>>, out: &mut Vec<u8>)
    ensures
        final(out)@ == old(out)@ + (word_get() + spaced(crate::bytes::views(keys@))),
{
    let ghost before = out@;
    out.extend_from_slice(lit_get().as_slice());
    let ghost all = crate::bytes::views(keys@);
    assert(spaced(all.subrange(0, 0)) =~= Seq::<u8>::empty());
    assert(out@ =~= before + (word_get() + spaced(all.subrange(0, 0))));
    let mut i: usize = 0;
    while i < keys.len()
        invariant
            i <= keys@.len(),
            all == crate::bytes::views(keys@),
            out@ == before + (word_get() + spaced(all.subrange(0, i as int))),
        decreases keys@.len() - i,
    {
        let ghost prev = out@;
        push_field(out, keys[i].as_slice());
        proof {
            let next = all.subrange(0, i + 1);
            assert(next.drop_last() =~= all.subrange(0, i as int));
            assert(next.last() == keys@[i as int]@);
            assert(spaced(next) == spaced(all.subrange(0, i as int)) + seq![SP] + keys@[i as int]@);
            assert(out@ =~= before + (word_get() + spaced(next)));
        }
        i += 1;
    }
    assert(all.subrange(0, i as int) =~= all);
}

/// Appends the first line of a `set`, without its terminator.
fn compose_set_line(set: &SetRequest, out: &mut Vec<u8>)
    ensures
        final(out)@ == old(out)@ + request_line(set@),
{
    let ghost before = out@;
    out.extend_from_slice(lit_set().as_slice());
    push_field(out, set.key.as_slice());
    let ghost l1 = word_set() + seq![SP] + set.key@;
    assert(out@ =~= before + l1);
    push_number(out, set.flags as u64);
    let ghost l2 = l1 + seq![SP] + decimal_digits(set.flags as nat);
    assert(out@ =~= before + l2);
    let exptime: u32 = match set.ttl {
        Some(t) => t,
        None => 0,
    };
    push_number(out, exptime as u64);
    let ghost l3 = l2 + seq![SP] + decimal_digits(exptime as nat);
    assert(out@ =~= before + l3);
    push_number(out, set.value.len() as u64);
    let ghost l4 = l3 + seq![SP] + decimal_digits(set.value@.len());
    assert(out@ =~= before + l4);
    push_noreply(out, set.noreply);
    assert(out@ =~= before + (l4 + noreply_suffix(set.noreply)));
    assert(l4 + noreply_suffix(set.noreply) == request_line(set@));
}

/// Appends the first line of a `delete`, without its terminator.
fn compose_delete_line(delete: &DeleteRequest, out: &mut Vec<u8>)
    ensures
        final(out)@ == old(out)@ + request_line(delete@),
{
    let ghost before = out@;
    out.extend_from_slice(lit_delete().as_slice());
    push_field(out, delete.key.as_slice());
    let ghost l1 = word_delete() + seq![SP] + delete.key@;
    assert(out@ =~= before + l1);
    push_noreply(out, delete.noreply);
    assert(out@ =~= before + (l1 + noreply_suffix(delete.noreply)));
}

/// Appends the bytes of `request` to `out`.
pub fn compose_request(request: &Request, out: &mut Vec<u8>)
    ensures
        final(out)@ == old(out)@ + request_bytes(request@),
{
    let ghost before = out@;
    match request {
        Request::Get(get) => {
            compose_get_line(&get.keys, out);
            push_end_of_line(out);
            assert(out@ =~= before + request_bytes(request@));
        },
        Request::Store(set) => {
            compose_set_line(set, out);
            push_end_of_line(out);
            out.extend_from_slice(set.value.as_slice());
            push_end_of_line(out);
            assert(out@ =~= before + request_bytes(request@));
        },
        Request::Delete(delete) => {
            compose_delete_line(delete, out);
            push_end_of_line(out);
            assert(out@ =~= before + request_bytes(request@));
        },
        Request::Unsupported { verb } => {
            out.extend_from_slice(verb.as_slice());
            push_end_of_line(out);
            assert(out@ =~= before + request_bytes(request@));
        },
    }
}

/// No byte of `s` is `b`.
pub open spec fn free_of(s: Seq<u8>, b: u8) -> bool {
    forall|i: int| 0 <= i < s.len() ==> #[trigger] s[i] != b
}

/// A byte string that holds neither a space nor a carriage return: it can
/// stand as one field of a line.
pub open spec fn is_field(s: Seq<u8>) -> bool {
    free_of(s, SP) && free_of(s, CR)
}

proof fn lemma_free_of_concat(a: Seq<u8>, b: Seq<u8>, x: u8)
    requires
        free_of(a, x),
        free_of(b, x),
    ensures
        free_of(a + b, x),
{
    assert forall|i: int| 0 <= i < (a + b).len() implies #[trigger] (a + b)[i] != x by {
        if i < a.len() {
            assert((a + b)[i] == a[i]);
        } else {
            assert((a + b)[i] == b[i - a.len()]);
        }
    }
}

proof fn lemma_key_is_field(k: Seq<u8>)
    requires
        valid_key(k),
    ensures
        is_field(k),
{
}

proof fn lemma_numeral_is_field(n: nat)
    ensures
        is_field(decimal_digits(n)),
{
    lemma_decimal_digits(n);
    let d = decimal_digits(n);
    assert forall|i: int| 0 <= i < d.len() implies #[trigger] d[i] != SP && d[i] != CR by {
        assert(crate::bytes::is_digit(d[i]));
    }
}

proof fn lemma_verb_is_field(v: Seq<u8>)
    requires
        is_verb(v),
    ensures
        is_field(v),
{
}

proof fn lemma_words_are_fields()
    ensures
        is_field(word_get()),
        is_field(word_set()),
        is_field(word_delete()),
        is_field(word_noreply()),
{
}

/// Where no byte at or after `from` is `b`, the search runs to the end.
proof fn lemma_first_byte_none(s: Seq<u8>, b: u8, from: int)
    requires
        0 <= from <= s.len(),
        forall|j: int| from <= j < s.len() ==> s[j] != b,
    ensures
        first_byte_from(s, b, from) == s.len(),
    decreases s.len() - from,
{
    if from < s.len() {
        lemma_first_byte_none(s, b, from + 1);
    }
}

/// The search in `line + tail` from inside `line` finds what the search in
/// `line` finds, and goes on at the seam where that finds nothing.
proof fn lemma_first_byte_append(line: Seq<u8>, tail: Seq<u8>, b: u8, from: int)
    requires
        0 <= from <= line.len(),
    ensures
        first_byte_from(line + tail, b, from) == if first_byte_from(line, b, from) < line.len() {
            first_byte_from(line, b, from)
        } else {
            first_byte_from(line + tail, b, line.len() as int)
        },
    decreases line.len() - from,
{
    if from < line.len() {
        assert((line + tail)[from] == line[from]);
        if line[from] != b {
            lemma_first_byte_append(line, tail, b, from + 1);
        }
    }
}

/// A line that is one field has that field alone.
proof fn lemma_fields_single(word: Seq<u8>)
    requires
        free_of(word, SP),
    ensures
        fields(word) == seq![word],
{
    lemma_first_byte_none(word, SP, 0);
    assert(word.subrange(0, word.len() as int) =~= word);
}

/// A space and a field behind a line add that field to its fields.
proof fn lemma_fields_push(line: Seq<u8>, t: Seq<u8>, from: int)
    requires
        0 <= from <= line.len(),
        free_of(t, SP),
    ensures
        fields_from(line + seq![SP] + t, from) == fields_from(line, from).push(t),
    decreases line.len() - from,
{
    let tail = seq![SP] + t;
    let whole = line + seq![SP] + t;
    let n = line.len() as int;
    assert(whole =~= line + tail);
    let i = first_byte_from(line, SP, from);
    lemma_first_byte_from(line, SP, from);
    lemma_first_byte_append(line, tail, SP, from);
    assert(whole[line.len() as int] == SP);
    if i < line.len() {
        assert(first_byte_from(whole, SP, from) == i);
        assert(whole.subrange(from, i) =~= line.subrange(from, i));
        lemma_fields_push(line, t, i + 1);
        assert(fields_from(whole, from) =~= fields_from(line, from).push(t));
    } else {
        assert(first_byte_from(whole, SP, from) == line.len());
        assert(whole.subrange(from, line.len() as int) =~= line.subrange(from, line.len() as int));
        assert forall|j: int| line.len() + 1 <= j < whole.len() implies whole[j] != SP by {
            assert(whole[j] == t[j - line.len() - 1]);
        }
        lemma_first_byte_none(whole, SP, n + 1);
        assert(whole.subrange(n + 1, whole.len() as int) =~= t);
        assert(fields_from(whole, n + 1) =~= seq![t]);
        assert(fields_from(whole, from) =~= fields_from(line, from).push(t));
    }
}

/// The fields of a word and keys behind spaces are the word and the keys.
proof fn lemma_fields_spaced(word: Seq<u8>, keys: Seq<Seq<u8>>)
    requires
        is_field(word),
        forall|i: int| 0 <= i < keys.len() ==> is_field(#[trigger] keys[i]),
    ensures
        fields(word + spaced(keys)) == seq![word] + keys,
        free_of(word + spaced(keys), CR),
    decreases keys.len(),
{
    if keys.len() == 0 {
        assert(word + spaced(keys) =~= word);
        lemma_fields_single(word);
        assert(seq![word] + keys =~= seq![word]);
    } else {
        let front = keys.drop_last();
        lemma_fields_spaced(word, front);
        let line = word + spaced(front);
        assert(word + spaced(keys) =~= line + seq![SP] + keys.last());
        lemma_fields_push(line, keys.last(), 0);
        assert((seq![word] + front).push(keys.last()) =~= seq![word] + keys);
        lemma_free_of_concat(line, seq![SP], CR);
        lemma_free_of_concat(line + seq![SP], keys.last(), CR);
    }
}

/// In a buffer that starts with a line free of carriage returns and its
/// terminator, the first terminator is that one.
proof fn lemma_first_crlf_after(line: Seq<u8>, tail: Seq<u8>)
    requires
        free_of(line, CR),
    ensures
        first_crlf(line + crlf() + tail) == Some(line.len() as int),
        (line + crlf() + tail).subrange(0, line.len() as int) == line,
{
    let buf = line + crlf() + tail;
    assert(buf[line.len() as int] == CR);
    assert(buf[line.len() as int + 1] == LF);
    assert forall|j: int| 0 <= j < line.len() implies !crlf_at(buf, j) by {
        assert(buf[j] == line[j]);
    }
    lemma_first_crlf_is(buf, 0, line.len() as int);
    assert(buf.subrange(0, line.len() as int) =~= line);
}

proof fn lemma_parse_composed_get(keys: Seq<Seq<u8>>, rest: Seq<u8>)
    requires
        well_formed(RequestView::Get { keys }),
    ensures
        parse_request_spec(request_bytes(RequestView::Get { keys }) + rest) == (ParsedView::Ready {
            request: RequestView::Get { keys },
            consumed: request_bytes(RequestView::Get { keys }).len(),
        }),
{
    let r = RequestView::Get { keys };
    let line = request_line(r);
    lemma_words_are_fields();
    assert forall|i: int| 0 <= i < keys.len() implies is_field(#[trigger] keys[i]) by {
        lemma_key_is_field(keys[i]);
    }
    lemma_fields_spaced(word_get(), keys);
    let buf = request_bytes(r) + rest;
    assert(buf =~= line + crlf() + rest);
    lemma_first_crlf_after(line, rest);
    let f = fields(line);
    assert(f =~= seq![word_get()] + keys);
    assert(f.skip(1) =~= keys);
    assert forall|i: int| 1 <= i < f.len() implies valid_key(#[trigger] f[i]) by {
        assert(f[i] == keys[i - 1]);
    }
    assert(request_bytes(r).len() == line.len() + 2);
}

proof fn lemma_fields_noreply(line: Seq<u8>, noreply: bool)
    requires
        free_of(line, CR),
    ensures
        fields(line + noreply_suffix(noreply)) == if noreply {
            fields(line).push(word_noreply())
        } else {
            fields(line)
        },
        free_of(line + noreply_suffix(noreply), CR),
{
    lemma_words_are_fields();
    if noreply {
        assert(line + noreply_suffix(noreply) =~= line + seq![SP] + word_noreply());
        lemma_fields_push(line, word_noreply(), 0);
        lemma_free_of_concat(line, seq![SP], CR);
        lemma_free_of_concat(line + seq![SP], word_noreply(), CR);
    } else {
        assert(line + noreply_suffix(noreply) =~= line);
    }
}

/// A space and a field behind a line free of carriage returns.
proof fn lemma_line_push(line: Seq<u8>, t: Seq<u8>)
    requires
        free_of(line, CR),
        is_field(t),
    ensures
        fields(line + seq![SP] + t) == fields(line).push(t),
        free_of(line + seq![SP] + t, CR),
{
    lemma_fields_push(line, t, 0);
    lemma_free_of_concat(line, seq![SP], CR);
    lemma_free_of_concat(line + seq![SP], t, CR);
}

proof fn lemma_parse_composed_delete(key: Seq<u8>, noreply: bool, rest: Seq<u8>)
    requires
        valid_key(key),
    ensures
        parse_request_spec(request_bytes(RequestView::Delete { key, noreply }) + rest) == (
        ParsedView::Ready {
            request: RequestView::Delete { key, noreply },
            consumed: request_bytes(RequestView::Delete { key, noreply }).len(),
        }),
{
    let r = RequestView::Delete { key, noreply };
    let line = request_line(r);
    lemma_words_are_fields();
    lemma_key_is_field(key);
    lemma_fields_single(word_delete());
    lemma_line_push(word_delete(), key);
    let l1 = word_delete() + seq![SP] + key;
    lemma_fields_noreply(l1, noreply);
    let buf = request_bytes(r) + rest;
    assert(buf =~= line + crlf() + rest);
    lemma_first_crlf_after(line, rest);
    let f = fields(line);
    assert(f =~= if noreply {
        seq![word_delete(), key, word_noreply()]
    } else {
        seq![word_delete(), key]
    });
    assert(word_delete().len() != word_get().len());
    assert(word_delete().len() != word_set().len());
    assert(request_bytes(r).len() == line.len() + 2);
}

proof fn lemma_parse_composed_set(
    key: Seq<u8>,
    value: Seq<u8>,
    flags: u32,
    ttl: Option<u32>,
    noreply: bool,
    rest: Seq<u8>,
)
    requires
        well_formed(RequestView::Store { key, value, flags, ttl, noreply }),
    ensures
        parse_request_spec(
            request_bytes(RequestView::Store { key, value, flags, ttl, noreply }) + rest,
        ) == (ParsedView::Ready {
            request: RequestView::Store { key, value, flags, ttl, noreply },
            consumed: request_bytes(RequestView::Store { key, value, flags, ttl, noreply }).len(),
        }),
{
    let r = RequestView::Store { key, value, flags, ttl, noreply };
    let line = request_line(r);
    let exptime: nat = match ttl {
        Some(t) => t as nat,
        None => 0,
    };
    let dflags = decimal_digits(flags as nat);
    let dexp = decimal_digits(exptime);
    let dlen = decimal_digits(value.len());
    lemma_words_are_fields();
    lemma_key_is_field(key);
    lemma_numeral_is_field(flags as nat);
    lemma_numeral_is_field(exptime);
    lemma_numeral_is_field(value.len());
    lemma_decimal_digits(flags as nat);
    lemma_decimal_digits(exptime);
    lemma_decimal_digits(value.len());
    lemma_fields_single(word_set());
    lemma_line_push(word_set(), key);
    let l1 = word_set() + seq![SP] + key;
    lemma_line_push(l1, dflags);
    let l2 = l1 + seq![SP] + dflags;
    lemma_line_push(l2, dexp);
    let l3 = l2 + seq![SP] + dexp;
    lemma_line_push(l3, dlen);
    let l4 = l3 + seq![SP] + dlen;
    lemma_fields_noreply(l4, noreply);
    assert(line == l4 + noreply_suffix(noreply));
    let body = value + crlf();
    let buf = request_bytes(r) + rest;
    assert(buf =~= line + crlf() + (body + rest));
    lemma_first_crlf_after(line, body + rest);
    let f = fields(line);
    assert(f =~= if noreply {
        seq![word_set(), key, dflags, dexp, dlen, word_noreply()]
    } else {
        seq![word_set(), key, dflags, dexp, dlen]
    });
    assert(word_set()[0] != word_get()[0]);
    assert(decimal_u32(f[2]) == Some(flags));
    assert(decimal_u32(f[3]) == Some(exptime as u32));
    assert(decimal_u64(f[4]) == Some(value.len() as u64));
    assert(set_header_ok(f));
    let eol = line.len() as int;
    let start = eol + 2;
    let n = value.len() as int;
    assert(buf.len() == start + n + 2 + rest.len());
    assert(buf.subrange(start + n, start + n + 2) =~= crlf());
    assert(buf.subrange(start, start + n) =~= value);
    assert(request_bytes(r).len() == start + n + 2);
}

proof fn lemma_parse_composed_unsupported(verb: Seq<u8>, rest: Seq<u8>)
    requires
        well_formed(RequestView::Unsupported { verb }),
    ensures
        parse_request_spec(request_bytes(RequestView::Unsupported { verb }) + rest) == (
        ParsedView::Ready {
            request: RequestView::Unsupported { verb },
            consumed: request_bytes(RequestView::Unsupported { verb }).len(),
        }),
{
    let r = RequestView::Unsupported { verb };
    lemma_verb_is_field(verb);
    lemma_fields_single(verb);
    let buf = request_bytes(r) + rest;
    assert(buf =~= verb + crlf() + rest);
    lemma_first_crlf_after(verb, rest);
    assert(request_bytes(r).len() == verb.len() + 2);
}

/// Framing and parsing are inverse: a buffer that starts with the bytes of a
/// well-formed request parses to that request and to the number of its
/// bytes, whatever follows it in the buffer.
pub proof fn lemma_parse_composed(r: RequestView, rest: Seq<u8>)
    requires
        well_formed(r),
    ensures
        parse_request_spec(request_bytes(r) + rest) == (ParsedView::Ready {
            request: r,
            consumed: request_bytes(r).len(),
        }),
{
    match r {
        RequestView::Get { keys } => lemma_parse_composed_get(keys, rest),
        RequestView::Store { key, value, flags, ttl, noreply } => lemma_parse_composed_set(
            key,
            value,
            flags,
            ttl,
            noreply,
            rest,
        ),
        RequestView::Delete { key, noreply } => lemma_parse_composed_delete(key, noreply, rest),
        RequestView::Unsupported { verb } => lemma_parse_composed_unsupported(verb, rest),
    }
}

/// A value frame is read back by the reader of backend answers: the first
/// line of the frame of a value announces the length of its data, for every
/// value whose key can stand as a field and whose data is no longer than a
/// request may be, whatever follows the line.
pub proof fn lemma_value_frame_announces_length(v: ValueView, rest: Seq<u8>)
    requires
        is_field(v.key),
        v.data.len() <= MAX_REQUEST_SIZE,
    ensures
        announced_length(value_frame(v) + rest) == Ok::<Option<nat>, Seq<u8>>(Some(v.data.len())),
{
    let dflags = decimal_digits(v.flags as nat);
    let dlen = decimal_digits(v.data.len());
    lemma_numeral_is_field(v.flags as nat);
    lemma_numeral_is_field(v.data.len());
    lemma_decimal_digits(v.data.len());
    assert(is_field(word_value()));
    lemma_fields_single(word_value());
    lemma_line_push(word_value(), v.key);
    let l1 = word_value() + seq![SP] + v.key;
    lemma_line_push(l1, dflags);
    let l2 = l1 + seq![SP] + dflags;
    lemma_line_push(l2, dlen);
    let header = l2 + seq![SP] + dlen;
    let tail = v.data + crlf() + rest;
    let buf = value_frame(v) + rest;
    assert(buf =~= header + crlf() + tail);
    lemma_first_crlf_after(header, tail);
    assert(line_text(buf) == header);
    let f = fields(header);
    assert(f =~= seq![word_value(), v.key, dflags, dlen]);
    assert(decimal_u64(f[3]) == Some(v.data.len() as u64));
}

} // verus!
