//! The memcache text protocol: requests, responses, and their framing.

use vstd::prelude::*;
use crate::MAX_REQUEST_SIZE;
use crate::bytes::{
    bytes_eq, copy_range, crlf, decimal_digits, decimal_u32, decimal_u64, fields, find_crlf,
    first_crlf, parse_decimal, parse_decimal_u32, push_decimal, split_fields, views, CR, LF, SP,
};
use crate::words::{
    lit_delete, lit_get, lit_noreply, lit_set, word_delete, word_get, word_noreply, word_set,
};
use crate::words::{
    lit_client_error, lit_deleted, lit_end, lit_error, lit_not_found, lit_server_error,
    lit_stored, lit_value, word_client_error, word_deleted, word_end, word_error,
    word_not_found, word_server_error, word_stored, word_value,
};

verus! {

/// The longest key that the protocol admits.
pub const MAX_KEY_LEN: usize = 250;

/// A stored item as a `get` hands it out.
#[derive(Clone, Debug, PartialEq, Eq)]
pub struct Value {
    pub key: Vec<u8>,
    pub flags: u32,
    pub data: Vec<u8>,
}

/// What a `Value` holds.
pub struct ValueView {
    pub key: Seq<u8>,
    pub flags: u32,
    pub data: Seq<u8>,
}

impl View for Value {
    type V = ValueView;

    open spec fn view(&self) -> ValueView {
        ValueView { key: self.key@, flags: self.flags, data: self.data@ }
    }
}

/// A `get` of one or more keys.
#[derive(Clone, Debug, PartialEq, Eq)]
pub struct GetRequest {
    pub keys: Vec<Vec<u8>>,
}

/// A `set` of one key.
#[derive(Clone, Debug, PartialEq, Eq)]
pub struct SetRequest {
    pub key: Vec<u8>,
    pub value: Vec<u8>,
    pub flags: u32,
    /// Seconds to live as the client gave them; `None` where it gave none.
    pub ttl: Option<u32>,
    pub noreply: bool,
}

/// A `delete` of one key.
#[derive(Clone, Debug, PartialEq, Eq)]
pub struct DeleteRequest {
    pub key: Vec<u8>,
    pub noreply: bool,
}

/// A request of a client.
#[derive(Clone, Debug, PartialEq, Eq)]
pub enum Request {
    Get(GetRequest),
    /// A `set`.
    Store(SetRequest),
    Delete(DeleteRequest),
    /// A command that is framed well but not served.
    Unsupported { verb: Vec<u8> },
}

/// What a `Request` holds.
pub enum RequestView {
    Get { keys: Seq<Seq<u8>> },
    Store { key: Seq<u8>, value: Seq<u8>, flags: u32, ttl: Option<u32>, noreply: bool },
    Delete { key: Seq<u8>, noreply: bool },
    Unsupported { verb: Seq<u8> },
}

impl View for GetRequest {
    type V = RequestView;

    open spec fn view(&self) -> RequestView {
        RequestView::Get { keys: views(self.keys@) }
    }
}

impl View for SetRequest {
    type V = RequestView;

    open spec fn view(&self) -> RequestView {
        RequestView::Store {
            key: self.key@,
            value: self.value@,
            flags: self.flags,
            ttl: self.ttl,
            noreply: self.noreply,
        }
    }
}

impl View for DeleteRequest {
    type V = RequestView;

    open spec fn view(&self) -> RequestView {
        RequestView::Delete { key: self.key@, noreply: self.noreply }
    }
}

impl View for Request {
    type V = RequestView;

    open spec fn view(&self) -> RequestView {
        match self {
            Request::Get(g) => g@,
            Request::Store(s) => s@,
            Request::Delete(d) => d@,
            Request::Unsupported { verb } => RequestView::Unsupported { verb: verb@ },
        }
    }
}

/// A response to a client.
#[derive(Clone, Debug, PartialEq, Eq)]
pub enum Response {
    /// The items found, in the order in which they go out.
    Values(Vec<Value>),
    NotFound { noreply: bool },
    Stored { noreply: bool },
    Deleted { noreply: bool },
    Error,
    ClientError(Vec<u8>),
    ServerError(Vec<u8>),
}

/// What a `Response` holds.
pub enum ResponseView {
    Values(Seq<ValueView>),
    NotFound { noreply: bool },
    Stored { noreply: bool },
    Deleted { noreply: bool },
    Error,
    ClientError(Seq<u8>),
    ServerError(Seq<u8>),
}

/// What a list of values holds.
pub open spec fn value_views(values: Seq<Value>) -> Seq<ValueView> {
    values.map_values(|v: Value| v@)
}

impl View for Response {
    type V = ResponseView;

    open spec fn view(&self) -> ResponseView {
        match self {
            Response::Values(values) => ResponseView::Values(value_views(values@)),
            Response::NotFound { noreply } => ResponseView::NotFound { noreply: *noreply },
            Response::Stored { noreply } => ResponseView::Stored { noreply: *noreply },
            Response::Deleted { noreply } => ResponseView::Deleted { noreply: *noreply },
            Response::Error => ResponseView::Error,
            Response::ClientError(message) => ResponseView::ClientError(message@),
            Response::ServerError(message) => ResponseView::ServerError(message@),
        }
    }
}

impl ResponseView {
    /// The response reports a failure.
    pub open spec fn is_error(self) -> bool {
        self is Error || self is ClientError || self is ServerError
    }
}

impl Response {
    /// A response that reports a failure of the server.
    pub fn server_error(message: Vec<u8>) -> (response: Response)
        ensures
            response@ == ResponseView::ServerError(message@),
    {
        Response::ServerError(message)
    }

    /// A response that reports a fault of the client.
    pub fn client_error(message: Vec<u8>) -> (response: Response)
        ensures
            response@ == ResponseView::ClientError(message@),
    {
        Response::ClientError(message)
    }

    /// Whether the response reports a failure.
    pub fn is_error(&self) -> (failed: bool)
        ensures
            failed == self@.is_error(),
    {
        match self {
            Response::Error => true,
            Response::ClientError(_) => true,
            Response::ServerError(_) => true,
            _ => false,
        }
    }
}

/// One value frame: `VALUE <key> <flags> <length>`, the data, each closed by
/// a line terminator.
pub open spec fn value_frame(v: ValueView) -> Seq<u8> {
    word_value() + seq![SP] + v.key + seq![SP] + decimal_digits(v.flags as nat) + seq![SP]
        + decimal_digits(v.data.len()) + crlf() + v.data + crlf()
}

/// The value frames of `values`, one after the other.
pub open spec fn value_frames(values: Seq<ValueView>) -> Seq<u8>
    decreases values.len(),
{
    if values.len() == 0 {
        Seq::<u8>::empty()
    } else {
        value_frames(values.drop_last()) + value_frame(values.last())
    }
}

/// A line that holds `word`, a space and `message`.
pub open spec fn error_line(word: Seq<u8>, message: Seq<u8>) -> Seq<u8> {
    word + seq![SP] + message + crlf()
}

/// The bytes that answer `request` with `response`: nothing where the client
/// asked for no reply; for a `get` the value frames and `END`, also where
/// nothing was found; a status line otherwise.
pub open spec fn response_bytes(request: RequestView, response: ResponseView) -> Seq<u8> {
    match response {
        ResponseView::Values(values) => value_frames(values) + word_end() + crlf(),
        ResponseView::NotFound { noreply } => if noreply {
            Seq::<u8>::empty()
        } else if request is Get {
            word_end() + crlf()
        } else {
            word_not_found() + crlf()
        },
        ResponseView::Stored { noreply } => if noreply {
            Seq::<u8>::empty()
        } else {
            word_stored() + crlf()
        },
        ResponseView::Deleted { noreply } => if noreply {
            Seq::<u8>::empty()
        } else {
            word_deleted() + crlf()
        },
        ResponseView::Error => word_error() + crlf(),
        ResponseView::ClientError(message) => error_line(word_client_error(), message),
        ResponseView::ServerError(message) => error_line(word_server_error(), message),
    }
}

/// Appends a line terminator.
fn push_crlf(out: &mut Vec<u8>)
    ensures
        final(out)@ == old(out)@ + crlf(),
{
    out.push(CR);
    out.push(LF);
    assert(final(out)@ =~= old(out)@ + crlf());
}

/// Appends `word` and a line terminator.
fn push_line(out: &mut Vec<u8>, word: Vec<u8>)
    ensures
        final(out)@ == old(out)@ + (word@ + crlf()),
{
    out.extend_from_slice(word.as_slice());
    push_crlf(out);
    assert(final(out)@ =~= old(out)@ + (word@ + crlf()));
}

/// Appends `word`, a space, `message` and a line terminator.
fn push_error_line(out: &mut Vec<u8>, word: Vec<u8>, message: &Vec<u8>)
    ensures
        final(out)@ == old(out)@ + error_line(word@, message@),
{
    out.extend_from_slice(word.as_slice());
    out.push(SP);
    out.extend_from_slice(message.as_slice());
    push_crlf(out);
    assert(final(out)@ =~= old(out)@ + error_line(word@, message@));
}

/// Appends the frame of one value.
fn push_value_frame(out: &mut Vec<u8>, v: &Value)
    ensures
        final(out)@ == old(out)@ + value_frame(v@),
{
    let word = lit_value();
    out.extend_from_slice(word.as_slice());
    out.push(SP);
    out.extend_from_slice(v.key.as_slice());
    out.push(SP);
    push_decimal(out, v.flags as u64);
    out.push(SP);
    push_decimal(out, v.data.len() as u64);
    push_crlf(out);
    out.extend_from_slice(v.data.as_slice());
    push_crlf(out);
    assert(final(out)@ =~= old(out)@ + value_frame(v@));
}

/// Appends to `out` the bytes that answer `request` with `response`.
pub fn compose_response(request: &Request, response: &Response, out: &mut Vec<u8>)
    ensures
        final(out)@ == old(out)@ + response_bytes(request@, response@),
{
    match response {
        Response::Values(values) => {
            let ghost before = out@;
            let mut i: usize = 0;
            while i < values.len()
                invariant
                    i <= values@.len(),
                    out@ == before + value_frames(value_views(values@).subrange(0, i as int)),
                decreases values@.len() - i,
            {
                push_value_frame(out, &values[i]);
                proof {
                    let all = value_views(values@);
                    let next = all.subrange(0, i + 1);
                    assert(next.drop_last() =~= all.subrange(0, i as int));
                    assert(next.last() == values@[i as int]@);
                    assert(out@ =~= before + value_frames(next));
                }
                i += 1;
            }
            assert(value_views(values@).subrange(0, i as int) =~= value_views(values@));
            push_line(out, lit_end());
            assert(final(out)@ =~= old(out)@ + response_bytes(request@, response@));
        },
        Response::NotFound { noreply } => {
            if !*noreply {
                match request {
                    Request::Get(_) => push_line(out, lit_end()),
                    _ => push_line(out, lit_not_found()),
                }
            }
            assert(final(out)@ =~= old(out)@ + response_bytes(request@, response@));
        },
        Response::Stored { noreply } => {
            if !*noreply {
                push_line(out, lit_stored());
            }
            assert(final(out)@ =~= old(out)@ + response_bytes(request@, response@));
        },
        Response::Deleted { noreply } => {
            if !*noreply {
                push_line(out, lit_deleted());
            }
            assert(final(out)@ =~= old(out)@ + response_bytes(request@, response@));
        },
        Response::Error => {
            push_line(out, lit_error());
        },
        Response::ClientError(message) => {
            push_error_line(out, lit_client_error(), message);
        },
        Response::ServerError(message) => {
            push_error_line(out, lit_server_error(), message);
        },
    }
}

/// What reading a buffer for one request gives.
#[derive(Clone, Debug, PartialEq, Eq)]
pub enum Parsed {
    /// A whole request, and the number of bytes that it took.
    Ready { request: Request, consumed: usize },
    /// The buffer holds the start of a request and more bytes are needed.
    NeedMore,
    /// The buffer does not start with a request.
    Malformed,
}

/// What a `Parsed` holds.
pub enum ParsedView {
    Ready { request: RequestView, consumed: nat },
    NeedMore,
    Malformed,
}

impl View for Parsed {
    type V = ParsedView;

    open spec fn view(&self) -> ParsedView {
        match self {
            Parsed::Ready { request, consumed } => ParsedView::Ready {
                request: request@,
                consumed: *consumed as nat,
            },
            Parsed::NeedMore => ParsedView::NeedMore,
            Parsed::Malformed => ParsedView::Malformed,
        }
    }
}

/// `k` can be a key: 1 to 250 bytes, none of them a space or a control byte.
pub open spec fn valid_key(k: Seq<u8>) -> bool {
    1 <= k.len() <= MAX_KEY_LEN && forall|i: int|
        0 <= i < k.len() ==> 32 < #[trigger] k[i] && k[i] != 127
}

/// `v` can be the name of a command: lower-case letters and underscores.
pub open spec fn is_verb(v: Seq<u8>) -> bool {
    v.len() >= 1 && forall|i: int|
        0 <= i < v.len() ==> (97 <= #[trigger] v[i] <= 122 || v[i] == 95)
}

/// Whether a command of `n` fields ends with the option `noreply`: `None`
/// where `f` has neither `n` fields nor `n` fields and that option.
pub open spec fn noreply_after(f: Seq<Seq<u8>>, n: int) -> Option<bool> {
    if f.len() == n {
        Some(false)
    } else if f.len() == n + 1 && f[n] == word_noreply() {
        Some(true)
    } else {
        None
    }
}

/// `get <key>+`: one key at least, each of them valid.
pub open spec fn parse_get(f: Seq<Seq<u8>>, eol: int) -> ParsedView {
    if f.len() >= 2 && forall|i: int| 1 <= i < f.len() ==> valid_key(#[trigger] f[i]) {
        ParsedView::Ready {
            request: RequestView::Get { keys: f.skip(1) },
            consumed: (eol + 2) as nat,
        }
    } else {
        ParsedView::Malformed
    }
}

/// `delete <key> [noreply]`.
pub open spec fn parse_delete(f: Seq<Seq<u8>>, eol: int) -> ParsedView {
    if noreply_after(f, 2) is Some && valid_key(f[1]) {
        ParsedView::Ready {
            request: RequestView::Delete { key: f[1], noreply: noreply_after(f, 2).unwrap() },
            consumed: (eol + 2) as nat,
        }
    } else {
        ParsedView::Malformed
    }
}

/// The header `set <key> <flags> <exptime> <length> [noreply]` is well
/// formed: a valid key, two numerals of 32 bits, and a length that a request
/// may have.
pub open spec fn set_header_ok(f: Seq<Seq<u8>>) -> bool {
    &&& noreply_after(f, 5) is Some
    &&& valid_key(f[1])
    &&& decimal_u32(f[2]) is Some
    &&& decimal_u32(f[3]) is Some
    &&& decimal_u64(f[4]) is Some
    &&& decimal_u64(f[4]).unwrap() <= MAX_REQUEST_SIZE
}

/// `set <key> <flags> <exptime> <length> [noreply]`, then `length` bytes of
/// data and a line terminator. An `exptime` of 0 is no time to live.
pub open spec fn parse_set(buf: Seq<u8>, f: Seq<Seq<u8>>, eol: int) -> ParsedView {
    if !set_header_ok(f) {
        ParsedView::Malformed
    } else {
        let n = decimal_u64(f[4]).unwrap() as int;
        let start = eol + 2;
        let exptime = decimal_u32(f[3]).unwrap();
        if buf.len() < start + n + 2 {
            ParsedView::NeedMore
        } else if buf.subrange(start + n, start + n + 2) != crlf() {
            ParsedView::Malformed
        } else {
            ParsedView::Ready {
                request: RequestView::Store {
                    key: f[1],
                    value: buf.subrange(start, start + n),
                    flags: decimal_u32(f[2]).unwrap(),
                    ttl: if exptime == 0 {
                        None
                    } else {
                        Some(exptime)
                    },
                    noreply: noreply_after(f, 5).unwrap(),
                },
                consumed: (start + n + 2) as nat,
            }
        }
    }
}

/// What the start of `buf` holds. Without a whole first line more bytes are
/// needed, unless the buffer has already outgrown the largest request. The
/// first field of the line names the command: `get`, `set` and `delete` are
/// read in full; any other name makes a request that is not served, which
/// takes the line; anything else is malformed.
pub open spec fn parse_request_spec(buf: Seq<u8>) -> ParsedView {
    match first_crlf(buf) {
        None => if buf.len() >= MAX_REQUEST_SIZE {
            ParsedView::Malformed
        } else {
            ParsedView::NeedMore
        },
        Some(eol) => {
            let f = fields(buf.subrange(0, eol));
            if f[0] == word_get() {
                parse_get(f, eol)
            } else if f[0] == word_set() {
                parse_set(buf, f, eol)
            } else if f[0] == word_delete() {
                parse_delete(f, eol)
            } else if is_verb(f[0]) {
                ParsedView::Ready {
                    request: RequestView::Unsupported { verb: f[0] },
                    consumed: (eol + 2) as nat,
                }
            } else {
                ParsedView::Malformed
            }
        },
    }
}

/// Whether `k` can be a key.
pub fn is_valid_key(k: &[u8]) -> (ok: bool)
    ensures
        ok == valid_key(k@),
{
    if k.len() < 1 || k.len() > MAX_KEY_LEN {
        return false;
    }
    let mut i: usize = 0;
    while i < k.len()
        invariant
            i <= k@.len(),
            forall|j: int| 0 <= j < i ==> 32 < #[trigger] k@[j] && k@[j] != 127,
        decreases k@.len() - i,
    {
        if k[i] <= 32 || k[i] == 127 {
            return false;
        }
        i += 1;
    }
    true
}

/// Whether `v` can be the name of a command.
fn is_command_name(v: &[u8]) -> (ok: bool)
    ensures
        ok == is_verb(v@),
{
    if v.len() < 1 {
        return false;
    }
    let mut i: usize = 0;
    while i < v.len()
        invariant
            i <= v@.len(),
            forall|j: int| 0 <= j < i ==> (97 <= #[trigger] v@[j] <= 122 || v@[j] == 95),
        decreases v@.len() - i,
    {
        if !((97 <= v[i] && v[i] <= 122) || v[i] == 95) {
            return false;
        }
        i += 1;
    }
    true
}

/// Whether a command of `n` fields ends with the option `noreply`.
fn read_noreply(f: &Vec<Vec<u8>>, n: usize) -> (noreply: Option<bool>)
    requires
        n < usize::MAX,
    ensures
        noreply == noreply_after(views(f@), n as int),
{
    if f.len() == n {
        Some(false)
    } else if f.len() == n + 1 {
        let word = lit_noreply();
        if bytes_eq(f[n].as_slice(), word.as_slice()) {
            Some(true)
        } else {
            None
        }
    } else {
        None
    }
}

/// Reads the keys of a `get` from its fields.
fn read_get(f: Vec<Vec<u8>>, eol: usize) -> (out: Parsed)
    requires
        f@.len() >= 1,
        eol + 2 <= usize::MAX,
    ensures
        out@ == parse_get(views(f@), eol as int),
{
    let ghost fv = views(f@);
    if f.len() < 2 {
        return Parsed::Malformed;
    }
    let mut i: usize = 1;
    while i < f.len()
        invariant
            1 <= i <= f@.len(),
            fv == views(f@),
            forall|j: int| 1 <= j < i ==> valid_key(#[trigger] fv[j]),
        decreases f@.len() - i,
    {
        if !is_valid_key(f[i].as_slice()) {
            assert(!valid_key(fv[i as int]));
            return Parsed::Malformed;
        }
        i += 1;
    }
    let mut keys = f;
    keys.remove(0);
    assert(views(keys@) =~= fv.skip(1));
    Parsed::Ready { request: Request::Get(GetRequest { keys }), consumed: eol + 2 }
}

/// Reads a `delete` from its fields.
fn read_delete(f: Vec<Vec<u8>>, eol: usize) -> (out: Parsed)
    requires
        f@.len() >= 1,
        eol + 2 <= usize::MAX,
    ensures
        out@ == parse_delete(views(f@), eol as int),
{
    match read_noreply(&f, 2) {
        Some(noreply) => {
            if !is_valid_key(f[1].as_slice()) {
                return Parsed::Malformed;
            }
            let key = copy_range(f[1].as_slice(), 0, f[1].len());
            assert(key@ =~= views(f@)[1]);
            Parsed::Ready {
                request: Request::Delete(DeleteRequest { key, noreply }),
                consumed: eol + 2,
            }
        },
        None => Parsed::Malformed,
    }
}

/// Reads a `set` from its fields and the data that follows its line.
fn read_set(buf: &[u8], f: Vec<Vec<u8>>, eol: usize) -> (out: Parsed)
    requires
        f@.len() >= 1,
        eol + 1 < buf@.len(),
    ensures
        out@ == parse_set(buf@, views(f@), eol as int),
{
    let ghost fv = views(f@);
    let len = buf.len();
    let noreply = match read_noreply(&f, 5) {
        Some(noreply) => noreply,
        None => {
            return Parsed::Malformed;
        },
    };
    if !is_valid_key(f[1].as_slice()) {
        return Parsed::Malformed;
    }
    let flags = match parse_decimal_u32(f[2].as_slice()) {
        Some(flags) => flags,
        None => {
            return Parsed::Malformed;
        },
    };
    let exptime = match parse_decimal_u32(f[3].as_slice()) {
        Some(exptime) => exptime,
        None => {
            return Parsed::Malformed;
        },
    };
    let n: usize = match parse_decimal(f[4].as_slice()) {
        Some(n) => if n <= MAX_REQUEST_SIZE as u64 {
            n as usize
        } else {
            return Parsed::Malformed;
        },
        None => {
            return Parsed::Malformed;
        },
    };
    assert(set_header_ok(fv));
    let start = eol + 2;
    if len - start < n + 2 {
        return Parsed::NeedMore;
    }
    if buf[start + n] != CR || buf[start + n + 1] != LF {
        assert(buf@.subrange(start + n, start + n + 2)[0] == buf@[start + n]);
        assert(buf@.subrange(start + n, start + n + 2)[1] == buf@[start + n + 1]);
        return Parsed::Malformed;
    }
    assert(buf@.subrange(start + n, start + n + 2) =~= crlf());
    let key = copy_range(f[1].as_slice(), 0, f[1].len());
    assert(key@ =~= fv[1]);
    let value = copy_range(buf, start, start + n);
    let ttl = if exptime == 0 {
        None
    } else {
        Some(exptime)
    };
    Parsed::Ready {
        request: Request::Store(SetRequest { key, value, flags, ttl, noreply }),
        consumed: start + n + 2,
    }
}

/// Reads one request from the start of `buf`.
pub fn parse_request(buf: &[u8]) -> (out: Parsed)
    ensures
        out@ == parse_request_spec(buf@),
{
    let len = buf.len();
    let eol = match find_crlf(buf, 0) {
        Some(eol) => eol,
        None => {
            if len >= MAX_REQUEST_SIZE {
                return Parsed::Malformed;
            } else {
                return Parsed::NeedMore;
            }
        },
    };
    let line = copy_range(buf, 0, eol);
    let f = split_fields(line.as_slice());
    if bytes_eq(f[0].as_slice(), lit_get().as_slice()) {
        read_get(f, eol)
    } else if bytes_eq(f[0].as_slice(), lit_set().as_slice()) {
        read_set(buf, f, eol)
    } else if bytes_eq(f[0].as_slice(), lit_delete().as_slice()) {
        read_delete(f, eol)
    } else if is_command_name(f[0].as_slice()) {
        let verb = copy_range(f[0].as_slice(), 0, f[0].len());
        assert(verb@ =~= views(f@)[0]);
        Parsed::Ready { request: Request::Unsupported { verb }, consumed: eol + 2 }
    } else {
        Parsed::Malformed
    }
}

} // verus!
