//! The RESP side: how the arguments of the sorted-set commands are read,
//! how their answers are framed, and what a failed command writes back.

use vstd::prelude::*;
use crate::bytes::{
    bytes_eq, copy_range, crlf, decimal_value, is_decimal,
    parse_decimal, CR, LF,
};
use crate::error::{ProxyError, ProxyErrorView};
use crate::words::{
    lit_backend_error, lit_backend_timeout, lit_index_not_integer, lit_index_not_utf8,
    lit_minus_inf, lit_plus_inf, lit_resp_err, lit_unsupported_command, word_backend_error,
    word_backend_timeout, word_index_not_integer, word_index_not_utf8, word_minus_inf,
    word_plus_inf, word_resp_err, word_unsupported_command,
};

verus! {

/// The sign and the digits of `s`: a leading `-` or `+` is the sign, the
/// rest are the digits.
pub open spec fn signed_parts(s: Seq<u8>) -> (bool, Seq<u8>) {
    if s.len() > 0 && s[0] == 45 {
        (true, s.skip(1))
    } else if s.len() > 0 && s[0] == 43 {
        (false, s.skip(1))
    } else {
        (false, s)
    }
}

/// What reading `s` as a signed 32-bit decimal gives: an optional sign, one
/// digit at least, and a value that fits.
pub open spec fn integer_i32(s: Seq<u8>) -> Option<i32> {
    let (negative, digits) = signed_parts(s);
    if !is_decimal(digits) {
        None
    } else if negative {
        if decimal_value(digits) <= 2147483648 {
            Some((0 - decimal_value(digits)) as i32)
        } else {
            None
        }
    } else {
        if decimal_value(digits) <= 2147483647 {
            Some(decimal_value(digits) as i32)
        } else {
            None
        }
    }
}

/// Reads `s` as a signed 32-bit decimal.
pub fn parse_i32(s: &[u8]) -> (value: Option<i32>)
    ensures
        value == integer_i32(s@),
{
    let negative = s.len() > 0 && s[0] == 45;
    let signed = s.len() > 0 && (s[0] == 45 || s[0] == 43);
    let digits = if signed {
        vstd::slice::slice_subrange(s, 1, s.len())
    } else {
        s
    };
    assert(digits@ =~= signed_parts(s@).1);
    match parse_decimal(digits) {
        Some(v) => {
            if negative {
                if v <= 2147483648 {
                    if v == 2147483648 {
                        Some(i32::MIN)
                    } else {
                        Some(0 - (v as i32))
                    }
                } else {
                    None
                }
            } else {
                if v <= 2147483647 {
                    Some(v as i32)
                } else {
                    None
                }
            }
        },
        None => None,
    }
}

/// `std::str::from_utf8`: whether `bytes` are well-formed UTF-8.
#[verifier::external_body]
fn is_utf8(bytes: &[u8]) -> (ok: bool)
    ensures
        ok == vstd::utf8::valid_utf8(bytes@),
{
    match std::str::from_utf8(bytes) {
        Ok(_) => true,
        Err(_) => false,
    }
}

/// The error for an index that is no integer: one message for bytes that
/// are no text at all, another for text that is no integer.
pub open spec fn index_error(value: Seq<u8>) -> ProxyErrorView {
    if vstd::utf8::valid_utf8(value) {
        ProxyErrorView::Io { message: word_index_not_integer() }
    } else {
        ProxyErrorView::Io { message: word_index_not_utf8() }
    }
}

/// Reads a boundary of a range by index: a signed 32-bit decimal.
pub fn parse_score_boundary_as_integer(value: &[u8]) -> (index: Result<i32, ProxyError>)
    ensures
        match integer_i32(value@) {
            Some(v) => index == Ok::<i32, ProxyError>(v),
            None => index matches Err(e) && e@ == index_error(value@),
        },
{
    match parse_i32(value) {
        Some(v) => Ok(v),
        None => {
            if is_utf8(value) {
                Err(ProxyError::invalid(lit_index_not_integer()))
            } else {
                Err(ProxyError::invalid(lit_index_not_utf8()))
            }
        },
    }
}

/// A boundary of a range by score, before its number is read.
#[derive(Clone, Debug, PartialEq, Eq)]
pub enum ScoreBoundary {
    /// `+inf`.
    PlusInfinity,
    /// `-inf`.
    MinusInfinity,
    /// A number in text, which a leading `(` made exclusive.
    Number { exclusive: bool, text: Vec<u8> },
}

/// What a `ScoreBoundary` holds.
pub enum ScoreBoundaryView {
    PlusInfinity,
    MinusInfinity,
    Number { exclusive: bool, text: Seq<u8> },
}

impl View for ScoreBoundary {
    type V = ScoreBoundaryView;

    open spec fn view(&self) -> ScoreBoundaryView {
        match self {
            ScoreBoundary::PlusInfinity => ScoreBoundaryView::PlusInfinity,
            ScoreBoundary::MinusInfinity => ScoreBoundaryView::MinusInfinity,
            ScoreBoundary::Number { exclusive, text } => ScoreBoundaryView::Number {
                exclusive: *exclusive,
                text: text@,
            },
        }
    }
}

/// The boundary that `value` writes: `+inf`, `-inf`, or a number, which is
/// exclusive where `(` stands before it.
pub open spec fn score_boundary(value: Seq<u8>) -> ScoreBoundaryView {
    if value == word_plus_inf() {
        ScoreBoundaryView::PlusInfinity
    } else if value == word_minus_inf() {
        ScoreBoundaryView::MinusInfinity
    } else if value.len() > 0 && value[0] == 40 {
        ScoreBoundaryView::Number { exclusive: true, text: value.skip(1) }
    } else {
        ScoreBoundaryView::Number { exclusive: false, text: value }
    }
}

/// Reads a boundary of a range by score, up to its number.
pub fn parse_score_boundary(value: &[u8]) -> (boundary: ScoreBoundary)
    ensures
        boundary@ == score_boundary(value@),
{
    if bytes_eq(value, lit_plus_inf().as_slice()) {
        ScoreBoundary::PlusInfinity
    } else if bytes_eq(value, lit_minus_inf().as_slice()) {
        ScoreBoundary::MinusInfinity
    } else if value.len() > 0 && value[0] == 40 {
        let text = copy_range(value, 1, value.len());
        assert(text@ =~= value@.skip(1));
        ScoreBoundary::Number { exclusive: true, text }
    } else {
        let text = copy_range(value, 0, value.len());
        assert(text@ =~= value@);
        ScoreBoundary::Number { exclusive: false, text }
    }
}

/// What a failed command writes back, and whether the connection closes
/// after it.
#[derive(Clone, Debug, PartialEq, Eq)]
pub struct ErrorReply {
    pub bytes: Vec<u8>,
    pub fatal: bool,
}

/// The line `-ERR ` and `text`.
pub open spec fn error_line(text: Seq<u8>) -> Seq<u8> {
    word_resp_err() + text + crlf()
}

/// The bytes that tell a client of `error`: nothing for a failure of the
/// socket itself, a line that starts with `-ERR ` otherwise.
pub open spec fn error_bytes(error: ProxyErrorView) -> Seq<u8> {
    match error {
        ProxyErrorView::Momento { message } => error_line(word_backend_error() + message),
        ProxyErrorView::Timeout => error_line(word_backend_timeout()),
        ProxyErrorView::Io { message } => Seq::<u8>::empty(),
        ProxyErrorView::UnsupportedCommand { command } => error_line(
            word_unsupported_command() + command,
        ),
        ProxyErrorView::Custom { message } => error_line(message),
    }
}

/// Whether the connection closes after `error`: errors of the backend and
/// missed deadlines leave it open, everything else closes it.
pub open spec fn error_is_fatal(error: ProxyErrorView) -> bool {
    !(error is Momento || error is Timeout)
}

/// The line `-ERR `, `prefix` and `text`.
fn compose_error_line(prefix: Vec<u8>, text: &[u8]) -> (line: Vec<u8>)
    ensures
        line@ == error_line(prefix@ + text@),
{
    let mut line = lit_resp_err();
    line.extend_from_slice(prefix.as_slice());
    line.extend_from_slice(text);
    line.push(CR);
    line.push(LF);
    assert(line@ =~= error_line(prefix@ + text@));
    line
}

/// Appends to `buf` the line that tells a client that the backend failed
/// with `error`.
pub fn momento_error_to_resp_error(buf: &mut Vec<u8>, error: &[u8])
    ensures
        final(buf)@ == old(buf)@ + error_line(word_backend_error() + error@),
{
    let line = compose_error_line(lit_backend_error(), error);
    buf.extend_from_slice(line.as_slice());
}

/// What `error` writes back, and whether the connection closes after it.
pub fn error_reply(error: &ProxyError) -> (reply: ErrorReply)
    ensures
        reply.bytes@ == error_bytes(error@),
        reply.fatal == error_is_fatal(error@),
{
    match error {
        ProxyError::Momento { message } => ErrorReply {
            bytes: compose_error_line(lit_backend_error(), message.as_slice()),
            fatal: false,
        },
        ProxyError::Timeout => {
            let empty: Vec<u8> = Vec::new();
            let bytes = compose_error_line(lit_backend_timeout(), empty.as_slice());
            assert(word_backend_timeout() + empty@ =~= word_backend_timeout());
            ErrorReply { bytes, fatal: false }
        },
        ProxyError::Io { message } => ErrorReply { bytes: Vec::new(), fatal: true },
        ProxyError::UnsupportedCommand { command } => ErrorReply {
            bytes: compose_error_line(lit_unsupported_command(), command.as_slice()),
            fatal: true,
        },
        ProxyError::Custom { message } => {
            let empty: Vec<u8> = Vec::new();
            let bytes = compose_error_line(empty, message.as_slice());
            assert(Seq::<u8>::empty() + message@ =~= message@);
            ErrorReply { bytes, fatal: true }
        },
    }
}

} // verus!
