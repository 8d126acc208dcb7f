//! The sorted-set commands of the RESP side: what is asked of the backend
//! for a range, and how the answers are framed.

use vstd::prelude::*;
use crate::bytes::{crlf, decimal_digits, push_decimal, CR, LF};
use crate::cache_backend::BackendError;
use crate::error::{from_backend, ProxyError, ProxyErrorView};
use crate::resp::{
    integer_i32, index_error, parse_score_boundary, parse_score_boundary_as_integer,
    score_boundary, ScoreBoundary, ScoreBoundaryView,
};
use crate::words::{
    lit_bylex_unsupported, lit_malformed_command, lit_zadd_options_unsupported,
    word_bylex_unsupported, word_malformed_command, word_zadd_options_unsupported,
};

verus! {

/// How the boundaries of a range are meant.
#[derive(Clone, Copy, Debug, PartialEq, Eq, Structural)]
pub enum RangeType {
    ByIndex,
    ByScore,
    ByLex,
}

/// The order in which the elements of a range come.
#[derive(Clone, Copy, Debug, PartialEq, Eq, Structural)]
pub enum SortedSetOrder {
    Ascending,
    Descending,
}

/// The order of a range: descending where the command says `REV`.
pub open spec fn order_of(reversed: Option<bool>) -> SortedSetOrder {
    if reversed == Some(true) {
        SortedSetOrder::Descending
    } else {
        SortedSetOrder::Ascending
    }
}

/// The order of a range.
pub fn range_order(reversed: Option<bool>) -> (order: SortedSetOrder)
    ensures
        order == order_of(reversed),
{
    match reversed {
        Some(true) => SortedSetOrder::Descending,
        _ => SortedSetOrder::Ascending,
    }
}

/// What the number of a score boundary turned out to be.
#[derive(Clone, Copy, Debug, PartialEq, Eq, Structural)]
pub enum ScoreKind {
    Finite,
    PlusInfinity,
    MinusInfinity,
}

/// A bound on the scores of a range, as the backend takes it.
#[derive(Clone, Copy, Debug, PartialEq, Eq, Structural)]
pub enum ScoreBound {
    /// No bound on this side.
    Unbounded,
    /// The score of the boundary itself, included.
    Inclusive,
    /// The score of the boundary itself, excluded.
    Exclusive,
    /// The largest finite score, included.
    LargestIncluded,
    /// The smallest finite score, excluded.
    SmallestExcluded,
}

/// The lower bound that a boundary makes: none for minus infinity, the
/// largest finite score for plus infinity, the number itself otherwise.
pub open spec fn lower_bound(kind: ScoreKind, exclusive: bool) -> ScoreBound {
    match kind {
        ScoreKind::MinusInfinity => ScoreBound::Unbounded,
        ScoreKind::PlusInfinity => ScoreBound::LargestIncluded,
        ScoreKind::Finite => if exclusive {
            ScoreBound::Exclusive
        } else {
            ScoreBound::Inclusive
        },
    }
}

/// The upper bound that a boundary makes: none for plus infinity, the
/// smallest finite score for minus infinity, the number itself otherwise.
pub open spec fn upper_bound(kind: ScoreKind, exclusive: bool) -> ScoreBound {
    match kind {
        ScoreKind::PlusInfinity => ScoreBound::Unbounded,
        ScoreKind::MinusInfinity => ScoreBound::SmallestExcluded,
        ScoreKind::Finite => if exclusive {
            ScoreBound::Exclusive
        } else {
            ScoreBound::Inclusive
        },
    }
}

/// The lower bound that a boundary makes.
pub fn min_score(kind: ScoreKind, exclusive: bool) -> (bound: ScoreBound)
    ensures
        bound == lower_bound(kind, exclusive),
{
    match kind {
        ScoreKind::MinusInfinity => ScoreBound::Unbounded,
        ScoreKind::PlusInfinity => ScoreBound::LargestIncluded,
        ScoreKind::Finite => if exclusive {
            ScoreBound::Exclusive
        } else {
            ScoreBound::Inclusive
        },
    }
}

/// The upper bound that a boundary makes.
pub fn max_score(kind: ScoreKind, exclusive: bool) -> (bound: ScoreBound)
    ensures
        bound == upper_bound(kind, exclusive),
{
    match kind {
        ScoreKind::PlusInfinity => ScoreBound::Unbounded,
        ScoreKind::MinusInfinity => ScoreBound::SmallestExcluded,
        ScoreKind::Finite => if exclusive {
            ScoreBound::Exclusive
        } else {
            ScoreBound::Inclusive
        },
    }
}

/// What a `ZRANGE` asks of the backend.
#[derive(Clone, Debug, PartialEq, Eq)]
pub enum RangePlan {
    /// The elements from rank `start` to rank `stop`, both included.
    ByRank { start: i32, stop: i32, order: SortedSetOrder },
    /// The elements with a score between the two boundaries, of them
    /// `count` at most after the first `offset`.
    ByScore {
        lower: ScoreBoundary,
        upper: ScoreBoundary,
        order: SortedSetOrder,
        offset: Option<u32>,
        count: Option<i32>,
    },
}

/// What a `RangePlan` holds.
pub enum RangePlanView {
    ByRank { start: i32, stop: i32, order: SortedSetOrder },
    ByScore {
        lower: ScoreBoundaryView,
        upper: ScoreBoundaryView,
        order: SortedSetOrder,
        offset: Option<u32>,
        count: Option<i32>,
    },
}

impl View for RangePlan {
    type V = RangePlanView;

    open spec fn view(&self) -> RangePlanView {
        match self {
            RangePlan::ByRank { start, stop, order } => RangePlanView::ByRank {
                start: *start,
                stop: *stop,
                order: *order,
            },
            RangePlan::ByScore { lower, upper, order, offset, count } => RangePlanView::ByScore {
                lower: lower@,
                upper: upper@,
                order: *order,
                offset: *offset,
                count: *count,
            },
        }
    }
}

/// The offset that the backend takes: the one given, the largest 32-bit
/// number at most.
pub open spec fn offset_of(offset: Option<u64>) -> Option<u32> {
    match offset {
        Some(o) => Some(
            if o > u32::MAX {
                u32::MAX
            } else {
                o as u32
            },
        ),
        None => None,
    }
}

/// The count that the backend takes: the one given, kept within 32 bits.
pub open spec fn count_of(count: Option<i64>) -> Option<i32> {
    match count {
        Some(c) => Some(
            if c > i32::MAX {
                i32::MAX
            } else if c < i32::MIN {
                i32::MIN
            } else {
                c as i32
            },
        ),
        None => None,
    }
}

/// What a `ZRANGE` with these arguments asks of the backend, or why it asks
/// nothing. A range by lexical order is not served. The boundaries of a
/// range by index are integers, and the first that is none is the error.
/// The boundaries of a range by score are read up to their numbers.
pub open spec fn range_plan(
    range_type: RangeType,
    start: Seq<u8>,
    stop: Seq<u8>,
    reversed: Option<bool>,
    offset: Option<u64>,
    count: Option<i64>,
) -> Result<RangePlanView, ProxyErrorView> {
    match range_type {
        RangeType::ByLex => Err(ProxyErrorView::Io { message: word_bylex_unsupported() }),
        RangeType::ByIndex => match (integer_i32(start), integer_i32(stop)) {
            (Some(a), Some(b)) => Ok(
                RangePlanView::ByRank { start: a, stop: b, order: order_of(reversed) },
            ),
            (None, _) => Err(index_error(start)),
            (Some(_), None) => Err(index_error(stop)),
        },
        RangeType::ByScore => Ok(
            RangePlanView::ByScore {
                lower: score_boundary(start),
                upper: score_boundary(stop),
                order: order_of(reversed),
                offset: offset_of(offset),
                count: count_of(count),
            },
        ),
    }
}

/// What a `ZRANGE` with these arguments asks of the backend.
pub fn plan_zrange(
    range_type: RangeType,
    start: &[u8],
    stop: &[u8],
    reversed: Option<bool>,
    offset: Option<u64>,
    count: Option<i64>,
) -> (plan: Result<RangePlan, ProxyError>)
    ensures
        match (plan, range_plan(range_type, start@, stop@, reversed, offset, count)) {
            (Ok(got), Ok(want)) => got@ == want,
            (Err(got), Err(want)) => got@ == want,
            _ => false,
        },
{
    match range_type {
        RangeType::ByLex => Err(ProxyError::invalid(lit_bylex_unsupported())),
        RangeType::ByIndex => {
            let a = match parse_score_boundary_as_integer(start) {
                Ok(a) => a,
                Err(e) => {
                    return Err(e);
                },
            };
            let b = match parse_score_boundary_as_integer(stop) {
                Ok(b) => b,
                Err(e) => {
                    return Err(e);
                },
            };
            Ok(RangePlan::ByRank { start: a, stop: b, order: range_order(reversed) })
        },
        RangeType::ByScore => {
            let offset: Option<u32> = match offset {
                Some(o) => Some(
                    if o > u32::MAX as u64 {
                        u32::MAX
                    } else {
                        o as u32
                    },
                ),
                None => None,
            };
            let count: Option<i32> = match count {
                Some(c) => Some(
                    if c > i32::MAX as i64 {
                        i32::MAX
                    } else if c < i32::MIN as i64 {
                        i32::MIN
                    } else {
                        c as i32
                    },
                ),
                None => None,
            };
            Ok(
                RangePlan::ByScore {
                    lower: parse_score_boundary(start),
                    upper: parse_score_boundary(stop),
                    order: range_order(reversed),
                    offset,
                    count,
                },
            )
        },
    }
}

/// An element of a sorted set with its score in decimal text.
#[derive(Clone, Debug, PartialEq, Eq)]
pub struct ScoredElement {
    pub value: Vec<u8>,
    pub score: Vec<u8>,
}

/// What the backend answered to a fetch from a sorted set.
#[derive(Clone, Debug, PartialEq, Eq)]
pub enum SortedSetFetch {
    Hit { elements: Vec<ScoredElement> },
    Miss,
}

/// A bulk string: `$`, the length, and the bytes, each closed by a line
/// terminator.
pub open spec fn bulk(b: Seq<u8>) -> Seq<u8> {
    seq![36u8] + decimal_digits(b.len()) + crlf() + b + crlf()
}

/// The header of an array of `n` items.
pub open spec fn array_header(n: nat) -> Seq<u8> {
    seq![42u8] + decimal_digits(n) + crlf()
}

/// An integer reply.
pub open spec fn integer_reply(n: nat) -> Seq<u8> {
    seq![58u8] + decimal_digits(n) + crlf()
}

/// The reply for what is not there.
pub open spec fn null_reply() -> Seq<u8> {
    seq![95u8] + crlf()
}

/// The items that `elements` make: each value as a bulk string, and behind
/// it its score where scores are asked for.
pub open spec fn element_items(elements: Seq<ScoredElement>, with_scores: bool) -> Seq<u8>
    decreases elements.len(),
{
    if elements.len() == 0 {
        Seq::<u8>::empty()
    } else {
        element_items(elements.drop_last(), with_scores) + bulk(elements.last().value@) + if with_scores {
            bulk(elements.last().score@)
        } else {
            Seq::<u8>::empty()
        }
    }
}

/// The answer to a `ZRANGE`: an array of the elements, with twice as many
/// items where scores are asked for; an empty array where the set is not
/// there.
pub open spec fn range_reply(fetched: SortedSetFetch, with_scores: bool) -> Seq<u8> {
    match fetched {
        SortedSetFetch::Hit { elements } => array_header(
            if with_scores {
                elements@.len() * 2
            } else {
                elements@.len()
            },
        ) + element_items(elements@, with_scores),
        SortedSetFetch::Miss => array_header(0),
    }
}

/// Appends a line terminator.
fn push_crlf(out: &mut Vec<u8>)
    ensures
        final(out)@ == old(out)@ + crlf(),
{
    out.push(CR);
    out.push(LF);
    assert(final(out)@ =~= old(out)@ + crlf());
}

/// Appends `mark`, the numeral of `n` and a line terminator.
fn push_counted(out: &mut Vec<u8>, mark: u8, n: u64)
    ensures
        final(out)@ == old(out)@ + (seq![mark] + decimal_digits(n as nat) + crlf()),
{
    out.push(mark);
    push_decimal(out, n);
    push_crlf(out);
    assert(final(out)@ =~= old(out)@ + (seq![mark] + decimal_digits(n as nat) + crlf()));
}

/// Appends `b` as a bulk string.
fn push_bulk(out: &mut Vec<u8>, b: &[u8])
    ensures
        final(out)@ == old(out)@ + bulk(b@),
{
    push_counted(out, 36, b.len() as u64);
    out.extend_from_slice(b);
    push_crlf(out);
    assert(final(out)@ =~= old(out)@ + bulk(b@));
}

/// Answers a `ZRANGE` for which the backend gave `outcome`: the reply is
/// appended to `response_buf`, or the failure of the backend handed on and
/// the buffer left as it was.
pub fn zrange(
    outcome: Result<SortedSetFetch, BackendError>,
    with_scores: bool,
    response_buf: &mut Vec<u8>,
) -> (result: Result<(), ProxyError>)
    requires
        outcome matches Ok(SortedSetFetch::Hit { elements }) ==> elements@.len() * 2 <= u64::MAX,
    ensures
        match outcome {
            Ok(fetched) => result is Ok && final(response_buf)@ == old(response_buf)@
                + range_reply(fetched, with_scores),
            Err(e) => result matches Err(error) && error@ == from_backend(e) && final(response_buf)@ == old(response_buf)@,
        },
{
    match outcome {
        Err(e) => Err(ProxyError::from_backend_error(e)),
        Ok(SortedSetFetch::Miss) => {
            push_counted(response_buf, 42, 0);
            Ok(())
        },
        Ok(SortedSetFetch::Hit { elements }) => {
            let ghost before = response_buf@;
            let n = elements.len() as u64;
            let items = if with_scores {
                n * 2
            } else {
                n
            };
            push_counted(response_buf, 42, items);
            let ghost header = response_buf@;
            let mut i: usize = 0;
            assert(header + element_items(elements@.subrange(0, 0), with_scores) =~= header);
            while i < elements.len()
                invariant
                    i <= elements@.len(),
                    response_buf@ == header + element_items(
                        elements@.subrange(0, i as int),
                        with_scores,
                    ),
                decreases elements@.len() - i,
            {
                push_bulk(response_buf, elements[i].value.as_slice());
                if with_scores {
                    push_bulk(response_buf, elements[i].score.as_slice());
                }
                proof {
                    let next = elements@.subrange(0, i + 1);
                    assert(next.drop_last() =~= elements@.subrange(0, i as int));
                    assert(next.last() == elements@[i as int]);
                    assert(response_buf@ =~= header + element_items(next, with_scores));
                }
                i += 1;
            }
            assert(elements@.subrange(0, i as int) =~= elements@);
            assert(response_buf@ =~= before + range_reply(
                SortedSetFetch::Hit { elements },
                with_scores,
            ));
            Ok(())
        },
    }
}

/// The answer to a `ZSCORE`: the score as a bulk string, or the null reply
/// where the member or the set is not there.
pub open spec fn score_reply(score: Option<Vec<u8>>) -> Seq<u8> {
    match score {
        Some(text) => bulk(text@),
        None => null_reply(),
    }
}

/// Answers a `ZSCORE` for which the backend gave `outcome`, the score in
/// decimal text.
pub fn zscore(outcome: Result<Option<Vec<u8>>, BackendError>, response_buf: &mut Vec<u8>) -> (result:
    Result<(), ProxyError>)
    ensures
        match outcome {
            Ok(score) => result is Ok && final(response_buf)@ == old(response_buf)@
                + score_reply(score),
            Err(e) => result matches Err(error) && error@ == from_backend(e) && final(response_buf)@ == old(response_buf)@,
        },
{
    match outcome {
        Err(e) => Err(ProxyError::from_backend_error(e)),
        Ok(Some(text)) => {
            push_bulk(response_buf, text.as_slice());
            Ok(())
        },
        Ok(None) => {
            response_buf.push(95);
            push_crlf(response_buf);
            assert(final(response_buf)@ =~= old(response_buf)@ + null_reply());
            Ok(())
        },
    }
}

/// The options of a `ZADD`.
#[derive(Clone, Copy, Debug, PartialEq, Eq, Structural)]
pub struct AddOptions {
    pub ch: bool,
    pub xx: bool,
    pub nx: bool,
    pub gt: bool,
    pub lt: bool,
    pub incr: bool,
}

/// What a `ZADD` asks of the backend.
#[derive(Clone, Copy, Debug, PartialEq, Eq, Structural)]
pub enum AddPlan {
    /// Put all the members with their scores.
    Put,
    /// Raise the score of the first member, as `ZINCRBY` does.
    Increment,
}

/// What a `ZADD` with these options and this many members asks of the
/// backend, or the message with which it is refused: the options `CH`,
/// `XX`, `NX`, `GT` and `LT` are not served, and `INCR` needs a member.
pub open spec fn add_plan(options: AddOptions, members: nat) -> Result<AddPlan, Seq<u8>> {
    if options.ch || options.xx || options.nx || options.gt || options.lt {
        Err(word_zadd_options_unsupported())
    } else if options.incr {
        if members == 0 {
            Err(word_malformed_command())
        } else {
            Ok(AddPlan::Increment)
        }
    } else {
        Ok(AddPlan::Put)
    }
}

/// What a `ZADD` with these options and this many members asks of the
/// backend.
pub fn plan_zadd(options: AddOptions, members: usize) -> (plan: Result<AddPlan, ProxyError>)
    ensures
        match (plan, add_plan(options, members as nat)) {
            (Ok(got), Ok(want)) => got == want,
            (Err(got), Err(want)) => got@ == (ProxyErrorView::Io { message: want }),
            _ => false,
        },
{
    if options.ch || options.xx || options.nx || options.gt || options.lt {
        Err(ProxyError::invalid(lit_zadd_options_unsupported()))
    } else if options.incr {
        if members == 0 {
            Err(ProxyError::invalid(lit_malformed_command()))
        } else {
            Ok(AddPlan::Increment)
        }
    } else {
        Ok(AddPlan::Put)
    }
}

/// Answers a `ZADD` that put `members` members and for which the backend
/// gave `outcome`: the number of members as an integer reply.
pub fn zadd(outcome: Result<(), BackendError>, members: usize, response_buf: &mut Vec<u8>) -> (result:
    Result<(), ProxyError>)
    ensures
        match outcome {
            Ok(_) => result is Ok && final(response_buf)@ == old(response_buf)@ + integer_reply(
                members as nat,
            ),
            Err(e) => result matches Err(error) && error@ == from_backend(e) && final(response_buf)@ == old(response_buf)@,
        },
{
    match outcome {
        Err(e) => Err(ProxyError::from_backend_error(e)),
        Ok(_) => {
            push_counted(response_buf, 58, members as u64);
            Ok(())
        },
    }
}

} // verus!
