//! The arguments of the sorted-set commands, as they stand behind the name
//! of the command.

use vstd::prelude::*;
use crate::bytes::{bytes_eq, copy_range, decimal_u64, parse_decimal, views};
use crate::commands::{lower_case, to_lower_case};
use crate::resp::{integer_i32, parse_i32};
use crate::words::{
    lit_bylex, lit_byscore, lit_ch, lit_gt, lit_incr, lit_limit, lit_lt, lit_nx, lit_rev,
    lit_withscores, lit_xx, word_bylex, word_byscore, word_ch, word_gt, word_incr, word_limit,
    word_lt, word_nx, word_rev, word_withscores, word_xx,
};
use crate::zset::{AddOptions, RangeType};

verus! {

/// The options of a `ZRANGE`.
#[derive(Clone, Copy, Debug, PartialEq, Eq, Structural)]
pub struct RangeOptions {
    pub range_type: RangeType,
    pub reversed: Option<bool>,
    pub offset: Option<u64>,
    pub count: Option<i64>,
    pub with_scores: Option<bool>,
}

/// The options of a `ZRANGE` that names none: a range by index.
pub open spec fn no_range_options() -> RangeOptions {
    RangeOptions {
        range_type: RangeType::ByIndex,
        reversed: None,
        offset: None,
        count: None,
        with_scores: None,
    }
}

/// `options` after the words of `args` from index `i` on, or `None` where
/// those are no options: `BYSCORE`, `BYLEX`, `REV` and `WITHSCORES` stand
/// alone, `LIMIT` stands before an offset, which is an unsigned numeral, and
/// a count, which is a signed numeral of 32 bits. Case does not matter, and a
/// later word overrides an earlier one.
pub open spec fn range_options_from(args: Seq<Seq<u8>>, i: int, options: RangeOptions) -> Option<
    RangeOptions,
>
    decreases args.len() - i,
{
    if i < 0 || i >= args.len() {
        Some(options)
    } else {
        let word = lower_case(args[i]);
        if word == word_byscore() {
            range_options_from(
                args,
                i + 1,
                RangeOptions { range_type: RangeType::ByScore, ..options },
            )
        } else if word == word_bylex() {
            range_options_from(args, i + 1, RangeOptions { range_type: RangeType::ByLex, ..options })
        } else if word == word_rev() {
            range_options_from(args, i + 1, RangeOptions { reversed: Some(true), ..options })
        } else if word == word_withscores() {
            range_options_from(args, i + 1, RangeOptions { with_scores: Some(true), ..options })
        } else if word == word_limit() && i + 2 < args.len() {
            match (decimal_u64(args[i + 1]), integer_i32(args[i + 2])) {
                (Some(offset), Some(count)) => range_options_from(
                    args,
                    i + 3,
                    RangeOptions { offset: Some(offset), count: Some(count as i64), ..options },
                ),
                _ => None,
            }
        } else {
            None
        }
    }
}

/// The arguments of a `ZRANGE`.
#[derive(Clone, Debug, PartialEq, Eq)]
pub struct RangeArguments {
    pub key: Vec<u8>,
    pub start: Vec<u8>,
    pub stop: Vec<u8>,
    pub options: RangeOptions,
}

/// Reads the arguments of a `ZRANGE`: a key, the two boundaries, and
/// options. `None` where there are fewer than three or the rest are no
/// options.
pub fn range_arguments(args: &Vec<Vec<u8>>) -> (out: Option<RangeArguments>)
    ensures
        match out {
            Some(a) => args@.len() >= 3 && a.key@ == args@[0]@ && a.start@ == args@[1]@ && a.stop@
                == args@[2]@ && range_options_from(views(args@), 3, no_range_options()) == Some(
                a.options,
            ),
            None => args@.len() < 3 || range_options_from(views(args@), 3, no_range_options())
                is None,
        },
{
    if args.len() < 3 {
        return None;
    }
    let mut options = RangeOptions {
        range_type: RangeType::ByIndex,
        reversed: None,
        offset: None,
        count: None,
        with_scores: None,
    };
    let mut i: usize = 3;
    while i < args.len()
        invariant
            3 <= i <= args@.len(),
            range_options_from(views(args@), 3, no_range_options()) == range_options_from(
                views(args@),
                i as int,
                options,
            ),
        decreases args@.len() - i,
    {
        let word = to_lower_case(args[i].as_slice());
        assert(views(args@)[i as int] == args@[i as int]@);
        if bytes_eq(word.as_slice(), lit_byscore().as_slice()) {
            options.range_type = RangeType::ByScore;
            i += 1;
        } else if bytes_eq(word.as_slice(), lit_bylex().as_slice()) {
            options.range_type = RangeType::ByLex;
            i += 1;
        } else if bytes_eq(word.as_slice(), lit_rev().as_slice()) {
            options.reversed = Some(true);
            i += 1;
        } else if bytes_eq(word.as_slice(), lit_withscores().as_slice()) {
            options.with_scores = Some(true);
            i += 1;
        } else if bytes_eq(word.as_slice(), lit_limit().as_slice()) && args.len() - i > 2 {
            assert(views(args@)[i + 1] == args@[i + 1]@);
            assert(views(args@)[i + 2] == args@[i + 2]@);
            let offset = parse_decimal(args[i + 1].as_slice());
            let count = parse_i32(args[i + 2].as_slice());
            match (offset, count) {
                (Some(offset), Some(count)) => {
                    options.offset = Some(offset);
                    options.count = Some(count as i64);
                    i += 3;
                },
                _ => {
                    return None;
                },
            }
        } else {
            return None;
        }
    }
    let key = copy_range(args[0].as_slice(), 0, args[0].len());
    let start = copy_range(args[1].as_slice(), 0, args[1].len());
    let stop = copy_range(args[2].as_slice(), 0, args[2].len());
    assert(key@ =~= args@[0]@);
    assert(start@ =~= args@[1]@);
    assert(stop@ =~= args@[2]@);
    Some(RangeArguments { key, start, stop, options })
}

/// The options of a `ZADD` that names none.
pub open spec fn no_add_options() -> AddOptions {
    AddOptions { ch: false, xx: false, nx: false, gt: false, lt: false, incr: false }
}

/// `options` with the option that `word` names, or `None` where `word`
/// names none.
pub open spec fn with_add_option(options: AddOptions, word: Seq<u8>) -> Option<AddOptions> {
    let word = lower_case(word);
    if word == word_nx() {
        Some(AddOptions { nx: true, ..options })
    } else if word == word_xx() {
        Some(AddOptions { xx: true, ..options })
    } else if word == word_gt() {
        Some(AddOptions { gt: true, ..options })
    } else if word == word_lt() {
        Some(AddOptions { lt: true, ..options })
    } else if word == word_ch() {
        Some(AddOptions { ch: true, ..options })
    } else if word == word_incr() {
        Some(AddOptions { incr: true, ..options })
    } else {
        None
    }
}

/// The index of the first of `args` at or after `i` that names no option
/// of `ZADD`, and the options that the words before it name.
pub open spec fn add_options_from(args: Seq<Seq<u8>>, i: int, options: AddOptions) -> (
    int,
    AddOptions,
)
    decreases args.len() - i,
{
    if i < 0 || i >= args.len() {
        (i, options)
    } else {
        match with_add_option(options, args[i]) {
            Some(next) => add_options_from(args, i + 1, next),
            None => (i, options),
        }
    }
}

/// `options` with the option that `word` names.
fn add_option(options: AddOptions, word: &[u8]) -> (out: Option<AddOptions>)
    ensures
        out == with_add_option(options, word@),
{
    let word = to_lower_case(word);
    let mut next = options;
    if bytes_eq(word.as_slice(), lit_nx().as_slice()) {
        next.nx = true;
    } else if bytes_eq(word.as_slice(), lit_xx().as_slice()) {
        next.xx = true;
    } else if bytes_eq(word.as_slice(), lit_gt().as_slice()) {
        next.gt = true;
    } else if bytes_eq(word.as_slice(), lit_lt().as_slice()) {
        next.lt = true;
    } else if bytes_eq(word.as_slice(), lit_ch().as_slice()) {
        next.ch = true;
    } else if bytes_eq(word.as_slice(), lit_incr().as_slice()) {
        next.incr = true;
    } else {
        return None;
    }
    Some(next)
}

/// A member of a `ZADD` and its score in text.
#[derive(Clone, Debug, PartialEq, Eq)]
pub struct ScoredMember {
    pub score: Vec<u8>,
    pub member: Vec<u8>,
}

/// The arguments of a `ZADD`.
#[derive(Clone, Debug, PartialEq, Eq)]
pub struct AddArguments {
    pub key: Vec<u8>,
    pub options: AddOptions,
    pub members: Vec<ScoredMember>,
}

/// The arguments behind the options of a `ZADD` are pairs of a score and a
/// member, one pair at least.
pub open spec fn pairs_from(args: Seq<Seq<u8>>, first: int) -> bool {
    first < args.len() && (args.len() - first) % 2 == 0
}

/// Reads the arguments of a `ZADD`: a key, options, and pairs of a score
/// and a member. `None` where there is no key or the words behind the
/// options are not one pair or more.
pub fn add_arguments(args: &Vec<Vec<u8>>) -> (out: Option<AddArguments>)
    ensures
        match out {
            Some(a) => {
                let (first, options) = add_options_from(views(args@), 1, no_add_options());
                &&& args@.len() >= 1
                &&& pairs_from(views(args@), first)
                &&& a.key@ == args@[0]@
                &&& a.options == options
                &&& a.members@.len() * 2 == args@.len() - first
                &&& forall|k: int|
                    0 <= k < a.members@.len() ==> (#[trigger] a.members@[k]).score@ == args@[first
                        + 2 * k]@ && a.members@[k].member@ == args@[first + 2 * k + 1]@
            },
            None => args@.len() < 1 || !pairs_from(
                views(args@),
                add_options_from(views(args@), 1, no_add_options()).0,
            ),
        },
{
    if args.len() < 1 {
        return None;
    }
    let mut options = AddOptions {
        ch: false,
        xx: false,
        nx: false,
        gt: false,
        lt: false,
        incr: false,
    };
    let mut i: usize = 1;
    while i < args.len()
        invariant
            1 <= i <= args@.len(),
            add_options_from(views(args@), 1, no_add_options()) == add_options_from(
                views(args@),
                i as int,
                options,
            ),
        ensures
            1 <= i <= args@.len(),
            add_options_from(views(args@), 1, no_add_options()) == (i as int, options),
        decreases args@.len() - i,
    {
        assert(views(args@)[i as int] == args@[i as int]@);
        match add_option(options, args[i].as_slice()) {
            Some(next) => {
                options = next;
                i += 1;
            },
            None => {
                break ;
            },
        }
    }
    let first = i;
    if first >= args.len() || (args.len() - first) % 2 != 0 {
        return None;
    }
    let mut members: Vec<ScoredMember> = Vec::new();
    let mut j: usize = first;
    while j < args.len()
        invariant
            first <= j <= args@.len(),
            (args@.len() - first) % 2 == 0,
            (j - first) % 2 == 0,
            members@.len() * 2 == j - first,
            forall|k: int|
                0 <= k < members@.len() ==> (#[trigger] members@[k]).score@ == args@[first + 2
                    * k]@ && members@[k].member@ == args@[first + 2 * k + 1]@,
        decreases args@.len() - j,
    {
        let score = copy_range(args[j].as_slice(), 0, args[j].len());
        let member = copy_range(args[j + 1].as_slice(), 0, args[j + 1].len());
        assert(score@ =~= args@[j as int]@);
        assert(member@ =~= args@[j + 1]@);
        members.push(ScoredMember { score, member });
        j += 2;
    }
    let key = copy_range(args[0].as_slice(), 0, args[0].len());
    assert(key@ =~= args@[0]@);
    Some(AddArguments { key, options, members })
}

/// Reads the arguments of a `ZSCORE`: a key and a member, and nothing else.
pub fn score_arguments(args: &Vec<Vec<u8>>) -> (out: Option<(Vec<u8>, Vec<u8>)>)
    ensures
        match out {
            Some((key, member)) => args@.len() == 2 && key@ == args@[0]@ && member@ == args@[1]@,
            None => args@.len() != 2,
        },
{
    if args.len() != 2 {
        return None;
    }
    let key = copy_range(args[0].as_slice(), 0, args[0].len());
    let member = copy_range(args[1].as_slice(), 0, args[1].len());
    assert(key@ =~= args@[0]@);
    assert(member@ =~= args@[1]@);
    Some((key, member))
}

} // verus!
