//! Byte-string helpers shared by the wire codecs: comparison, search for the
//! line terminator, and decimal numbers.

use vstd::prelude::*;

verus! {

/// Carriage return.
pub const CR: u8 = 13;

/// Line feed.
pub const LF: u8 = 10;

/// Space, the field separator of the memcache text protocol.
pub const SP: u8 = 32;

/// The two bytes that end a line.
pub open spec fn crlf() -> Seq<u8> {
    seq![CR, LF]
}

/// `s` starts with `prefix`.
pub open spec fn has_prefix(s: Seq<u8>, prefix: Seq<u8>) -> bool {
    prefix.len() <= s.len() && s.subrange(0, prefix.len() as int) == prefix
}

/// A line terminator starts at index `i` of `s`.
pub open spec fn crlf_at(s: Seq<u8>, i: int) -> bool {
    0 <= i && i + 1 < s.len() && s[i] == CR && s[i + 1] == LF
}

/// The index of the first line terminator of `s` at or after `from`, or
/// `s.len()` where there is none.
pub open spec fn first_crlf_from(s: Seq<u8>, from: int) -> int
    decreases s.len() - from,
{
    if from < 0 || from + 1 >= s.len() {
        s.len() as int
    } else if s[from] == CR && s[from + 1] == LF {
        from
    } else {
        first_crlf_from(s, from + 1)
    }
}

/// The index of the first line terminator of `s`, if it has one.
pub open spec fn first_crlf(s: Seq<u8>) -> Option<int> {
    let i = first_crlf_from(s, 0);
    if i < s.len() {
        Some(i)
    } else {
        None
    }
}

/// What `first_crlf_from` finds is a terminator, and the first one.
pub proof fn lemma_first_crlf_from(s: Seq<u8>, from: int)
    requires
        0 <= from,
    ensures
        from <= first_crlf_from(s, from) || first_crlf_from(s, from) == s.len(),
        first_crlf_from(s, from) <= s.len(),
        first_crlf_from(s, from) < s.len() ==> crlf_at(s, first_crlf_from(s, from)),
        forall|j: int| from <= j < first_crlf_from(s, from) ==> !crlf_at(s, j),
    decreases s.len() - from,
{
    if from + 1 >= s.len() {
    } else if s[from] == CR && s[from + 1] == LF {
    } else {
        lemma_first_crlf_from(s, from + 1);
    }
}

/// A terminator at `i` with none before it is the first one.
pub proof fn lemma_first_crlf_is(s: Seq<u8>, from: int, i: int)
    requires
        0 <= from <= i,
        crlf_at(s, i),
        forall|j: int| from <= j < i ==> !crlf_at(s, j),
    ensures
        first_crlf_from(s, from) == i,
    decreases i - from,
{
    if from < i {
        assert(!crlf_at(s, from));
        lemma_first_crlf_is(s, from + 1, i);
    }
}

/// Without a terminator at or after `from`, the search runs to the end.
pub proof fn lemma_first_crlf_none(s: Seq<u8>, from: int)
    requires
        0 <= from,
        forall|j: int| from <= j ==> !crlf_at(s, j),
    ensures
        first_crlf_from(s, from) == s.len(),
    decreases s.len() - from,
{
    if from + 1 < s.len() {
        assert(!crlf_at(s, from));
        lemma_first_crlf_none(s, from + 1);
    }
}

/// Whether two byte strings hold the same bytes.
pub fn bytes_eq(a: &[u8], b: &[u8]) -> (same: bool)
    ensures
        same == (a@ == b@),
{
    if a.len() != b.len() {
        return false;
    }
    let mut i: usize = 0;
    while i < a.len()
        invariant
            a@.len() == b@.len(),
            i <= a@.len(),
            forall|j: int| 0 <= j < i ==> a@[j] == b@[j],
        decreases a@.len() - i,
    {
        if a[i] != b[i] {
            return false;
        }
        i += 1;
    }
    assert(a@ =~= b@);
    true
}

/// Whether `s` starts with `prefix`.
pub fn starts_with(s: &[u8], prefix: &[u8]) -> (yes: bool)
    ensures
        yes == has_prefix(s@, prefix@),
{
    if prefix.len() > s.len() {
        return false;
    }
    let mut i: usize = 0;
    while i < prefix.len()
        invariant
            prefix@.len() <= s@.len(),
            i <= prefix@.len(),
            forall|j: int| 0 <= j < i ==> s@[j] == prefix@[j],
        decreases prefix@.len() - i,
    {
        if s[i] != prefix[i] {
            assert(s@.subrange(0, prefix@.len() as int)[i as int] != prefix@[i as int]);
            return false;
        }
        i += 1;
    }
    assert(s@.subrange(0, prefix@.len() as int) =~= prefix@);
    true
}

/// A copy of the bytes of `s` from `from` up to `to`.
pub fn copy_range(s: &[u8], from: usize, to: usize) -> (out: Vec<u8>)
    requires
        from <= to <= s@.len(),
    ensures
        out@ == s@.subrange(from as int, to as int),
{
    let mut out: Vec<u8> = Vec::new();
    let mut i: usize = from;
    while i < to
        invariant
            from <= i <= to <= s@.len(),
            out@ == s@.subrange(from as int, i as int),
        decreases to - i,
    {
        out.push(s[i]);
        assert(out@ =~= s@.subrange(from as int, i + 1));
        i += 1;
    }
    out
}

/// The index of the first line terminator of `s` at or after `from`.
pub fn find_crlf(s: &[u8], from: usize) -> (at: Option<usize>)
    ensures
        match at {
            Some(i) => i == first_crlf_from(s@, from as int) && i + 1 < s@.len(),
            None => first_crlf_from(s@, from as int) == s@.len(),
        },
{
    let mut i: usize = from;
    while i < s.len() && i + 1 < s.len()
        invariant
            from <= i,
            forall|j: int| from <= j < i ==> !crlf_at(s@, j),
        decreases s@.len() - i,
    {
        if s[i] == CR && s[i + 1] == LF {
            proof {
                lemma_first_crlf_is(s@, from as int, i as int);
            }
            return Some(i);
        }
        i += 1;
    }
    proof {
        assert forall|j: int| from <= j implies !crlf_at(s@, j) by {}
        lemma_first_crlf_none(s@, from as int);
    }
    None
}

/// `b` is one of the ten decimal digits.
pub open spec fn is_digit(b: u8) -> bool {
    48 <= b <= 57
}

/// `s` is a decimal numeral: one digit at least, and digits only.
pub open spec fn is_decimal(s: Seq<u8>) -> bool {
    s.len() > 0 && forall|i: int| 0 <= i < s.len() ==> is_digit(#[trigger] s[i])
}

/// The number that the digits of `s` write, read from the left.
pub open spec fn decimal_value(s: Seq<u8>) -> nat
    decreases s.len(),
{
    if s.len() == 0 {
        0
    } else {
        decimal_value(s.drop_last()) * 10 + (s.last() - 48) as nat
    }
}

/// The shortest decimal numeral of `n`.
pub open spec fn decimal_digits(n: nat) -> Seq<u8>
    decreases n,
{
    if n < 10 {
        seq![(48 + n) as u8]
    } else {
        decimal_digits(n / 10).push((48 + n % 10) as u8)
    }
}

/// What reading `s` as an unsigned 64-bit decimal gives: its value where `s`
/// is a numeral that fits, nothing otherwise.
pub open spec fn decimal_u64(s: Seq<u8>) -> Option<u64> {
    if is_decimal(s) && decimal_value(s) <= u64::MAX {
        Some(decimal_value(s) as u64)
    } else {
        None
    }
}

/// The numeral of `n` is a numeral and reads back as `n`.
pub proof fn lemma_decimal_digits(n: nat)
    ensures
        is_decimal(decimal_digits(n)),
        decimal_value(decimal_digits(n)) == n,
    decreases n,
{
    if n < 10 {
        let s = decimal_digits(n);
        assert(s.drop_last() =~= Seq::<u8>::empty());
        assert(decimal_value(s.drop_last()) == 0);
    } else {
        lemma_decimal_digits(n / 10);
        let s = decimal_digits(n);
        assert(s.drop_last() =~= decimal_digits(n / 10));
    }
}

/// A numeral is worth at least as much as each of its prefixes.
pub proof fn lemma_decimal_prefix(s: Seq<u8>, k: int)
    requires
        is_decimal(s),
        0 <= k <= s.len(),
    ensures
        decimal_value(s.subrange(0, k)) <= decimal_value(s),
    decreases s.len() - k,
{
    if k == s.len() {
        assert(s.subrange(0, k) =~= s);
    } else {
        let t = s.drop_last();
        assert(t.subrange(0, k) =~= s.subrange(0, k));
        if k == t.len() {
            assert(t.subrange(0, k) =~= t);
        } else {
            lemma_decimal_prefix(t, k);
        }
    }
}

/// Appends the shortest decimal numeral of `n` to `out`.
pub fn push_decimal(out: &mut Vec<u8>, n: u64)
    ensures
        final(out)@ == old(out)@ + decimal_digits(n as nat),
    decreases n,
{
    if n >= 10 {
        push_decimal(out, n / 10);
    }
    let d: u8 = (n % 10) as u8;
    out.push(48 + d);
    proof {
        if n < 10 {
            assert(final(out)@ =~= old(out)@ + decimal_digits(n as nat));
        } else {
            assert(final(out)@ =~= old(out)@ + decimal_digits(n as nat));
        }
    }
}

/// Reads `s` as an unsigned decimal numeral.
pub fn parse_decimal(s: &[u8]) -> (value: Option<u64>)
    ensures
        value == decimal_u64(s@),
{
    if s.len() == 0 {
        return None;
    }
    let mut acc: u64 = 0;
    let mut i: usize = 0;
    while i < s.len()
        invariant
            i <= s@.len(),
            forall|j: int| 0 <= j < i ==> is_digit(#[trigger] s@[j]),
            acc == decimal_value(s@.subrange(0, i as int)),
        decreases s@.len() - i,
    {
        let b = s[i];
        if b < 48 || b > 57 {
            return None;
        }
        let d: u64 = (b - 48) as u64;
        proof {
            let t = s@.subrange(0, i + 1);
            assert(t.drop_last() =~= s@.subrange(0, i as int));
            assert(decimal_value(t) == acc * 10 + d);
            if is_decimal(s@) {
                lemma_decimal_prefix(s@, i + 1);
            }
        }
        if acc > (u64::MAX - d) / 10 {
            return None;
        }
        acc = acc * 10 + d;
        i += 1;
    }
    assert(s@.subrange(0, i as int) =~= s@);
    Some(acc)
}

/// What reading `s` as an unsigned 32-bit decimal gives.
pub open spec fn decimal_u32(s: Seq<u8>) -> Option<u32> {
    match decimal_u64(s) {
        Some(v) => if v <= u32::MAX {
            Some(v as u32)
        } else {
            None
        },
        None => None,
    }
}

/// Reads `s` as an unsigned decimal numeral of 32 bits.
pub fn parse_decimal_u32(s: &[u8]) -> (value: Option<u32>)
    ensures
        value == decimal_u32(s@),
{
    match parse_decimal(s) {
        Some(v) => if v <= u32::MAX as u64 {
            Some(v as u32)
        } else {
            None
        },
        None => None,
    }
}

/// The index of the first byte `b` of `s` at or after `from`, or `s.len()`
/// where there is none.
pub open spec fn first_byte_from(s: Seq<u8>, b: u8, from: int) -> int
    decreases s.len() - from,
{
    if from < 0 || from >= s.len() {
        s.len() as int
    } else if s[from] == b {
        from
    } else {
        first_byte_from(s, b, from + 1)
    }
}

/// What `first_byte_from` finds lies at or after `from`, holds `b`, and no
/// byte before it does.
pub proof fn lemma_first_byte_from(s: Seq<u8>, b: u8, from: int)
    requires
        0 <= from <= s.len(),
    ensures
        from <= first_byte_from(s, b, from) <= s.len(),
        first_byte_from(s, b, from) < s.len() ==> s[first_byte_from(s, b, from)] == b,
        forall|j: int| from <= j < first_byte_from(s, b, from) ==> s[j] != b,
    decreases s.len() - from,
{
    if from < s.len() && s[from] != b {
        lemma_first_byte_from(s, b, from + 1);
    }
}

/// The index of the first byte `b` of `s` at or after `from`, or `s.len()`.
pub fn find_byte(s: &[u8], b: u8, from: usize) -> (at: usize)
    requires
        from <= s@.len(),
    ensures
        at == first_byte_from(s@, b, from as int),
        from <= at <= s@.len(),
{
    let mut i: usize = from;
    while i < s.len()
        invariant
            from <= i <= s@.len(),
            first_byte_from(s@, b, from as int) == first_byte_from(s@, b, i as int),
        decreases s@.len() - i,
    {
        if s[i] == b {
            return i;
        }
        i += 1;
    }
    i
}

/// The fields of `line` from index `from` on: the stretches between its
/// spaces, each space parting two fields.
pub open spec fn fields_from(line: Seq<u8>, from: int) -> Seq<Seq<u8>>
    decreases line.len() - from,
{
    let i = first_byte_from(line, SP, from);
    if from < 0 || from > line.len() {
        Seq::<Seq<u8>>::empty()
    } else if i < from || i >= line.len() {
        seq![line.subrange(from, line.len() as int)]
    } else {
        seq![line.subrange(from, i)] + fields_from(line, i + 1)
    }
}

/// The fields of `line`.
pub open spec fn fields(line: Seq<u8>) -> Seq<Seq<u8>> {
    fields_from(line, 0)
}

/// The byte strings that a list of byte vectors holds.
pub open spec fn views(items: Seq<Vec<u8>>) -> Seq<Seq<u8>> {
    items.map_values(|k: Vec<u8>| k@)
}

/// Splits `line` into its fields.
pub fn split_fields(line: &[u8]) -> (out: Vec<Vec<u8>>)
    ensures
        views(out@) == fields(line@),
        out@.len() >= 1,
{
    let mut out: Vec<Vec<u8>> = Vec::new();
    let mut start: usize = 0;
    loop
        invariant
            start <= line@.len(),
            fields(line@) == views(out@) + fields_from(line@, start as int),
        decreases line@.len() - start,
    {
        let i = find_byte(line, SP, start);
        if i >= line.len() {
            let ghost before = out@;
            out.push(copy_range(line, start, line.len()));
            assert(views(out@) =~= views(before) + fields_from(line@, start as int));
            return out;
        }
        let ghost before = out@;
        out.push(copy_range(line, start, i));
        proof {
            assert(views(out@) =~= views(before) + seq![line@.subrange(start as int, i as int)]);
            assert(fields(line@) =~= views(out@) + fields_from(line@, i + 1));
        }
        start = i + 1;
    }
}

} // verus!
