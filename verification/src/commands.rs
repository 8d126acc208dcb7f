//! The commands that the RESP side serves, and their names.

use vstd::prelude::*;
use crate::bytes::bytes_eq;

verus! {

/// The commands that the RESP side serves.
#[derive(Clone, Copy, Debug, PartialEq, Eq, Hash, Structural)]
pub enum RespCommand {
    /// `GET`.
    Get,
    /// `SET`.
    Store,
    /// `DEL`.
    Del,
    /// `HDEL`.
    HashDelete,
    /// `HEXISTS`.
    HashExists,
    /// `HGET`.
    HashGet,
    /// `HGETALL`.
    HashGetAll,
    /// `HINCRBY`.
    HashIncrBy,
    /// `HKEYS`.
    HashKeys,
    /// `HLEN`.
    HashLength,
    /// `HMGET`.
    HashMultiGet,
    /// `HSET`.
    HashSet,
    /// `HVALS`.
    HashValues,
    /// `LINDEX`.
    ListIndex,
    /// `LLEN`.
    ListLen,
    /// `LPOP`.
    ListPop,
    /// `LRANGE`.
    ListRange,
    /// `LPUSH`.
    ListPush,
    /// `RPUSH`.
    ListPushBack,
    /// `RPOP`.
    ListPopBack,
    /// `SADD`.
    SetAdd,
    /// `SREM`.
    SetRem,
    /// `SDIFF`.
    SetDiff,
    /// `SUNION`.
    SetUnion,
    /// `SINTER`.
    SetIntersect,
    /// `SMEMBERS`.
    SetMembers,
    /// `SISMEMBER`.
    SetIsMember,
    /// `ZCARD`.
    SortedSetCardinality,
    /// `ZINCRBY`.
    SortedSetIncrement,
    /// `ZSCORE`.
    SortedSetScore,
    /// `ZMSCORE`.
    SortedSetMultiScore,
    /// `ZREM`.
    SortedSetRemove,
    /// `ZRANK`.
    SortedSetRank,
    /// `ZRANGE`.
    SortedSetRange,
    /// `ZADD`.
    SortedSetAdd,
    /// `ZREVRANK`.
    SortedSetReverseRank,
    /// `ZCOUNT`.
    SortedSetCount,
    /// `ZUNIONSTORE`.
    SortedSetUnionStore,
}

/// The number of commands that the RESP side serves.
pub const COMMAND_COUNT: usize = 38;

impl RespCommand {
    /// The name of the command, in lower case.
    pub open spec fn name(self) -> Seq<u8> {
        match self {
            RespCommand::Get => seq![103u8, 101, 116],
            RespCommand::Store => seq![115u8, 101, 116],
            RespCommand::Del => seq![100u8, 101, 108],
            RespCommand::HashDelete => seq![104u8, 100, 101, 108],
            RespCommand::HashExists => seq![104u8, 101, 120, 105, 115, 116, 115],
            RespCommand::HashGet => seq![104u8, 103, 101, 116],
            RespCommand::HashGetAll => seq![104u8, 103, 101, 116, 97, 108, 108],
            RespCommand::HashIncrBy => seq![104u8, 105, 110, 99, 114, 98, 121],
            RespCommand::HashKeys => seq![104u8, 107, 101, 121, 115],
            RespCommand::HashLength => seq![104u8, 108, 101, 110],
            RespCommand::HashMultiGet => seq![104u8, 109, 103, 101, 116],
            RespCommand::HashSet => seq![104u8, 115, 101, 116],
            RespCommand::HashValues => seq![104u8, 118, 97, 108, 115],
            RespCommand::ListIndex => seq![108u8, 105, 110, 100, 101, 120],
            RespCommand::ListLen => seq![108u8, 108, 101, 110],
            RespCommand::ListPop => seq![108u8, 112, 111, 112],
            RespCommand::ListRange => seq![108u8, 114, 97, 110, 103, 101],
            RespCommand::ListPush => seq![108u8, 112, 117, 115, 104],
            RespCommand::ListPushBack => seq![114u8, 112, 117, 115, 104],
            RespCommand::ListPopBack => seq![114u8, 112, 111, 112],
            RespCommand::SetAdd => seq![115u8, 97, 100, 100],
            RespCommand::SetRem => seq![115u8, 114, 101, 109],
            RespCommand::SetDiff => seq![115u8, 100, 105, 102, 102],
            RespCommand::SetUnion => seq![115u8, 117, 110, 105, 111, 110],
            RespCommand::SetIntersect => seq![115u8, 105, 110, 116, 101, 114],
            RespCommand::SetMembers => seq![115u8, 109, 101, 109, 98, 101, 114, 115],
            RespCommand::SetIsMember => seq![115u8, 105, 115, 109, 101, 109, 98, 101, 114],
            RespCommand::SortedSetCardinality => seq![122u8, 99, 97, 114, 100],
            RespCommand::SortedSetIncrement => seq![122u8, 105, 110, 99, 114, 98, 121],
            RespCommand::SortedSetScore => seq![122u8, 115, 99, 111, 114, 101],
            RespCommand::SortedSetMultiScore => seq![122u8, 109, 115, 99, 111, 114, 101],
            RespCommand::SortedSetRemove => seq![122u8, 114, 101, 109],
            RespCommand::SortedSetRank => seq![122u8, 114, 97, 110, 107],
            RespCommand::SortedSetRange => seq![122u8, 114, 97, 110, 103, 101],
            RespCommand::SortedSetAdd => seq![122u8, 97, 100, 100],
            RespCommand::SortedSetReverseRank => seq![122u8, 114, 101, 118, 114, 97, 110, 107],
            RespCommand::SortedSetCount => seq![122u8, 99, 111, 117, 110, 116],
            RespCommand::SortedSetUnionStore => seq![122u8, 117, 110, 105, 111, 110, 115, 116, 111, 114, 101],
        }
    }

    /// The place of the command in the list of all commands.
    pub open spec fn ordinal(self) -> int {
        match self {
            RespCommand::Get => 0,
            RespCommand::Store => 1,
            RespCommand::Del => 2,
            RespCommand::HashDelete => 3,
            RespCommand::HashExists => 4,
            RespCommand::HashGet => 5,
            RespCommand::HashGetAll => 6,
            RespCommand::HashIncrBy => 7,
            RespCommand::HashKeys => 8,
            RespCommand::HashLength => 9,
            RespCommand::HashMultiGet => 10,
            RespCommand::HashSet => 11,
            RespCommand::HashValues => 12,
            RespCommand::ListIndex => 13,
            RespCommand::ListLen => 14,
            RespCommand::ListPop => 15,
            RespCommand::ListRange => 16,
            RespCommand::ListPush => 17,
            RespCommand::ListPushBack => 18,
            RespCommand::ListPopBack => 19,
            RespCommand::SetAdd => 20,
            RespCommand::SetRem => 21,
            RespCommand::SetDiff => 22,
            RespCommand::SetUnion => 23,
            RespCommand::SetIntersect => 24,
            RespCommand::SetMembers => 25,
            RespCommand::SetIsMember => 26,
            RespCommand::SortedSetCardinality => 27,
            RespCommand::SortedSetIncrement => 28,
            RespCommand::SortedSetScore => 29,
            RespCommand::SortedSetMultiScore => 30,
            RespCommand::SortedSetRemove => 31,
            RespCommand::SortedSetRank => 32,
            RespCommand::SortedSetRange => 33,
            RespCommand::SortedSetAdd => 34,
            RespCommand::SortedSetReverseRank => 35,
            RespCommand::SortedSetCount => 36,
            RespCommand::SortedSetUnionStore => 37,
        }
    }

    /// The name of the command, in lower case.
    pub fn name_bytes(self) -> (name: Vec<u8>)
        ensures
            name@ == self.name(),
    {
        match self {
            RespCommand::Get => vec![103, 101, 116],
            RespCommand::Store => vec![115, 101, 116],
            RespCommand::Del => vec![100, 101, 108],
            RespCommand::HashDelete => vec![104, 100, 101, 108],
            RespCommand::HashExists => vec![104, 101, 120, 105, 115, 116, 115],
            RespCommand::HashGet => vec![104, 103, 101, 116],
            RespCommand::HashGetAll => vec![104, 103, 101, 116, 97, 108, 108],
            RespCommand::HashIncrBy => vec![104, 105, 110, 99, 114, 98, 121],
            RespCommand::HashKeys => vec![104, 107, 101, 121, 115],
            RespCommand::HashLength => vec![104, 108, 101, 110],
            RespCommand::HashMultiGet => vec![104, 109, 103, 101, 116],
            RespCommand::HashSet => vec![104, 115, 101, 116],
            RespCommand::HashValues => vec![104, 118, 97, 108, 115],
            RespCommand::ListIndex => vec![108, 105, 110, 100, 101, 120],
            RespCommand::ListLen => vec![108, 108, 101, 110],
            RespCommand::ListPop => vec![108, 112, 111, 112],
            RespCommand::ListRange => vec![108, 114, 97, 110, 103, 101],
            RespCommand::ListPush => vec![108, 112, 117, 115, 104],
            RespCommand::ListPushBack => vec![114, 112, 117, 115, 104],
            RespCommand::ListPopBack => vec![114, 112, 111, 112],
            RespCommand::SetAdd => vec![115, 97, 100, 100],
            RespCommand::SetRem => vec![115, 114, 101, 109],
            RespCommand::SetDiff => vec![115, 100, 105, 102, 102],
            RespCommand::SetUnion => vec![115, 117, 110, 105, 111, 110],
            RespCommand::SetIntersect => vec![115, 105, 110, 116, 101, 114],
            RespCommand::SetMembers => vec![115, 109, 101, 109, 98, 101, 114, 115],
            RespCommand::SetIsMember => vec![115, 105, 115, 109, 101, 109, 98, 101, 114],
            RespCommand::SortedSetCardinality => vec![122, 99, 97, 114, 100],
            RespCommand::SortedSetIncrement => vec![122, 105, 110, 99, 114, 98, 121],
            RespCommand::SortedSetScore => vec![122, 115, 99, 111, 114, 101],
            RespCommand::SortedSetMultiScore => vec![122, 109, 115, 99, 111, 114, 101],
            RespCommand::SortedSetRemove => vec![122, 114, 101, 109],
            RespCommand::SortedSetRank => vec![122, 114, 97, 110, 107],
            RespCommand::SortedSetRange => vec![122, 114, 97, 110, 103, 101],
            RespCommand::SortedSetAdd => vec![122, 97, 100, 100],
            RespCommand::SortedSetReverseRank => vec![122, 114, 101, 118, 114, 97, 110, 107],
            RespCommand::SortedSetCount => vec![122, 99, 111, 117, 110, 116],
            RespCommand::SortedSetUnionStore => vec![122, 117, 110, 105, 111, 110, 115, 116, 111, 114, 101],
        }
    }

    /// The name under which the latency of the command is filed.
    pub open spec fn rpc_name(self) -> Seq<u8> {
        seq![114u8, 101, 115, 112, 95] + self.name()
    }

    /// The name under which the latency of the command is filed: `resp_`
    /// and the name of the command.
    pub fn rpc(self) -> (name: Vec<u8>)
        ensures
            name@ == self.rpc_name(),
    {
        let mut name: Vec<u8> = vec![114, 101, 115, 112, 95];
        let command = self.name_bytes();
        name.extend_from_slice(command.as_slice());
        name
    }
}

/// The command at place `i` of the list of all commands.
pub open spec fn command_at(i: int) -> RespCommand {
    if i == 0 {
        RespCommand::Get
    } else if i == 1 {
        RespCommand::Store
    } else if i == 2 {
        RespCommand::Del
    } else if i == 3 {
        RespCommand::HashDelete
    } else if i == 4 {
        RespCommand::HashExists
    } else if i == 5 {
        RespCommand::HashGet
    } else if i == 6 {
        RespCommand::HashGetAll
    } else if i == 7 {
        RespCommand::HashIncrBy
    } else if i == 8 {
        RespCommand::HashKeys
    } else if i == 9 {
        RespCommand::HashLength
    } else if i == 10 {
        RespCommand::HashMultiGet
    } else if i == 11 {
        RespCommand::HashSet
    } else if i == 12 {
        RespCommand::HashValues
    } else if i == 13 {
        RespCommand::ListIndex
    } else if i == 14 {
        RespCommand::ListLen
    } else if i == 15 {
        RespCommand::ListPop
    } else if i == 16 {
        RespCommand::ListRange
    } else if i == 17 {
        RespCommand::ListPush
    } else if i == 18 {
        RespCommand::ListPushBack
    } else if i == 19 {
        RespCommand::ListPopBack
    } else if i == 20 {
        RespCommand::SetAdd
    } else if i == 21 {
        RespCommand::SetRem
    } else if i == 22 {
        RespCommand::SetDiff
    } else if i == 23 {
        RespCommand::SetUnion
    } else if i == 24 {
        RespCommand::SetIntersect
    } else if i == 25 {
        RespCommand::SetMembers
    } else if i == 26 {
        RespCommand::SetIsMember
    } else if i == 27 {
        RespCommand::SortedSetCardinality
    } else if i == 28 {
        RespCommand::SortedSetIncrement
    } else if i == 29 {
        RespCommand::SortedSetScore
    } else if i == 30 {
        RespCommand::SortedSetMultiScore
    } else if i == 31 {
        RespCommand::SortedSetRemove
    } else if i == 32 {
        RespCommand::SortedSetRank
    } else if i == 33 {
        RespCommand::SortedSetRange
    } else if i == 34 {
        RespCommand::SortedSetAdd
    } else if i == 35 {
        RespCommand::SortedSetReverseRank
    } else if i == 36 {
        RespCommand::SortedSetCount
    } else {
        RespCommand::SortedSetUnionStore
    }
}

/// Every command stands at its place in the list.
pub proof fn lemma_command_at(c: RespCommand)
    ensures
        0 <= c.ordinal() < COMMAND_COUNT,
        command_at(c.ordinal()) == c,
{
}

/// The command at place `i` of the list of all commands.
pub fn nth_command(i: usize) -> (c: RespCommand)
    requires
        i < COMMAND_COUNT,
    ensures
        c == command_at(i as int),
{
    if i == 0 {
        RespCommand::Get
    } else if i == 1 {
        RespCommand::Store
    } else if i == 2 {
        RespCommand::Del
    } else if i == 3 {
        RespCommand::HashDelete
    } else if i == 4 {
        RespCommand::HashExists
    } else if i == 5 {
        RespCommand::HashGet
    } else if i == 6 {
        RespCommand::HashGetAll
    } else if i == 7 {
        RespCommand::HashIncrBy
    } else if i == 8 {
        RespCommand::HashKeys
    } else if i == 9 {
        RespCommand::HashLength
    } else if i == 10 {
        RespCommand::HashMultiGet
    } else if i == 11 {
        RespCommand::HashSet
    } else if i == 12 {
        RespCommand::HashValues
    } else if i == 13 {
        RespCommand::ListIndex
    } else if i == 14 {
        RespCommand::ListLen
    } else if i == 15 {
        RespCommand::ListPop
    } else if i == 16 {
        RespCommand::ListRange
    } else if i == 17 {
        RespCommand::ListPush
    } else if i == 18 {
        RespCommand::ListPushBack
    } else if i == 19 {
        RespCommand::ListPopBack
    } else if i == 20 {
        RespCommand::SetAdd
    } else if i == 21 {
        RespCommand::SetRem
    } else if i == 22 {
        RespCommand::SetDiff
    } else if i == 23 {
        RespCommand::SetUnion
    } else if i == 24 {
        RespCommand::SetIntersect
    } else if i == 25 {
        RespCommand::SetMembers
    } else if i == 26 {
        RespCommand::SetIsMember
    } else if i == 27 {
        RespCommand::SortedSetCardinality
    } else if i == 28 {
        RespCommand::SortedSetIncrement
    } else if i == 29 {
        RespCommand::SortedSetScore
    } else if i == 30 {
        RespCommand::SortedSetMultiScore
    } else if i == 31 {
        RespCommand::SortedSetRemove
    } else if i == 32 {
        RespCommand::SortedSetRank
    } else if i == 33 {
        RespCommand::SortedSetRange
    } else if i == 34 {
        RespCommand::SortedSetAdd
    } else if i == 35 {
        RespCommand::SortedSetReverseRank
    } else if i == 36 {
        RespCommand::SortedSetCount
    } else {
        RespCommand::SortedSetUnionStore
    }
}

/// `b` in lower case, where it is an upper-case letter of ASCII; `b`
/// otherwise.
pub open spec fn lower(b: u8) -> u8 {
    if 65 <= b <= 90 {
        (b + 32) as u8
    } else {
        b
    }
}

/// `s` with its ASCII letters in lower case.
pub open spec fn lower_case(s: Seq<u8>) -> Seq<u8> {
    s.map_values(|b: u8| lower(b))
}

/// `s` with its ASCII letters in lower case.
pub fn to_lower_case(s: &[u8]) -> (out: Vec<u8>)
    ensures
        out@ == lower_case(s@),
{
    let mut out: Vec<u8> = Vec::new();
    let mut i: usize = 0;
    while i < s.len()
        invariant
            i <= s@.len(),
            out@ == lower_case(s@.subrange(0, i as int)),
        decreases s@.len() - i,
    {
        let b = s[i];
        if 65 <= b && b <= 90 {
            out.push(b + 32);
        } else {
            out.push(b);
        }
        assert(out@ =~= lower_case(s@.subrange(0, i + 1)));
        i += 1;
    }
    assert(s@.subrange(0, i as int) =~= s@);
    out
}

/// The command that `name` names, whatever the case of its letters: the one
/// command whose name it is, or none.
pub open spec fn is_command(name: Seq<u8>, c: RespCommand) -> bool {
    lower_case(name) == c.name()
}

/// The command that `name` names, whatever the case of its letters.
pub fn command_of(name: &[u8]) -> (command: Option<RespCommand>)
    ensures
        match command {
            Some(c) => is_command(name@, c),
            None => forall|c: RespCommand| !is_command(name@, c),
        },
{
    let folded = to_lower_case(name);
    let mut i: usize = 0;
    while i < COMMAND_COUNT
        invariant
            i <= COMMAND_COUNT,
            folded@ == lower_case(name@),
            forall|j: int| 0 <= j < i ==> folded@ != #[trigger] command_at(j).name(),
        decreases COMMAND_COUNT - i,
    {
        let c = nth_command(i);
        let candidate = c.name_bytes();
        if bytes_eq(folded.as_slice(), candidate.as_slice()) {
            return Some(c);
        }
        i += 1;
    }
    proof {
        assert forall|c: RespCommand| !is_command(name@, c) by {
            lemma_command_at(c);
            assert(folded@ != command_at(c.ordinal()).name());
        }
    }
    None
}

} // verus!
