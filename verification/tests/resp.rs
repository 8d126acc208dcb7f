use momento_proxy::cache_backend::BackendError;
use momento_proxy::commands::{command_of, nth_command, to_lower_case, RespCommand, COMMAND_COUNT};
use momento_proxy::error::ProxyError;
use momento_proxy::resp::{
    error_reply, momento_error_to_resp_error, parse_i32, parse_score_boundary,
    parse_score_boundary_as_integer, ErrorReply, ScoreBoundary,
};
use momento_proxy::metrics::{DefaultProxyMetrics, Outcome, Rpc};
use momento_proxy::resp_frontend::{
    close_command, drain_commands, finish_command, malformed_reply, parse_command,
    recorder_for, route, Framed, Routed, Written,
};
use momento_proxy::zset::{
    max_score, min_score, plan_zadd, plan_zrange, range_order, zadd, zrange, zscore, AddOptions,
    AddPlan, RangePlan, RangeType, ScoreBound, ScoreKind, ScoredElement, SortedSetFetch,
    SortedSetOrder,
};

fn io(message: &[u8]) -> ProxyError {
    ProxyError::Io { message: message.to_vec() }
}

#[test]
fn integers_as_rust_reads_them() {
    let cases: Vec<&[u8]> = vec![
        b"0", b"-0", b"+0", b"7", b"-7", b"+7", b"007", b"2147483647", b"-2147483648",
        b"2147483648", b"-2147483649", b"99999999999999999999999", b"", b"-", b"+", b"--1",
        b"1 ", b" 1", b"1.5", b"0x10", b"\xff",
    ];
    for case in cases {
        let expected = std::str::from_utf8(case).ok().and_then(|s| s.parse::<i32>().ok());
        assert_eq!(parse_i32(case), expected);
    }
}

#[test]
fn index_boundaries() {
    assert_eq!(parse_score_boundary_as_integer(b"-1"), Ok(-1));
    assert_eq!(parse_score_boundary_as_integer(b"10"), Ok(10));
    assert_eq!(
        parse_score_boundary_as_integer(b"ten"),
        Err(io(b"ZRANGE index is not an integer"))
    );
    assert_eq!(
        parse_score_boundary_as_integer(b"1.0"),
        Err(io(b"ZRANGE index is not an integer"))
    );
    assert_eq!(
        parse_score_boundary_as_integer(b"\xc3\x28"),
        Err(io(b"ZRANGE index is not valid utf8"))
    );
}

#[test]
fn score_boundaries() {
    assert_eq!(parse_score_boundary(b"+inf"), ScoreBoundary::PlusInfinity);
    assert_eq!(parse_score_boundary(b"-inf"), ScoreBoundary::MinusInfinity);
    assert_eq!(
        parse_score_boundary(b"(1.5"),
        ScoreBoundary::Number { exclusive: true, text: b"1.5".to_vec() }
    );
    assert_eq!(
        parse_score_boundary(b"1.5"),
        ScoreBoundary::Number { exclusive: false, text: b"1.5".to_vec() }
    );
    assert_eq!(
        parse_score_boundary(b"(+inf"),
        ScoreBoundary::Number { exclusive: true, text: b"+inf".to_vec() }
    );
    assert_eq!(
        parse_score_boundary(b""),
        ScoreBoundary::Number { exclusive: false, text: Vec::new() }
    );
    assert_eq!(min_score(ScoreKind::MinusInfinity, true), ScoreBound::Unbounded);
    assert_eq!(min_score(ScoreKind::PlusInfinity, false), ScoreBound::LargestIncluded);
    assert_eq!(min_score(ScoreKind::Finite, true), ScoreBound::Exclusive);
    assert_eq!(min_score(ScoreKind::Finite, false), ScoreBound::Inclusive);
    assert_eq!(max_score(ScoreKind::PlusInfinity, true), ScoreBound::Unbounded);
    assert_eq!(max_score(ScoreKind::MinusInfinity, false), ScoreBound::SmallestExcluded);
    assert_eq!(max_score(ScoreKind::Finite, true), ScoreBound::Exclusive);
    assert_eq!(max_score(ScoreKind::Finite, false), ScoreBound::Inclusive);
}

#[test]
fn range_plans() {
    assert_eq!(range_order(Some(true)), SortedSetOrder::Descending);
    assert_eq!(range_order(Some(false)), SortedSetOrder::Ascending);
    assert_eq!(range_order(None), SortedSetOrder::Ascending);
    assert_eq!(
        plan_zrange(RangeType::ByIndex, b"0", b"-1", None, None, None),
        Ok(RangePlan::ByRank { start: 0, stop: -1, order: SortedSetOrder::Ascending })
    );
    assert_eq!(
        plan_zrange(RangeType::ByIndex, b"a", b"\xff", None, None, None),
        Err(io(b"ZRANGE index is not an integer"))
    );
    assert_eq!(
        plan_zrange(RangeType::ByIndex, b"1", b"\xff", None, None, None),
        Err(io(b"ZRANGE index is not valid utf8"))
    );
    assert_eq!(
        plan_zrange(RangeType::ByLex, b"[a", b"[z", None, None, None),
        Err(io(b"Momento proxy does not support BYLEX for ZRANGE"))
    );
    assert_eq!(
        plan_zrange(RangeType::ByScore, b"(1", b"+inf", Some(true), Some(u64::MAX), Some(-5)),
        Ok(RangePlan::ByScore {
            lower: ScoreBoundary::Number { exclusive: true, text: b"1".to_vec() },
            upper: ScoreBoundary::PlusInfinity,
            order: SortedSetOrder::Descending,
            offset: Some(u32::MAX),
            count: Some(-5),
        })
    );
}

fn elements() -> Vec<ScoredElement> {
    vec![
        ScoredElement { value: b"one".to_vec(), score: b"1".to_vec() },
        ScoredElement { value: b"".to_vec(), score: b"2.5".to_vec() },
    ]
}

#[test]
fn range_replies() {
    let mut out = b"x".to_vec();
    assert_eq!(zrange(Ok(SortedSetFetch::Hit { elements: elements() }), false, &mut out), Ok(()));
    assert_eq!(out, b"x*2\r\n$3\r\none\r\n$0\r\n\r\n".to_vec());
    let mut out = Vec::new();
    assert_eq!(zrange(Ok(SortedSetFetch::Hit { elements: elements() }), true, &mut out), Ok(()));
    assert_eq!(out, b"*4\r\n$3\r\none\r\n$1\r\n1\r\n$0\r\n\r\n$3\r\n2.5\r\n".to_vec());
    let mut out = Vec::new();
    assert_eq!(zrange(Ok(SortedSetFetch::Hit { elements: Vec::new() }), true, &mut out), Ok(()));
    assert_eq!(out, b"*0\r\n".to_vec());
    let mut out = Vec::new();
    assert_eq!(zrange(Ok(SortedSetFetch::Miss), true, &mut out), Ok(()));
    assert_eq!(out, b"*0\r\n".to_vec());
    let mut out = b"kept".to_vec();
    assert_eq!(zrange(Err(BackendError::Timeout), true, &mut out), Err(ProxyError::Timeout));
    assert_eq!(out, b"kept".to_vec());
}

#[test]
fn score_replies() {
    let mut out = Vec::new();
    assert_eq!(zscore(Ok(Some(b"1.5".to_vec())), &mut out), Ok(()));
    assert_eq!(out, b"$3\r\n1.5\r\n".to_vec());
    let mut out = Vec::new();
    assert_eq!(zscore(Ok(None), &mut out), Ok(()));
    assert_eq!(out, b"_\r\n".to_vec());
    let mut out = Vec::new();
    assert_eq!(
        zscore(Err(BackendError::Remote { code: Vec::new(), message: b"no".to_vec() }), &mut out),
        Err(ProxyError::Momento { message: b"no".to_vec() })
    );
    assert_eq!(out, Vec::<u8>::new());
}

#[test]
fn add_plans_and_replies() {
    let none = AddOptions { ch: false, xx: false, nx: false, gt: false, lt: false, incr: false };
    assert_eq!(plan_zadd(none, 3), Ok(AddPlan::Put));
    assert_eq!(plan_zadd(none, 0), Ok(AddPlan::Put));
    assert_eq!(plan_zadd(AddOptions { incr: true, ..none }, 1), Ok(AddPlan::Increment));
    assert_eq!(plan_zadd(AddOptions { incr: true, ..none }, 0), Err(io(b"malformed command")));
    for refused in [
        AddOptions { ch: true, ..none },
        AddOptions { xx: true, ..none },
        AddOptions { nx: true, ..none },
        AddOptions { gt: true, ..none },
        AddOptions { lt: true, incr: true, ..none },
    ] {
        assert_eq!(
            plan_zadd(refused, 1),
            Err(io(b"Momento proxy does not support CH, XX, NX, GT, or LT optional arguments"))
        );
    }
    let mut out = Vec::new();
    assert_eq!(zadd(Ok(()), 12, &mut out), Ok(()));
    assert_eq!(out, b":12\r\n".to_vec());
    let mut out = Vec::new();
    assert_eq!(
        zadd(Err(BackendError::Io { message: b"reset".to_vec() }), 12, &mut out),
        Err(ProxyError::Momento { message: b"reset".to_vec() })
    );
    assert_eq!(out, Vec::<u8>::new());
}

#[test]
fn error_replies() {
    assert_eq!(
        error_reply(&ProxyError::Momento { message: b"limit exceeded".to_vec() }),
        ErrorReply { bytes: b"-ERR backend error: limit exceeded\r\n".to_vec(), fatal: false }
    );
    assert_eq!(
        error_reply(&ProxyError::Timeout),
        ErrorReply { bytes: b"-ERR backend timeout\r\n".to_vec(), fatal: false }
    );
    assert_eq!(error_reply(&io(b"reset")), ErrorReply { bytes: Vec::new(), fatal: true });
    assert_eq!(
        error_reply(&ProxyError::UnsupportedCommand { command: b"PING".to_vec() }),
        ErrorReply { bytes: b"-ERR unsupported command: PING\r\n".to_vec(), fatal: true }
    );
    assert_eq!(
        error_reply(&ProxyError::Custom { message: b"no".to_vec() }),
        ErrorReply { bytes: b"-ERR no\r\n".to_vec(), fatal: true }
    );
    let mut buf = b"+".to_vec();
    momento_error_to_resp_error(&mut buf, b"boom");
    assert_eq!(buf, b"+-ERR backend error: boom\r\n".to_vec());
    assert_eq!(
        ProxyError::from_backend_error(BackendError::Config { message: b"c".to_vec() }),
        ProxyError::Momento { message: b"c".to_vec() }
    );
    let transport = ProxyError::from_backend_error(BackendError::Io { message: b"reset".to_vec() });
    assert_eq!(
        error_reply(&transport),
        ErrorReply { bytes: b"-ERR backend error: reset\r\n".to_vec(), fatal: false }
    );
    assert_eq!(ProxyError::from_backend_error(BackendError::Timeout), ProxyError::Timeout);
}

#[test]
fn commands_by_name() {
    assert_eq!(command_of(b"get"), Some(RespCommand::Get));
    assert_eq!(command_of(b"SET"), Some(RespCommand::Store));
    assert_eq!(command_of(b"ZrAnGe"), Some(RespCommand::SortedSetRange));
    assert_eq!(command_of(b"zunionstore"), Some(RespCommand::SortedSetUnionStore));
    assert_eq!(command_of(b"ping"), None);
    assert_eq!(command_of(b""), None);
    assert_eq!(command_of(b"get "), None);
    assert_eq!(COMMAND_COUNT, 38);
    let mut names = std::collections::HashSet::new();
    for i in 0..COMMAND_COUNT {
        let command = nth_command(i);
        let name = command.name_bytes();
        assert_eq!(command_of(&name), Some(command));
        assert_eq!(command_of(&name.to_ascii_uppercase()), Some(command));
        let mut rpc = b"resp_".to_vec();
        rpc.extend_from_slice(&name);
        assert_eq!(command.rpc(), rpc);
        assert!(names.insert(name));
    }
    assert_eq!(to_lower_case(b"AbC-[z@Z"), b"abc-[z@z".to_vec());
}

#[test]
fn commands_are_framed_as_arrays_of_bulk_strings() {
    assert_eq!(
        parse_command(b"*2\r\n$3\r\nGET\r\n$3\r\nfoo\r\n*1\r\n"),
        Framed::Ready { arguments: vec![b"GET".to_vec(), b"foo".to_vec()], consumed: 22 }
    );
    assert_eq!(
        parse_command(b"*3\r\n$3\r\nSET\r\n$1\r\nk\r\n$4\r\na\r\nb\r\n"),
        Framed::Ready {
            arguments: vec![b"SET".to_vec(), b"k".to_vec(), b"a\r\nb".to_vec()],
            consumed: 30,
        }
    );
    assert_eq!(
        parse_command(b"*1\r\n$0\r\n\r\n"),
        Framed::Ready { arguments: vec![Vec::new()], consumed: 10 }
    );
    for partial in [
        &b""[..], b"*", b"*2", b"*2\r", b"*2\r\n", b"*2\r\n$3\r\nGET\r\n", b"*2\r\n$3\r\nGET\r\n$3\r\nfo",
        b"*2\r\n$3\r\nGET\r\n$3\r\nfoo\r",
    ] {
        assert_eq!(parse_command(partial), Framed::NeedMore);
    }
    for bad in [
        &b"GET foo\r\n"[..], b"*0\r\n", b"*x\r\n", b"*-1\r\n", b"*1\r\n+OK\r\n", b"*1\r\n$x\r\n",
        b"*1\r\n$3\r\nGETxx", b"*99999999\r\n",
    ] {
        assert_eq!(parse_command(bad), Framed::Malformed);
    }
}

#[test]
fn routing_and_what_is_written() {
    assert_eq!(route(&vec![b"zadd".to_vec(), b"k".to_vec()]), Routed::Serve(RespCommand::SortedSetAdd));
    assert_eq!(
        route(&vec![b"PING".to_vec()]),
        Routed::Refuse(ProxyError::UnsupportedCommand { command: b"PING".to_vec() })
    );
    assert_eq!(
        malformed_reply(),
        Written { bytes: b"-ERR malformed request\r\n".to_vec(), fatal: true }
    );
    assert_eq!(
        finish_command(Ok(()), b":1\r\n".to_vec()),
        Written { bytes: b":1\r\n".to_vec(), fatal: false }
    );
    assert_eq!(
        finish_command(Err(ProxyError::Timeout), b"partial".to_vec()),
        Written { bytes: b"-ERR backend timeout\r\n".to_vec(), fatal: false }
    );
    assert_eq!(
        finish_command(
            Err(ProxyError::UnsupportedCommand { command: b"ping".to_vec() }),
            Vec::new()
        ),
        Written { bytes: b"-ERR unsupported command: ping\r\n".to_vec(), fatal: true }
    );
}

#[test]
fn a_burst_of_commands_is_taken_as_a_whole() {
    let burst = b"*2\r\n$3\r\nGET\r\n$1\r\na\r\n*3\r\n$3\r\nSET\r\n$1\r\nb\r\n$1\r\n1\r\n*1\r\n$4\r\nPI";
    let drained = drain_commands(burst);
    assert_eq!(
        drained.commands,
        vec![
            vec![b"GET".to_vec(), b"a".to_vec()],
            vec![b"SET".to_vec(), b"b".to_vec(), b"1".to_vec()],
        ]
    );
    assert_eq!(drained.consumed, 47);
    assert!(!drained.malformed);
    let rest = drain_commands(&burst[drained.consumed..]);
    assert_eq!((rest.commands.len(), rest.consumed, rest.malformed), (0, 0, false));
    let bad = drain_commands(b"*1\r\n$4\r\nPING\r\nPING\r\n");
    assert_eq!(bad.commands, vec![vec![b"PING".to_vec()]]);
    assert_eq!(bad.consumed, 14);
    assert!(bad.malformed);
    assert_eq!(drain_commands(b"").commands.len(), 0);
}

#[test]
fn a_command_is_closed_with_its_outcome() {
    let metrics = DefaultProxyMetrics::new();
    let served = route(&vec![b"zscore".to_vec(), b"k".to_vec(), b"m".to_vec()]);
    let recorder = recorder_for(&metrics, &served);
    let closed = close_command(recorder, Ok(()), b"$1\r\n1\r\n".to_vec());
    assert_eq!(closed.rpc, Rpc::Resp(RespCommand::SortedSetScore));
    assert_eq!(closed.observed, vec![Outcome::Success]);
    assert_eq!(closed.written, Written { bytes: b"$1\r\n1\r\n".to_vec(), fatal: false });
    let recorder = recorder_for(&metrics, &served);
    let closed = close_command(recorder, Err(ProxyError::Timeout), b"partial".to_vec());
    assert_eq!(closed.observed, vec![Outcome::Error]);
    assert_eq!(closed.written, Written { bytes: b"-ERR backend timeout\r\n".to_vec(), fatal: false });
    let refused = route(&vec![b"ping".to_vec()]);
    let recorder = recorder_for(&metrics, &refused);
    let error = match refused {
        Routed::Refuse(e) => e,
        Routed::Serve(_) => panic!("ping is not served"),
    };
    let closed = close_command(recorder, Err(error), Vec::new());
    assert_eq!(closed.rpc, Rpc::RespUnimplemented);
    assert_eq!(closed.observed, vec![Outcome::Error]);
    assert_eq!(
        closed.written,
        Written { bytes: b"-ERR unsupported command: ping\r\n".to_vec(), fatal: true }
    );
}
