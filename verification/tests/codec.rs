use momento_proxy::bytes::{find_crlf, parse_decimal, push_decimal, split_fields};
use momento_proxy::memcache::{
    compose_response, parse_request, DeleteRequest, GetRequest, Parsed, Request, Response,
    SetRequest, Value,
};
use momento_proxy::request_bytes::compose_request;

fn get(keys: &[&[u8]]) -> Request {
    Request::Get(GetRequest { keys: keys.iter().map(|k| k.to_vec()).collect() })
}

#[test]
fn decimal_numerals_are_shortest() {
    let mut out = Vec::new();
    push_decimal(&mut out, 0);
    out.push(b' ');
    push_decimal(&mut out, 42);
    out.push(b' ');
    push_decimal(&mut out, u64::MAX);
    assert_eq!(out, b"0 42 18446744073709551615".to_vec());
}

#[test]
fn decimal_parse_accepts_digits_only() {
    assert_eq!(parse_decimal(b"0"), Some(0));
    assert_eq!(parse_decimal(b"007"), Some(7));
    assert_eq!(parse_decimal(b"18446744073709551615"), Some(u64::MAX));
    assert_eq!(parse_decimal(b"18446744073709551616"), None);
    assert_eq!(parse_decimal(b""), None);
    assert_eq!(parse_decimal(b"+1"), None);
    assert_eq!(parse_decimal(b"1a"), None);
}

#[test]
fn fields_part_at_every_space() {
    assert_eq!(split_fields(b"get foo bar"), vec![b"get".to_vec(), b"foo".to_vec(), b"bar".to_vec()]);
    assert_eq!(split_fields(b"a  b"), vec![b"a".to_vec(), b"".to_vec(), b"b".to_vec()]);
    assert_eq!(split_fields(b""), vec![b"".to_vec()]);
}

#[test]
fn first_terminator_is_found() {
    assert_eq!(find_crlf(b"ab\r\ncd\r\n", 0), Some(2));
    assert_eq!(find_crlf(b"ab\r\ncd\r\n", 3), Some(6));
    assert_eq!(find_crlf(b"ab\rcd\n", 0), None);
}

#[test]
fn parse_get_with_several_keys() {
    assert_eq!(
        parse_request(b"get foo baz qux\r\nget x\r\n"),
        Parsed::Ready { request: get(&[b"foo", b"baz", b"qux"]), consumed: 17 }
    );
}

#[test]
fn parse_set_reads_header_and_data() {
    assert_eq!(
        parse_request(b"set x 42 60 5\r\nhello\r\n"),
        Parsed::Ready {
            request: Request::Store(SetRequest {
                key: b"x".to_vec(),
                value: b"hello".to_vec(),
                flags: 42,
                ttl: Some(60),
                noreply: false,
            }),
            consumed: 22,
        }
    );
    assert_eq!(
        parse_request(b"set x 0 0 2 noreply\r\n\r\n\r\n"),
        Parsed::Ready {
            request: Request::Store(SetRequest {
                key: b"x".to_vec(),
                value: b"\r\n".to_vec(),
                flags: 0,
                ttl: None,
                noreply: true,
            }),
            consumed: 25,
        }
    );
}

#[test]
fn parse_waits_for_missing_bytes() {
    assert_eq!(parse_request(b""), Parsed::NeedMore);
    assert_eq!(parse_request(b"get fo"), Parsed::NeedMore);
    assert_eq!(parse_request(b"set x 0 0 5\r\nhel"), Parsed::NeedMore);
    assert_eq!(parse_request(b"set x 0 0 5\r\nhello\r"), Parsed::NeedMore);
}

#[test]
fn parse_rejects_what_is_no_request() {
    assert_eq!(parse_request(b"get\r\n"), Parsed::Malformed);
    assert_eq!(parse_request(b"get  foo\r\n"), Parsed::Malformed);
    assert_eq!(parse_request(b"set x 0 0 5\r\nhelloXX"), Parsed::Malformed);
    assert_eq!(parse_request(b"set x -1 0 5\r\nhello\r\n"), Parsed::Malformed);
    assert_eq!(parse_request(b"set x 4294967296 0 5\r\nhello\r\n"), Parsed::Malformed);
    assert_eq!(parse_request(b"delete\r\n"), Parsed::Malformed);
    assert_eq!(parse_request(b"delete a b\r\n"), Parsed::Malformed);
    assert_eq!(parse_request(b"GET foo\r\n"), Parsed::Malformed);
    assert_eq!(parse_request(b"\r\n"), Parsed::Malformed);
    let long_key = vec![b'k'; 251];
    let mut line = b"get ".to_vec();
    line.extend_from_slice(&long_key);
    line.extend_from_slice(b"\r\n");
    assert_eq!(parse_request(&line), Parsed::Malformed);
}

#[test]
fn parse_delete_with_and_without_noreply() {
    assert_eq!(
        parse_request(b"delete foo\r\n"),
        Parsed::Ready {
            request: Request::Delete(DeleteRequest { key: b"foo".to_vec(), noreply: false }),
            consumed: 12,
        }
    );
    assert_eq!(
        parse_request(b"delete foo noreply\r\n"),
        Parsed::Ready {
            request: Request::Delete(DeleteRequest { key: b"foo".to_vec(), noreply: true }),
            consumed: 20,
        }
    );
}

#[test]
fn other_commands_parse_as_unsupported() {
    assert_eq!(
        parse_request(b"incr counter 1\r\n"),
        Parsed::Ready { request: Request::Unsupported { verb: b"incr".to_vec() }, consumed: 16 }
    );
    assert_eq!(
        parse_request(b"flush_all\r\n"),
        Parsed::Ready { request: Request::Unsupported { verb: b"flush_all".to_vec() }, consumed: 11 }
    );
}

#[test]
fn composed_requests_parse_back() {
    let requests = vec![
        get(&[b"a"]),
        get(&[b"foo", b"bar", b"baz"]),
        Request::Store(SetRequest {
            key: b"k".to_vec(),
            value: b"some\r\nvalue with spaces".to_vec(),
            flags: u32::MAX,
            ttl: Some(1),
            noreply: true,
        }),
        Request::Store(SetRequest {
            key: b"k".to_vec(),
            value: Vec::new(),
            flags: 0,
            ttl: None,
            noreply: false,
        }),
        Request::Delete(DeleteRequest { key: b"gone".to_vec(), noreply: true }),
        Request::Unsupported { verb: b"quit".to_vec() },
    ];
    for request in requests {
        let mut wire = Vec::new();
        compose_request(&request, &mut wire);
        let framed = wire.len();
        wire.extend_from_slice(b"get next\r\n");
        assert_eq!(parse_request(&wire), Parsed::Ready { request, consumed: framed });
    }
}

#[test]
fn compose_set_request_bytes() {
    let mut wire = Vec::new();
    compose_request(
        &Request::Store(SetRequest {
            key: b"foo".to_vec(),
            value: b"bar".to_vec(),
            flags: 0,
            ttl: Some(60),
            noreply: false,
        }),
        &mut wire,
    );
    assert_eq!(wire, b"set foo 0 60 3\r\nbar\r\n".to_vec());
}

#[test]
fn compose_values_in_order_then_end() {
    let request = get(&[b"foo", b"baz", b"qux"]);
    let response = Response::Values(vec![
        Value { key: b"foo".to_vec(), flags: 0, data: b"bar".to_vec() },
        Value { key: b"qux".to_vec(), flags: 7, data: b"quux".to_vec() },
    ]);
    let mut out = b"x".to_vec();
    compose_response(&request, &response, &mut out);
    assert_eq!(out, b"xVALUE foo 0 3\r\nbar\r\nVALUE qux 7 4\r\nquux\r\nEND\r\n".to_vec());
}

#[test]
fn compose_status_lines() {
    let set = Request::Store(SetRequest {
        key: b"k".to_vec(),
        value: b"v".to_vec(),
        flags: 0,
        ttl: None,
        noreply: false,
    });
    let delete = Request::Delete(DeleteRequest { key: b"k".to_vec(), noreply: false });
    let cases: Vec<(&Request, Response, &[u8])> = vec![
        (&set, Response::Stored { noreply: false }, b"STORED\r\n"),
        (&set, Response::Stored { noreply: true }, b""),
        (&delete, Response::Deleted { noreply: false }, b"DELETED\r\n"),
        (&delete, Response::Deleted { noreply: true }, b""),
        (&delete, Response::NotFound { noreply: false }, b"NOT_FOUND\r\n"),
        (&delete, Response::NotFound { noreply: true }, b""),
        (&set, Response::Error, b"ERROR\r\n"),
        (&set, Response::ClientError(b"empty values not supported".to_vec()), b"CLIENT_ERROR empty values not supported\r\n"),
        (&set, Response::ServerError(b"backend timeout".to_vec()), b"SERVER_ERROR backend timeout\r\n"),
    ];
    for (request, response, expected) in cases {
        let mut out = Vec::new();
        compose_response(request, &response, &mut out);
        assert_eq!(out, expected.to_vec());
    }
    let mut out = Vec::new();
    compose_response(&get(&[b"k"]), &Response::NotFound { noreply: false }, &mut out);
    assert_eq!(out, b"END\r\n".to_vec());
    compose_response(&get(&[b"k"]), &Response::Values(Vec::new()), &mut out);
    assert_eq!(out, b"END\r\nEND\r\n".to_vec());
}

#[test]
fn error_responses_are_told_apart() {
    assert!(Response::Error.is_error());
    assert!(Response::client_error(b"x".to_vec()).is_error());
    assert!(Response::server_error(b"x".to_vec()).is_error());
    assert!(!Response::Stored { noreply: false }.is_error());
    assert!(!Response::NotFound { noreply: false }.is_error());
    assert!(!Response::Values(Vec::new()).is_error());
}
