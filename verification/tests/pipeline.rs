use momento_proxy::frontend::{Codec, ConnectionState, PipelineSlot, SEQUENCE_WINDOW};
use momento_proxy::memcache::{GetRequest, Request, Response, Value};

fn slot(sequence: u64) -> PipelineSlot {
    let key = format!("k{sequence}").into_bytes();
    PipelineSlot {
        sequence,
        request: Request::Get(GetRequest { keys: vec![key.clone()] }),
        response: Response::Values(vec![Value { key, flags: 0, data: b"v".to_vec() }]),
        envelope: None,
    }
}

fn wire(sequence: u64) -> Vec<u8> {
    format!("VALUE k{sequence} 0 1\r\nv\r\nEND\r\n").into_bytes()
}

fn permutations(items: Vec<u64>) -> Vec<Vec<u64>> {
    if items.len() <= 1 {
        return vec![items];
    }
    let mut all = Vec::new();
    for i in 0..items.len() {
        let mut rest = items.clone();
        let first = rest.remove(i);
        for mut tail in permutations(rest) {
            tail.insert(0, first);
            all.push(tail);
        }
    }
    all
}

#[test]
fn responses_leave_in_request_order_whatever_the_order_of_completion() {
    let expected: Vec<u8> = (0..5).flat_map(wire).collect();
    for order in permutations(vec![0, 1, 2, 3, 4]) {
        let mut state = ConnectionState::new();
        for sequence in 0..5 {
            assert_eq!(state.accept(), Some(sequence));
        }
        let mut out = Vec::new();
        let mut emitted = 0;
        for sequence in order {
            emitted += state.complete(slot(sequence), &mut out);
            assert_eq!(state.next_sequence_to_emit(), emitted);
            let so_far: Vec<u8> = (0..emitted).flat_map(wire).collect();
            assert_eq!(out, so_far);
        }
        assert_eq!(out, expected);
        assert_eq!(state.backlog_len(), 0);
    }
}

#[test]
fn a_slot_that_comes_twice_goes_out_once() {
    let mut state = ConnectionState::new();
    for _ in 0..3 {
        state.accept();
    }
    let mut out = Vec::new();
    assert_eq!(state.complete(slot(2), &mut out), 0);
    assert_eq!(state.complete(slot(2), &mut out), 0);
    assert_eq!(state.complete(slot(1), &mut out), 0);
    assert_eq!(state.backlog_len(), 2);
    assert_eq!(state.complete(slot(0), &mut out), 3);
    assert_eq!(state.complete(slot(1), &mut out), 0);
    assert_eq!(state.complete(slot(0), &mut out), 0);
    let expected: Vec<u8> = (0..3).flat_map(wire).collect();
    assert_eq!(out, expected);
}

#[test]
fn reader_takes_whole_requests_and_leaves_the_rest() {
    let mut state = ConnectionState::new();
    let drained = state.drain_requests(b"get a\r\ndelete b\r\nset c 0 0 5\r\nhel", Codec::Text);
    assert_eq!(drained.consumed, 17);
    assert!(!drained.malformed);
    assert!(!drained.stopped);
    let sequences: Vec<u64> = drained.requests.iter().map(|a| a.sequence).collect();
    assert_eq!(sequences, vec![0, 1]);
    assert_eq!(state.pending_dispatches(), 2);
    let drained = state.drain_requests(b"set c 0 0 5\r\nhello\r\n", Codec::Text);
    assert_eq!(drained.consumed, 20);
    assert_eq!(drained.requests[0].sequence, 2);
    assert!(state.read_alive());
    let drained = state.drain_requests(b"", Codec::Text);
    assert_eq!(drained.requests.len(), 0);
    assert_eq!(drained.consumed, 0);
}

#[test]
fn a_reader_that_is_done_accepts_nothing() {
    let mut state = ConnectionState::new();
    state.reader_done();
    let drained = state.drain_requests(b"get a\r\n", Codec::Text);
    assert!(drained.stopped);
    assert!(!drained.malformed);
    assert_eq!(drained.requests.len(), 0);
    assert_eq!(drained.consumed, 0);
    assert!(state.drained());
}

#[test]
fn the_window_of_requests_in_flight_is_bounded() {
    let mut state = ConnectionState::new();
    for sequence in 0..SEQUENCE_WINDOW {
        assert_eq!(state.accept(), Some(sequence));
    }
    assert_eq!(state.accept(), None);
    assert_eq!(state.pending_dispatches(), 1024);
    let drained = state.drain_requests(b"get a\r\n", Codec::Text);
    assert!(drained.stopped);
    assert_eq!(drained.consumed, 0);
    assert!(state.read_alive());
    let mut out = Vec::new();
    assert_eq!(state.complete(slot(1), &mut out), 0);
    assert_eq!(state.accept(), None);
    assert_eq!(state.complete(slot(0), &mut out), 2);
    assert_eq!(state.accept(), Some(1024));
    assert_eq!(state.accept(), Some(1025));
    assert_eq!(state.accept(), None);
}
