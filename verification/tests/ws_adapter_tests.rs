use proxy_gateway::ws_wrapper::{WsMessage, WsReadOutcome, WsReadState};

fn expect_data(out: WsReadOutcome) -> Vec<u8> {
    match out {
        WsReadOutcome::Data { bytes } => bytes,
        _ => panic!("expected data"),
    }
}

#[test]
fn fragmentation_three_reads_of_three() {
    let mut st = WsReadState::new();
    assert!(!st.has_carry());
    let msg = WsMessage::Binary {
        data: vec![0x01, 0x02, 0x03, 0x04, 0x05, 0x06, 0x07, 0x08],
    };
    let out = expect_data(st.accept_message(msg, 3));
    assert_eq!(out, vec![0x01, 0x02, 0x03]);
    assert!(st.has_carry());
    assert_eq!(st.read_carry(3), vec![0x04, 0x05, 0x06]);
    assert_eq!(st.read_carry(3), vec![0x07, 0x08]);
    // Nothing is left; the next read must wait for the next message.
    assert!(!st.has_carry());
}

#[test]
fn two_half_reads_return_the_message_in_order() {
    let mut st = WsReadState::new();
    let payload: Vec<u8> = (0u8..100).collect();
    let msg = WsMessage::Binary { data: payload.clone() };
    let first = expect_data(st.accept_message(msg, 50));
    let second = st.read_carry(50);
    let mut joined = first.clone();
    joined.extend_from_slice(&second);
    assert_eq!(joined, payload);
    assert!(!st.has_carry());
}

#[test]
fn non_binary_messages_yield_no_bytes() {
    let mut st = WsReadState::new();
    assert!(matches!(st.accept_message(WsMessage::Other, 64), WsReadOutcome::Skip));
    assert!(!st.has_carry());
    let out = expect_data(st.accept_message(WsMessage::Binary { data: vec![9, 8] }, 64));
    assert_eq!(out, vec![9, 8]);
}

#[test]
fn stream_end_reports_eof() {
    let mut st = WsReadState::new();
    assert!(matches!(st.accept_message(WsMessage::Closed, 16), WsReadOutcome::Eof));
    assert!(!st.has_carry());
}

#[test]
fn short_message_is_returned_whole() {
    let mut st = WsReadState::new();
    let out = expect_data(st.accept_message(WsMessage::Binary { data: vec![1, 2] }, 16));
    assert_eq!(out, vec![1, 2]);
    assert!(!st.has_carry());
}

#[test]
fn read_carry_caps_at_the_buffered_length() {
    let mut st = WsReadState::new();
    let _ = expect_data(st.accept_message(WsMessage::Binary { data: vec![1, 2, 3, 4] }, 1));
    assert_eq!(st.read_carry(100), vec![2, 3, 4]);
    assert_eq!(st.read_carry(100), Vec::<u8>::new());
}
