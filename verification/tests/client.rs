use webviewjs::client::{
    read_replies, IpcClient, PollStep, IO_TIMEOUT_MS, POLL_INTERVAL_MS, REQUEST_TIMEOUT_MS,
};
use webviewjs::framing::encode_frame;
use webviewjs::ipc::{generate_request_id, IpcError, IpcMessage, IpcRequest, IpcResponse,
    RequestIdCounter};
use webviewjs::server::{frame_response, ReadOutcome};
use webviewjs::wire::{deserialize_request, serialize_response};

fn error(request_id: u64, message: &str) -> IpcResponse {
    IpcResponse::Error { request_id, message: message.to_string() }
}

fn event(window_id: u32) -> IpcResponse {
    IpcResponse::ApplicationEvent {
        event_type: "WindowCloseRequested".to_string(),
        window_id: Some(window_id),
    }
}

fn deliver(client: &mut IpcClient, request_id: u64, response: IpcResponse) {
    client.receive(ReadOutcome::Data(frame_response(request_id, response).unwrap()));
}

#[test]
fn identifiers_count_up_from_one() {
    let mut counter = RequestIdCounter::new();
    assert_eq!(generate_request_id(&mut counter), 1);
    assert_eq!(generate_request_id(&mut counter), 2);
    assert_eq!(generate_request_id(&mut counter), 3);
    let mut other = RequestIdCounter::new();
    assert_eq!(generate_request_id(&mut other), 1);
}

#[test]
fn the_timeouts_are_those_of_the_protocol() {
    assert_eq!(REQUEST_TIMEOUT_MS, 10_000);
    assert_eq!(IO_TIMEOUT_MS, 5_000);
    assert_eq!(POLL_INTERVAL_MS, 10);
}

#[test]
fn submitted_requests_leave_in_order_with_their_identifiers() {
    let mut client = IpcClient::new();
    assert!(client.is_connected());
    assert_eq!(client.next_outbound(), None);
    assert_eq!(client.submit(IpcRequest::Ping), Ok(1));
    assert_eq!(client.send_request_async(IpcRequest::Exit), Ok(()));
    assert_eq!(client.submit(IpcRequest::CloseWindow { window_id: 3 }), Ok(3));
    let expected = vec![
        (1, IpcRequest::Ping),
        (2, IpcRequest::Exit),
        (3, IpcRequest::CloseWindow { window_id: 3 }),
    ];
    for (request_id, request) in expected {
        let frame = client.next_outbound().unwrap();
        let len = u32::from_be_bytes([frame[0], frame[1], frame[2], frame[3]]) as usize;
        assert_eq!(len + 4, frame.len());
        assert_eq!(
            deserialize_request(&frame[4..]),
            Ok(IpcMessage { request_id, payload: request })
        );
    }
    assert_eq!(client.next_outbound(), None);
}

#[test]
fn a_reply_is_claimed_by_its_identifier_only() {
    let mut client = IpcClient::new();
    let first = client.submit(IpcRequest::Ping).unwrap();
    let second = client.submit(IpcRequest::Ping).unwrap();
    let third = client.submit(IpcRequest::Ping).unwrap();
    assert_eq!(client.poll_response(first, 0), PollStep::Wait);
    deliver(&mut client, third, error(third, "three"));
    deliver(&mut client, second, error(second, "two"));
    assert_eq!(client.poll_response(first, 10), PollStep::Wait);
    assert_eq!(client.poll_response(first, 20), PollStep::Wait);
    assert_eq!(client.poll_response(second, 0), PollStep::Ready(error(second, "two")));
    assert_eq!(client.poll_response(second, 0), PollStep::Wait);
    deliver(&mut client, first, IpcResponse::Pong);
    assert_eq!(client.poll_response(third, 0), PollStep::Ready(error(third, "three")));
    assert_eq!(client.poll_response(first, 30), PollStep::Ready(IpcResponse::Pong));
    assert_eq!(client.poll_response(first, 30), PollStep::Wait);
}

#[test]
fn replies_under_one_identifier_come_out_oldest_first() {
    let mut client = IpcClient::new();
    deliver(&mut client, 4, error(4, "a"));
    deliver(&mut client, 5, error(5, "other"));
    deliver(&mut client, 4, error(4, "b"));
    assert_eq!(client.claim(4), Some(error(4, "a")));
    assert_eq!(client.claim(4), Some(error(4, "b")));
    assert_eq!(client.claim(4), None);
    assert_eq!(client.claim(5), Some(error(5, "other")));
}

#[test]
fn a_wait_ends_with_a_timeout() {
    let mut client = IpcClient::new();
    let id = client.submit(IpcRequest::Ping).unwrap();
    assert_eq!(client.poll_response(id, 0), PollStep::Wait);
    assert_eq!(client.poll_response(id, 9_999), PollStep::Wait);
    assert_eq!(client.poll_response(id, 10_000), PollStep::Wait);
    assert_eq!(client.poll_response(id, 10_001), PollStep::Failed(IpcError::TimedOut));
    assert_eq!(client.poll_response(id, u64::MAX), PollStep::Failed(IpcError::TimedOut));
    deliver(&mut client, id, IpcResponse::Pong);
    assert_eq!(client.poll_response(id, u64::MAX), PollStep::Ready(IpcResponse::Pong));
}

#[test]
fn a_reply_that_came_late_waits_on_unclaimed() {
    let mut client = IpcClient::new();
    let abandoned = client.submit(IpcRequest::Ping).unwrap();
    assert_eq!(client.poll_response(abandoned, 10_001), PollStep::Failed(IpcError::TimedOut));
    let next = client.submit(IpcRequest::Ping).unwrap();
    deliver(&mut client, abandoned, error(abandoned, "late"));
    assert_eq!(client.poll_response(next, 0), PollStep::Wait);
    deliver(&mut client, next, IpcResponse::Pong);
    assert_eq!(client.poll_response(next, 0), PollStep::Ready(IpcResponse::Pong));
}

#[test]
fn a_lost_connection_fails_at_once() {
    let mut client = IpcClient::new();
    let id = client.submit(IpcRequest::Ping).unwrap();
    let answered = client.submit(IpcRequest::Ping).unwrap();
    deliver(&mut client, answered, IpcResponse::Pong);
    client.receive(ReadOutcome::EndOfStream);
    assert!(!client.is_connected());
    assert_eq!(client.poll_response(id, 0), PollStep::Failed(IpcError::ConnectionReset));
    assert_eq!(client.poll_response(id, 20_000), PollStep::Failed(IpcError::ConnectionReset));
    assert_eq!(client.poll_response(answered, 0), PollStep::Ready(IpcResponse::Pong));
    assert_eq!(client.submit(IpcRequest::Ping), Err(IpcError::ConnectionReset));
    assert_eq!(client.send_request_async(IpcRequest::Ping), Err(IpcError::ConnectionReset));
    let mut fresh = IpcClient::new();
    fresh.receive(ReadOutcome::Failed);
    assert!(!fresh.is_connected());
    let mut written = IpcClient::new();
    written.disconnect();
    assert!(!written.is_connected());
}

#[test]
fn a_request_of_many_megabytes_is_queued_whole() {
    let mut client = IpcClient::new();
    let html = "x".repeat(0x0110_0000);
    assert_eq!(client.submit(IpcRequest::LoadHtml { window_id: 1, html: html.clone() }), Ok(1));
    assert_eq!(client.submit(IpcRequest::Ping), Ok(2));
    let frame = client.next_outbound().unwrap();
    assert!(frame.len() > html.len());
    assert_eq!(
        deserialize_request(&frame[4..]),
        Ok(IpcMessage { request_id: 1, payload: IpcRequest::LoadHtml { window_id: 1, html } })
    );
    assert!(client.next_outbound().is_some());
    assert_eq!(client.next_outbound(), None);
}

#[test]
fn replies_arrive_in_pieces_and_together() {
    let mut client = IpcClient::new();
    let mut bytes = frame_response(1, IpcResponse::Pong).unwrap();
    bytes.extend(frame_response(2, error(2, "e")).unwrap());
    let cut = bytes.len() - 3;
    client.receive(ReadOutcome::Data(bytes[..cut].to_vec()));
    client.receive(ReadOutcome::WouldBlock);
    assert_eq!(client.claim(2), None);
    assert_eq!(client.claim(1), Some(IpcResponse::Pong));
    client.receive(ReadOutcome::Data(bytes[cut..].to_vec()));
    assert_eq!(client.claim(2), Some(error(2, "e")));
    assert!(client.is_connected());
}

#[test]
fn events_are_kept_apart_from_replies() {
    let mut client = IpcClient::new();
    let id = client.submit(IpcRequest::Ping).unwrap();
    assert_eq!(client.try_recv_event(), None);
    deliver(&mut client, id, IpcResponse::Pong);
    deliver(&mut client, 0, event(7));
    client.receive(ReadOutcome::Data(
        encode_frame(
            b"{\"ApplicationEvent\": {\"event_type\": \"WindowCloseRequested\", \"window_id\": 8}}",
        )
        .unwrap(),
    ));
    assert_eq!(client.try_recv_event(), Some((0, event(7))));
    assert_eq!(client.try_recv_event(), Some((0, event(8))));
    assert_eq!(client.try_recv_event(), None);
    assert_eq!(client.poll_response(id, 0), PollStep::Ready(IpcResponse::Pong));
}

#[test]
fn a_frame_that_is_no_reply_ends_the_connection() {
    let mut client = IpcClient::new();
    let mut bytes = frame_response(1, IpcResponse::Pong).unwrap();
    bytes.extend(encode_frame(b"garbage").unwrap());
    bytes.extend(frame_response(2, IpcResponse::Pong).unwrap());
    client.receive(ReadOutcome::Data(bytes));
    assert!(!client.is_connected());
    assert_eq!(client.claim(1), Some(IpcResponse::Pong));
    assert_eq!(client.claim(2), None);
    let mut waiting = IpcClient::new();
    waiting.receive(ReadOutcome::Data(vec![255, 255, 255, 255]));
    assert!(waiting.is_connected());
}

#[test]
fn read_replies_stops_at_the_first_bad_frame() {
    let good = serialize_response(3, IpcResponse::Pong).unwrap();
    assert_eq!(read_replies(&vec![]), (vec![], true));
    assert_eq!(read_replies(&vec![good.clone()]), (vec![(3, IpcResponse::Pong)], true));
    assert_eq!(
        read_replies(&vec![good.clone(), b"[]".to_vec(), good]),
        (vec![(3, IpcResponse::Pong)], false)
    );
}
