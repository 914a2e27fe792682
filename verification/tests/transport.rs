use tonic_ws_transport::connection::{accepted, connect, WsConnection};
use tonic_ws_transport::establish::{WebClient, WebConnection};
use tonic_ws_transport::inbound::{InboundQueue, Poll};
use tonic_ws_transport::outbound::{Frame, WebClientSink};
use tonic_ws_transport::reader::ByteStreamView;
use tonic_ws_transport::registry::{Event, Handlers, WakeFn, Ws};
use tonic_ws_transport::state::{Error, ReadyState, CLOSED, CLOSING, CONNECTING, OPEN};

fn established() -> WsConnection {
    let mut attempt = WebConnection::new(Ws::new());
    match attempt.poll(ReadyState::Open, 1, 10, 11) {
        Poll::Ready(Ok(client)) => connect(client),
        other => panic!("not established: {:?}", other),
    }
}

fn data(bytes: &[u8]) -> Poll<Result<Vec<u8>, Error>> {
    Poll::Ready(Ok(bytes.to_vec()))
}

#[test]
fn ready_state_codes_round_trip() {
    assert_eq!(ReadyState::from_code(CONNECTING), Some(ReadyState::Connecting));
    assert_eq!(ReadyState::from_code(OPEN), Some(ReadyState::Open));
    assert_eq!(ReadyState::from_code(CLOSING), Some(ReadyState::Closing));
    assert_eq!(ReadyState::from_code(CLOSED), Some(ReadyState::Closed));
    assert_eq!(ReadyState::from_code(4), None);
    assert_eq!(ReadyState::from_code(u16::MAX), None);
    assert_eq!(ReadyState::Connecting.code(), 0);
    assert_eq!(ReadyState::Open.code(), 1);
    assert_eq!(ReadyState::Closing.code(), 2);
    assert_eq!(ReadyState::Closed.code(), 3);
    assert!(ReadyState::Open.is_open());
    assert!(!ReadyState::Connecting.is_open());
    assert!(!ReadyState::Closing.is_open());
    assert!(!ReadyState::Closed.is_open());
}

#[test]
fn error_messages() {
    assert_eq!(Error::ConnectionClosed.message(), "connection closed");
    assert_eq!(Error::Transport("reset".to_string()).message(), "reset");
    assert_eq!(Error::HostBinding("bad address".to_string()).message(), "bad address");
}

#[test]
fn wake_registration_binds_open_and_error() {
    let mut ws = Ws::new();
    let wake = WakeFn::register(&mut ws, Some(5));
    assert_eq!(wake.get(), Some(5));
    assert_eq!(ws.dispatch(Event::Opened), Some(5));
    assert_eq!(ws.dispatch(Event::Errored), Some(5));
    assert_eq!(ws.dispatch(Event::Message), None);
    assert_eq!(ws.dispatch(Event::Closed), None);
    wake.release(&mut ws);
    assert_eq!(ws, Ws::new());
}

#[test]
fn wake_registration_of_nothing_unbinds() {
    let mut ws = Ws::new();
    let first = WakeFn::register(&mut ws, Some(5));
    let none = WakeFn::register(&mut ws, None);
    assert_eq!(none.get(), None);
    assert_eq!(ws, Ws::new());
    first.release(&mut ws);
    none.release(&mut ws);
    assert_eq!(ws, Ws::new());
}

#[test]
fn release_of_replaced_registration_keeps_the_new_one() {
    let mut ws = Ws::new();
    let first = WakeFn::register(&mut ws, Some(1));
    let second = WakeFn::register(&mut ws, Some(2));
    first.release(&mut ws);
    assert_eq!(ws.dispatch(Event::Opened), Some(2));
    assert_eq!(ws.dispatch(Event::Errored), Some(2));
    second.release(&mut ws);
    assert_eq!(ws.dispatch(Event::Opened), None);
    assert_eq!(ws.dispatch(Event::Errored), None);
}

#[test]
fn handlers_bind_message_error_and_close() {
    let mut ws = Ws::new();
    let mut handlers = Handlers::register(&mut ws, Some(7), Some(8));
    assert_eq!(handlers.owners(), 1);
    assert_eq!(ws.dispatch(Event::Message), Some(7));
    assert_eq!(ws.dispatch(Event::Errored), Some(8));
    assert_eq!(ws.dispatch(Event::Closed), Some(8));
    assert_eq!(ws.dispatch(Event::Opened), None);
    assert!(handlers.share());
    assert_eq!(handlers.owners(), 2);
    assert!(!handlers.release(&mut ws));
    assert_eq!(ws.dispatch(Event::Message), Some(7));
    assert!(handlers.release(&mut ws));
    assert_eq!(ws, Ws::new());
    assert_eq!(handlers.owners(), 0);
    assert!(!handlers.release(&mut ws));
    assert!(!handlers.share());
}

#[test]
fn handlers_retire_keeps_owners() {
    let mut ws = Ws::new();
    let mut handlers = Handlers::register(&mut ws, Some(7), Some(8));
    handlers.retire(&mut ws);
    assert_eq!(ws, Ws::new());
    assert_eq!(handlers.owners(), 1);
    assert!(handlers.release(&mut ws));
}

#[test]
fn establishment_stays_pending_while_connecting() {
    let mut attempt = WebConnection::new(Ws::new());
    for token in 0..100u64 {
        let answer = attempt.poll(ReadyState::Connecting, token, 10, 11);
        assert!(matches!(answer, Poll::Pending));
        assert_eq!(attempt.ws().dispatch(Event::Opened), Some(token));
        assert_eq!(attempt.ws().dispatch(Event::Errored), Some(token));
    }
}

#[test]
fn establishment_settles_when_open() {
    let mut attempt = WebConnection::new(Ws::new());
    assert!(matches!(attempt.poll(ReadyState::Connecting, 1, 10, 11), Poll::Pending));
    assert!(attempt.wake(1));
    match attempt.poll(ReadyState::Open, 2, 10, 11) {
        Poll::Ready(Ok(client)) => {
            assert_eq!(client.owners(), 1);
            assert_eq!(client.ws().dispatch(Event::Message), Some(10));
            assert_eq!(client.ws().dispatch(Event::Errored), Some(11));
            assert_eq!(client.ws().dispatch(Event::Closed), Some(11));
            assert_eq!(client.ws().dispatch(Event::Opened), None);
            assert_eq!(client.size_hint(), (0, None));
        }
        other => panic!("not established: {:?}", other),
    }
}

#[test]
fn establishment_fails_when_closing_or_closed() {
    for state in [ReadyState::Closing, ReadyState::Closed] {
        let mut attempt = WebConnection::new(Ws::new());
        assert!(matches!(attempt.poll(ReadyState::Connecting, 1, 10, 11), Poll::Pending));
        match attempt.poll(state, 2, 10, 11) {
            Poll::Ready(Err(e)) => assert_eq!(e, Error::ConnectionClosed),
            other => panic!("not failed: {:?}", other),
        }
        assert_eq!(attempt.ws(), Ws::new());
        assert!(!attempt.wake(1));
        assert!(!attempt.wake(2));
    }
}

#[test]
fn abandoned_establishment_invokes_nothing() {
    let mut attempt = WebConnection::new(Ws::new());
    assert!(matches!(attempt.poll(ReadyState::Connecting, 42, 10, 11), Poll::Pending));
    let ws = attempt.abandon();
    assert_eq!(ws.dispatch(Event::Opened), None);
    assert_eq!(ws.dispatch(Event::Errored), None);
    assert_eq!(ws, Ws::new());
}

#[test]
fn only_the_latest_token_is_resumed() {
    let mut attempt = WebConnection::new(Ws::new());
    assert!(matches!(attempt.poll(ReadyState::Connecting, 1, 10, 11), Poll::Pending));
    assert!(matches!(attempt.poll(ReadyState::Connecting, 2, 10, 11), Poll::Pending));
    assert_eq!(attempt.ws().dispatch(Event::Opened), Some(2));
    assert!(!attempt.wake(1));
    assert_eq!(attempt.ws().dispatch(Event::Opened), Some(2));
    assert!(attempt.wake(2));
    assert_eq!(attempt.ws().dispatch(Event::Opened), None);
    assert_eq!(attempt.ws().dispatch(Event::Errored), None);
    assert!(!attempt.wake(2));
}

#[test]
fn queue_keeps_arrival_order() {
    let mut queue = InboundQueue::new();
    assert_eq!(queue.poll_next(), Poll::Pending);
    for i in 0..50u8 {
        assert!(queue.push(Ok(vec![i, i.wrapping_mul(3)])));
    }
    assert_eq!(queue.size_hint(), (50, None));
    queue.close();
    assert_eq!(queue.size_hint(), (50, Some(50)));
    assert!(!queue.push(Ok(vec![9])));
    for i in 0..50u8 {
        assert_eq!(queue.poll_next(), Poll::Ready(Some(Ok(vec![i, i.wrapping_mul(3)]))));
    }
    assert_eq!(queue.poll_next(), Poll::Ready(None));
    assert_eq!(queue.poll_next(), Poll::Ready(None));
}

#[test]
fn client_error_is_seen_once_then_end() {
    let mut client = WebClient::new(Ws::new(), 10, 11);
    assert!(client.on_message(vec![1]));
    client.on_error(Error::Transport("reset".to_string()));
    assert_eq!(client.ws(), Ws::new());
    assert!(!client.on_message(vec![2]));
    assert_eq!(client.poll_next(), Poll::Ready(Some(Ok(vec![1]))));
    assert_eq!(client.poll_next(), Poll::Ready(Some(Err(Error::Transport("reset".to_string())))));
    assert_eq!(client.poll_next(), Poll::Ready(None));
    assert_eq!(client.poll_next(), Poll::Ready(None));
}

#[test]
fn client_release_closes_once() {
    let mut client = WebClient::new(Ws::new(), 10, 11);
    assert!(client.release());
    assert_eq!(client.owners(), 0);
    assert_eq!(client.ws(), Ws::new());
    assert!(!client.release());
    assert_eq!(client.poll_next(), Poll::Ready(None));
}

#[test]
fn sink_accepts_only_while_open() {
    let sink = WebClientSink::new();
    for state in [ReadyState::Connecting, ReadyState::Closing, ReadyState::Closed] {
        assert_eq!(sink.poll_ready(state), Poll::Ready(Err(Error::ConnectionClosed)));
        assert_eq!(sink.start_send(state, vec![1, 2]), Err(Error::ConnectionClosed));
    }
    assert_eq!(sink.poll_ready(ReadyState::Open), Poll::Ready(Ok(())));
    assert_eq!(sink.start_send(ReadyState::Open, vec![1, 2]), Ok(vec![1, 2]));
    assert_eq!(sink.start_send(ReadyState::Open, vec![]), Ok(vec![]));
    assert_eq!(sink.poll_flush(), Poll::Ready(Ok(())));
    assert_eq!(sink.poll_close(), Poll::Ready(Ok(())));
}

#[test]
fn frames_other_than_binary_are_failures() {
    assert_eq!(Frame::binary(vec![1, 2]), Frame::Binary(vec![1, 2]));
    assert!(Frame::binary(vec![]).is_binary_frame());
    assert!(!Frame::Close.is_binary_frame());
    assert!(!Frame::Text("x".to_string()).is_binary_frame());
    assert_eq!(Frame::Binary(vec![1, 2]).into_payload(), vec![1, 2]);
    assert_eq!(Frame::Binary(vec![1, 2]).into_arrival(), Ok(vec![1, 2]));
    let failure = Err(Error::Transport("unexpected frame kind".to_string()));
    assert_eq!(Frame::Text("hi".to_string()).into_arrival(), failure);
    assert_eq!(Frame::Ping(vec![1]).into_arrival(), failure);
    assert_eq!(Frame::Pong(vec![1]).into_arrival(), failure);
    assert_eq!(Frame::Close.into_arrival(), failure);
    assert_eq!(Frame::Other.into_arrival(), failure);
}

#[test]
fn reader_serves_front_message_first() {
    let mut client = WebClient::new(Ws::new(), 10, 11);
    let mut reader = ByteStreamView::new();
    assert_eq!(reader.read(&mut client, 4), Poll::Pending);
    client.on_message(vec![1, 2, 3]);
    client.on_message(vec![]);
    client.on_message(vec![4, 5]);
    assert_eq!(reader.read(&mut client, 0), data(&[]));
    assert_eq!(reader.buffered(), 0);
    assert_eq!(reader.read(&mut client, 2), data(&[1, 2]));
    assert_eq!(reader.buffered(), 1);
    assert_eq!(reader.read(&mut client, 10), data(&[3]));
    assert_eq!(reader.buffered(), 0);
    assert_eq!(reader.read(&mut client, 10), data(&[4, 5]));
    assert_eq!(reader.read(&mut client, 10), Poll::Pending);
    client.on_close();
    assert_eq!(reader.read(&mut client, 10), data(&[]));
}

#[test]
fn reader_surfaces_failure_where_it_arrived() {
    let mut client = WebClient::new(Ws::new(), 10, 11);
    let mut reader = ByteStreamView::new();
    client.on_message(vec![1, 2, 3]);
    client.on_error(Error::Transport("reset".to_string()));
    assert_eq!(reader.read(&mut client, 2), data(&[1, 2]));
    assert_eq!(reader.read(&mut client, 2), data(&[3]));
    assert_eq!(
        reader.read(&mut client, 2),
        Poll::Ready(Err(Error::Transport("reset".to_string())))
    );
    assert_eq!(reader.read(&mut client, 2), data(&[]));
}

#[test]
fn server_bytes_then_close_reads_as_bytes_then_end() {
    let mut conn = established();
    assert_eq!(conn.peer_addr(), None);
    conn.on_message(vec![0x01, 0x02, 0x03]);
    conn.on_close();
    assert_eq!(conn.read(16), data(&[0x01, 0x02, 0x03]));
    assert_eq!(conn.read(16), data(&[]));
    assert_eq!(conn.read(16), data(&[]));
}

#[test]
fn messages_are_read_in_order_then_end() {
    let mut conn = established();
    let mut expected: Vec<u8> = Vec::new();
    for i in 0..20u8 {
        let message: Vec<u8> = (0..=i).map(|b| b.wrapping_mul(7).wrapping_add(i)).collect();
        expected.extend_from_slice(&message);
        conn.on_frame(Frame::Binary(message));
    }
    conn.on_close();
    let mut seen: Vec<u8> = Vec::new();
    loop {
        match conn.read(7) {
            Poll::Ready(Ok(bytes)) => {
                if bytes.is_empty() {
                    break;
                }
                seen.extend_from_slice(&bytes);
            }
            other => panic!("unexpected answer: {:?}", other),
        }
    }
    assert_eq!(seen, expected);
}

#[test]
fn clean_close_is_end_without_failure() {
    let mut conn = established();
    assert_eq!(conn.read(8), Poll::Pending);
    conn.on_close();
    assert_eq!(conn.read(8), data(&[]));
    conn.on_message(vec![1]);
    assert_eq!(conn.read(8), data(&[]));
}

#[test]
fn unexpected_frame_is_a_read_failure() {
    let mut conn = established();
    conn.on_frame(Frame::Binary(vec![9]));
    conn.on_frame(Frame::Text("hello".to_string()));
    conn.on_frame(Frame::Binary(vec![8]));
    assert_eq!(conn.read(8), data(&[9]));
    assert_eq!(
        conn.read(8),
        Poll::Ready(Err(Error::Transport("unexpected frame kind".to_string())))
    );
    assert_eq!(conn.read(8), data(&[]));
}

#[test]
fn write_fails_at_once_unless_open() {
    let mut conn = established();
    for state in [ReadyState::Connecting, ReadyState::Closing, ReadyState::Closed] {
        assert_eq!(conn.write(state, vec![1, 2, 3]), Err(Error::ConnectionClosed));
    }
    assert_eq!(conn.write(ReadyState::Open, vec![1, 2, 3]), Ok(vec![1, 2, 3]));
    assert_eq!(conn.write(ReadyState::Closed, vec![4]), Err(Error::ConnectionClosed));
    assert_eq!(conn.write(ReadyState::Open, vec![4]), Ok(vec![4]));
    assert_eq!(conn.poll_ready(ReadyState::Open), Poll::Ready(Ok(())));
    assert_eq!(conn.poll_ready(ReadyState::Closing), Poll::Ready(Err(Error::ConnectionClosed)));
    assert_eq!(conn.poll_flush(), Poll::Ready(Ok(())));
    assert_eq!(conn.poll_close(), Poll::Ready(Ok(())));
    assert_eq!(conn.ws().dispatch(Event::Message), Some(10));
    conn.drop_writer();
    assert_eq!(conn.poll_ready(ReadyState::Open), Poll::Ready(Err(Error::ConnectionClosed)));
}

#[test]
fn loopback_round_trip() {
    let mut near = established();
    let mut far = established();
    let payload: Vec<u8> = (0..=255u8).collect();
    let message = near.write(ReadyState::Open, payload.clone()).unwrap();
    far.on_frame(Frame::binary(message));
    assert_eq!(far.read(1024), Poll::Ready(Ok(payload)));
    assert_eq!(far.read(1024), Poll::Pending);
}

#[test]
fn each_write_is_one_message() {
    let mut near = established();
    let mut far = established();
    for chunk in [vec![1u8, 2], vec![3u8], vec![4u8, 5, 6]] {
        let message = near.write(ReadyState::Open, chunk.clone()).unwrap();
        assert_eq!(message, chunk);
        far.on_message(message);
    }
    assert_eq!(far.read(100), data(&[1, 2]));
    assert_eq!(far.read(100), data(&[3]));
    assert_eq!(far.read(100), data(&[4, 5, 6]));
}

#[test]
fn handle_is_closed_with_the_last_half() {
    let mut conn = established();
    assert!(conn.writer_alive());
    assert!(conn.reader_alive());
    assert!(!conn.drop_writer());
    assert!(!conn.writer_alive());
    assert!(!conn.drop_writer());
    assert_eq!(conn.write(ReadyState::Open, vec![1]), Err(Error::ConnectionClosed));
    assert!(conn.drop_reader());
    assert!(!conn.drop_reader());
    assert!(!conn.drop_writer());

    let mut other = established();
    assert!(!other.drop_reader());
    assert_eq!(other.read(4), data(&[]));
    assert!(other.drop_writer());
    assert!(!other.drop_reader());
}

#[test]
fn connection_of_released_client_has_no_halves() {
    let mut client = WebClient::new(Ws::new(), 10, 11);
    assert!(client.release());
    let mut conn = connect(client);
    assert!(!conn.writer_alive());
    assert!(!conn.reader_alive());
    assert!(!conn.drop_writer());
    assert!(!conn.drop_reader());
}

#[test]
fn accepted_connection_carries_the_peer_address() {
    let client = WebClient::new(Ws::new(), 10, 11);
    let mut conn = accepted(client, "127.0.0.1:3012".to_string());
    assert_eq!(conn.peer_addr(), Some("127.0.0.1:3012".to_string()));
    assert!(conn.writer_alive());
    assert!(conn.reader_alive());
    assert_eq!(conn.send(ReadyState::Open, Frame::binary(vec![7, 8])), Ok(vec![7, 8]));
    assert_eq!(
        conn.send(ReadyState::Closing, Frame::binary(vec![7, 8])),
        Err(Error::ConnectionClosed)
    );
    assert!(!conn.drop_reader());
    assert!(conn.drop_writer());
}
