use ws_tcp_proxy::cli::{parse_args, ProxyConfig, UsageError};
use ws_tcp_proxy::clock::{clock_reading, elapsed_ms, get_timestamp, timestamp_from};
use ws_tcp_proxy::error::RelayError;
use ws_tcp_proxy::message::WsMessage;
use ws_tcp_proxy::pump::{tcp_to_ws_step, ws_to_tcp_step, InboundStep, OutboundStep};
use ws_tcp_proxy::session::{Action, Connection, Direction, Phase};
use ws_tcp_proxy::READ_CHUNK_LEN;

fn args(items: &[&str]) -> Vec<String> {
    items.iter().map(|s| s.to_string()).collect()
}

#[test]
fn binary_message_is_forwarded_verbatim() {
    let step = ws_to_tcp_step(Some(Ok(WsMessage::Binary(vec![0, 1, 255]))));
    assert_eq!(step, InboundStep::Forward(vec![0, 1, 255]));
}

#[test]
fn text_message_is_forwarded_as_its_bytes() {
    let step = ws_to_tcp_step(Some(Ok(WsMessage::Text(b"hello".to_vec()))));
    assert_eq!(step, InboundStep::Forward(b"hello".to_vec()));
}

#[test]
fn control_messages_forward_nothing() {
    assert_eq!(ws_to_tcp_step(Some(Ok(WsMessage::Ping(vec![1, 2])))), InboundStep::Skip);
    assert_eq!(ws_to_tcp_step(Some(Ok(WsMessage::Pong(vec![3])))), InboundStep::Skip);
    assert_eq!(ws_to_tcp_step(Some(Ok(WsMessage::Close))), InboundStep::Skip);
}

#[test]
fn websocket_stream_end_and_error_stop_the_pump() {
    assert_eq!(ws_to_tcp_step(None), InboundStep::Finish(Ok(())));
    assert_eq!(
        ws_to_tcp_step(Some(Err(RelayError::Protocol))),
        InboundStep::Finish(Err(RelayError::Protocol))
    );
}

#[test]
fn inbound_payloads_concatenate_in_order() {
    let msgs = vec![
        WsMessage::Text(b"ab".to_vec()),
        WsMessage::Ping(vec![9]),
        WsMessage::Binary(vec![1, 2, 3]),
        WsMessage::Close,
        WsMessage::Text(b"z".to_vec()),
    ];
    let mut tcp: Vec<u8> = Vec::new();
    for m in msgs {
        if let InboundStep::Forward(bytes) = ws_to_tcp_step(Some(Ok(m))) {
            tcp.extend_from_slice(&bytes);
        }
    }
    assert_eq!(tcp, b"ab\x01\x02\x03z".to_vec());
}

#[test]
fn upstream_read_becomes_one_binary_frame() {
    let mut buffer = [0u8; READ_CHUNK_LEN];
    buffer[..4].copy_from_slice(&[7, 8, 9, 10]);
    let step = tcp_to_ws_step(Ok(3), &buffer);
    assert_eq!(step, OutboundStep::Send(WsMessage::Binary(vec![7, 8, 9])));
}

#[test]
fn upstream_eof_finishes_cleanly() {
    let buffer = [5u8; READ_CHUNK_LEN];
    assert_eq!(tcp_to_ws_step(Ok(0), &buffer), OutboundStep::Finish(Ok(())));
}

#[test]
fn upstream_read_error_stops_the_pump() {
    let buffer = [0u8; READ_CHUNK_LEN];
    assert_eq!(
        tcp_to_ws_step(Err(RelayError::Io), &buffer),
        OutboundStep::Finish(Err(RelayError::Io))
    );
}

#[test]
fn full_buffer_read_is_one_full_frame() {
    let buffer: Vec<u8> = (0..READ_CHUNK_LEN).map(|i| (i % 251) as u8).collect();
    match tcp_to_ws_step(Ok(READ_CHUNK_LEN), &buffer) {
        OutboundStep::Send(WsMessage::Binary(v)) => assert_eq!(v, buffer),
        other => panic!("unexpected step {:?}", other),
    }
}

#[test]
fn two_buffers_of_upstream_bytes_arrive_in_two_frames() {
    let data: Vec<u8> = (0..2048usize).map(|i| (i * 7 % 256) as u8).collect();
    let mut frames: Vec<Vec<u8>> = Vec::new();
    let mut buffer = [0u8; READ_CHUNK_LEN];
    let mut pos = 0usize;
    loop {
        let n = (data.len() - pos).min(READ_CHUNK_LEN);
        buffer[..n].copy_from_slice(&data[pos..pos + n]);
        pos += n;
        match tcp_to_ws_step(Ok(n), &buffer) {
            OutboundStep::Send(WsMessage::Binary(v)) => frames.push(v),
            OutboundStep::Finish(r) => {
                assert_eq!(r, Ok(()));
                break;
            }
            other => panic!("unexpected step {:?}", other),
        }
    }
    assert_eq!(frames.len(), 2);
    assert!(frames.iter().all(|f| f.len() <= READ_CHUNK_LEN));
    assert_eq!(frames.concat(), data);
}

#[test]
fn uneven_reads_keep_the_byte_stream() {
    let data: Vec<u8> = (0..1500usize).map(|i| (i % 256) as u8).collect();
    let sizes = [1usize, 1024, 300, 175];
    let mut frames: Vec<Vec<u8>> = Vec::new();
    let mut buffer = [0u8; READ_CHUNK_LEN];
    let mut pos = 0usize;
    for n in sizes {
        buffer[..n].copy_from_slice(&data[pos..pos + n]);
        pos += n;
        if let OutboundStep::Send(WsMessage::Binary(v)) = tcp_to_ws_step(Ok(n), &buffer) {
            frames.push(v);
        }
    }
    assert_eq!(frames.len(), 4);
    assert_eq!(frames.concat(), data);
}

#[test]
fn message_payload_accessors() {
    assert!(WsMessage::Text(vec![1]).is_data());
    assert!(WsMessage::Binary(vec![]).is_data());
    assert!(!WsMessage::Ping(vec![1]).is_data());
    assert!(!WsMessage::Close.is_data());
    assert_eq!(WsMessage::Pong(vec![4, 5]).into_data(), vec![4, 5]);
    assert_eq!(WsMessage::Close.into_data(), Vec::<u8>::new());
}

#[test]
fn connection_full_lifecycle() {
    let mut c = Connection::new();
    assert_eq!(c.phase(), Phase::Handshaking);
    assert_eq!(c.handshake_done(Ok(()), 1_000), Action::ConnectUpstream);
    assert_eq!(c.started_ms(), 1_000);
    assert_eq!(c.upstream_connected(Ok(())), Action::StartPumps);
    assert_eq!(c.phase(), Phase::Relaying);
    assert_eq!(c.pump_finished(Direction::TcpToWs, Ok(()), 1_200), Action::Wait);
    assert_eq!(c.phase(), Phase::Relaying);
    assert_eq!(c.pump_finished(Direction::WsToTcp, Ok(()), 1_750), Action::Finished(Ok(()), 750));
    assert_eq!(c.phase(), Phase::Closed);
}

#[test]
fn handshake_failure_aborts_before_connecting() {
    let mut c = Connection::new();
    assert_eq!(
        c.handshake_done(Err(RelayError::Handshake), 5),
        Action::Abort(RelayError::Handshake)
    );
    assert_eq!(c.phase(), Phase::Closed);
    assert_eq!(c.upstream_connected(Ok(())), Action::Ignore);
}

#[test]
fn connect_failure_aborts_without_relaying() {
    let mut c = Connection::new();
    c.handshake_done(Ok(()), 5);
    assert_eq!(c.upstream_connected(Err(RelayError::Connect)), Action::Abort(RelayError::Connect));
    assert_eq!(c.phase(), Phase::Closed);
    assert_eq!(c.pump_finished(Direction::WsToTcp, Ok(()), 9), Action::Ignore);
}

#[test]
fn first_pump_error_is_the_outcome() {
    let mut c = Connection::new();
    c.handshake_done(Ok(()), 100);
    c.upstream_connected(Ok(()));
    assert_eq!(c.pump_finished(Direction::WsToTcp, Err(RelayError::Protocol), 150), Action::Wait);
    assert_eq!(
        c.pump_finished(Direction::TcpToWs, Err(RelayError::Io), 400),
        Action::Finished(Err(RelayError::Protocol), 300)
    );
}

#[test]
fn later_error_is_reported_after_clean_end() {
    let mut c = Connection::new();
    c.handshake_done(Ok(()), 0);
    c.upstream_connected(Ok(()));
    assert_eq!(c.pump_finished(Direction::TcpToWs, Ok(()), 10), Action::Wait);
    assert_eq!(
        c.pump_finished(Direction::WsToTcp, Err(RelayError::Io), 20),
        Action::Finished(Err(RelayError::Io), 20)
    );
}

#[test]
fn repeated_pump_end_is_ignored() {
    let mut c = Connection::new();
    c.handshake_done(Ok(()), 0);
    c.upstream_connected(Ok(()));
    assert_eq!(c.pump_finished(Direction::TcpToWs, Ok(()), 10), Action::Wait);
    assert_eq!(c.pump_finished(Direction::TcpToWs, Err(RelayError::Io), 11), Action::Ignore);
    assert_eq!(c.phase(), Phase::Relaying);
}

#[test]
fn events_before_their_phase_are_ignored() {
    let mut c = Connection::new();
    assert_eq!(c.upstream_connected(Ok(())), Action::Ignore);
    assert_eq!(c.pump_finished(Direction::TcpToWs, Ok(()), 1), Action::Ignore);
    assert_eq!(c.phase(), Phase::Handshaking);
}

#[test]
fn elapsed_time_is_end_minus_start() {
    assert_eq!(elapsed_ms(1_000, 4_250), 3_250);
    assert_eq!(elapsed_ms(7, 7), 0);
    assert_eq!(elapsed_ms(10, 3), 0);
}

#[test]
fn clock_reads_after_the_epoch() {
    let a = get_timestamp();
    let b = get_timestamp();
    assert!(a > 1_500_000_000_000);
    assert!(b >= a);
}

#[test]
fn two_addresses_are_accepted() {
    let r = parse_args(&args(&["proxy", "127.0.0.1:8080", "10.0.0.2:5432"]));
    assert_eq!(
        r,
        Ok(ProxyConfig {
            source_addr: "127.0.0.1:8080".to_string(),
            target_addr: "10.0.0.2:5432".to_string(),
        })
    );
}

#[test]
fn wrong_argument_counts_are_usage_errors() {
    assert_eq!(parse_args(&args(&["proxy"])), Err(UsageError));
    assert_eq!(parse_args(&args(&["proxy", "a:1"])), Err(UsageError));
    assert_eq!(parse_args(&args(&["proxy", "a:1", "b:2", "c:3"])), Err(UsageError));
    assert_eq!(parse_args(&args(&[])), Err(UsageError));
}

#[test]
fn reading_gives_truncated_whole_milliseconds() {
    assert_eq!(timestamp_from(Some((1, 999_999_999))), 1999);
    assert_eq!(timestamp_from(Some((0, 999_999))), 0);
    assert_eq!(timestamp_from(Some((1_700_000_000, 123_456_789))), 1_700_000_000_123);
}

#[test]
fn reading_before_the_epoch_gives_zero() {
    assert_eq!(timestamp_from(None), 0);
}

#[test]
fn largest_reading_does_not_overflow() {
    assert_eq!(
        timestamp_from(Some((u64::MAX, 999_999_999))),
        u64::MAX as u128 * 1000 + 999
    );
}

#[test]
fn later_reading_never_gives_fewer_milliseconds() {
    assert!(timestamp_from(Some((5, 999_000_000))) <= timestamp_from(Some((6, 0))));
    assert!(timestamp_from(Some((5, 1_000_000))) <= timestamp_from(Some((5, 1_999_999))));
    assert!(timestamp_from(None) <= timestamp_from(Some((0, 0))));
}

#[test]
fn same_reading_gives_same_timestamp() {
    let reading = Some((42u64, 7_000_001u32));
    assert_eq!(timestamp_from(reading), timestamp_from(reading));
}

#[test]
fn live_clock_reading_is_well_formed() {
    match clock_reading() {
        Some((s, n)) => {
            assert!(n < 1_000_000_000);
            assert!(s > 1_500_000_000);
            assert_eq!(timestamp_from(Some((s, n))), s as u128 * 1000 + (n / 1_000_000) as u128);
        }
        None => panic!("clock before the epoch"),
    }
}
