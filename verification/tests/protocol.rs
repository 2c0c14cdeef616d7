use crazymouse::errors::ProtocolError;
use crazymouse::exchange::{await_reply, exchange_step, AwaitResult, ExchangeStep, RecvOutcome};
use crazymouse::logging::{begin_session, create_block_request, setup_failure, SetupStep};
use crazymouse::packet::Packet;
use crazymouse::telemetry::{decode_telemetry, TelemetryStep};
use crazymouse::toc::{resolution_failure, ResolverStep, Toc, TocResolver};

fn frame(port: u8, channel: u8, payload: Vec<u8>) -> RecvOutcome {
    RecvOutcome::Frame(Packet::new(port, channel, payload).to_vec())
}

#[test]
fn exchange_ignores_wrong_channel() {
    let wrong = frame(0x5, 0x1, vec![0x03]);
    assert!(matches!(
        exchange_step(0x0, 0x03, wrong),
        ExchangeStep::Ignored
    ));
}

#[test]
fn exchange_ignores_wrong_command() {
    let wrong = frame(0x5, 0x0, vec![0x02, 0xAA]);
    assert!(matches!(
        exchange_step(0x0, 0x03, wrong),
        ExchangeStep::Ignored
    ));
}

#[test]
fn exchange_ignores_empty_payload() {
    let empty_payload = frame(0x5, 0x0, vec![]);
    assert!(matches!(
        exchange_step(0x0, 0x03, empty_payload),
        ExchangeStep::Ignored
    ));
}

#[test]
fn exchange_aborts_on_empty_frame() {
    assert!(matches!(
        exchange_step(0x0, 0x03, RecvOutcome::Frame(vec![])),
        ExchangeStep::Abort(ProtocolError::MalformedPacket)
    ));
}

#[test]
fn exchange_aborts_on_timeout_and_failure() {
    assert!(matches!(
        exchange_step(0x0, 0x03, RecvOutcome::TimedOut),
        ExchangeStep::Abort(ProtocolError::Timeout)
    ));
    assert!(matches!(
        exchange_step(0x0, 0x03, RecvOutcome::Failed),
        ExchangeStep::Abort(ProtocolError::TransportError)
    ));
}

#[test]
fn wrong_channel_does_not_short_circuit_wait() {
    let outcomes = vec![
        frame(0x5, 0x1, vec![0x03, 0x07]),
        frame(0x5, 0x0, vec![0x03, 0x02, 0x00]),
    ];
    match await_reply(0x0, 0x03, outcomes) {
        AwaitResult::Reply(reply) => {
            assert_eq!(reply.channel, 0x0);
            assert_eq!(reply.data, vec![0x03, 0x02, 0x00]);
        }
        _ => panic!("expected the matching reply"),
    }
}

#[test]
fn wait_times_out_when_nothing_matches() {
    let outcomes = vec![
        frame(0x5, 0x1, vec![0x03]),
        frame(0x5, 0x0, vec![0x02]),
        RecvOutcome::TimedOut,
    ];
    assert!(matches!(
        await_reply(0x0, 0x03, outcomes),
        AwaitResult::Aborted(ProtocolError::Timeout)
    ));
}

#[test]
fn wait_aborts_on_malformed_frame() {
    let outcomes = vec![frame(0x5, 0x1, vec![0x03]), RecvOutcome::Frame(vec![])];
    assert!(matches!(
        await_reply(0x0, 0x03, outcomes),
        AwaitResult::Aborted(ProtocolError::MalformedPacket)
    ));
}

#[test]
fn wait_aborts_on_transport_failure() {
    let outcomes = vec![frame(0x5, 0x1, vec![0x03]), RecvOutcome::Failed];
    assert!(matches!(
        await_reply(0x0, 0x03, outcomes),
        AwaitResult::Aborted(ProtocolError::TransportError)
    ));
}

#[test]
fn wait_stays_pending_on_discarded_traffic_alone() {
    let outcomes = vec![frame(0x5, 0x1, vec![0x03]), frame(0x5, 0x3, vec![0x04])];
    assert!(matches!(
        await_reply(0x0, 0x03, outcomes),
        AwaitResult::Pending
    ));
}

fn toc_reply(payload: Vec<u8>) -> Packet {
    Packet::new(0x5, 0x0, payload)
}

#[test]
fn toc_resolution_two_items() {
    let (resolver, info_request) = TocResolver::start();
    assert_eq!(info_request.port, 0x5);
    assert_eq!(info_request.channel, 0x0);
    assert_eq!(info_request.data, vec![0x03]);

    let step = resolver.on_reply(&toc_reply(vec![0x03, 0x02, 0x00]));
    let (resolver, item_request) = match step {
        ResolverStep::Continue(m, p) => (m, p),
        _ => panic!("expected the walk to go on"),
    };
    assert_eq!(item_request.data, vec![0x02, 0x00, 0x00]);

    let mut item0 = vec![0x02, 0x05, 0x00];
    item0.extend_from_slice(b"stabilizer\0roll\0");
    let step = resolver.on_reply(&toc_reply(item0));
    let (resolver, item_request) = match step {
        ResolverStep::Continue(m, p) => (m, p),
        _ => panic!("expected the walk to go on"),
    };
    assert_eq!(item_request.data, vec![0x02, 0x01, 0x00]);

    let mut item1 = vec![0x02, 0x07, 0x00];
    item1.extend_from_slice(b"stabilizer\0pitch\0");
    let toc = match resolver.on_reply(&toc_reply(item1)) {
        ResolverStep::Done(toc) => toc,
        _ => panic!("expected the walk to finish"),
    };

    assert_eq!(toc.get(&"stabilizer.roll".to_string()), Some(5));
    assert_eq!(toc.get(&"stabilizer.pitch".to_string()), Some(7));
    assert_eq!(toc.get(&"stabilizer.yaw".to_string()), None);
}

#[test]
fn toc_resolution_zero_items_finishes_at_once() {
    let (resolver, _) = TocResolver::start();
    let toc = match resolver.on_reply(&toc_reply(vec![0x03, 0x00, 0x00])) {
        ResolverStep::Done(toc) => toc,
        _ => panic!("expected an empty directory"),
    };
    assert_eq!(toc.get(&"anything".to_string()), None);
}

#[test]
fn toc_resolution_aborts_on_short_reply() {
    let (resolver, _) = TocResolver::start();
    assert!(matches!(
        resolver.on_reply(&toc_reply(vec![0x03, 0x02])),
        ResolverStep::Failed(ProtocolError::TocResolutionFailed)
    ));
}

#[test]
fn toc_item_count_is_little_endian() {
    let (resolver, _) = TocResolver::start();
    // low byte 0x01, high byte 0x01: 257 items, so the walk goes on
    let step = resolver.on_reply(&toc_reply(vec![0x03, 0x01, 0x01]));
    let resolver = match step {
        ResolverStep::Continue(m, _) => m,
        _ => panic!("expected the walk to go on"),
    };
    assert_eq!(resolver.count, 257);
}

#[test]
fn toc_exchange_failures_abort_resolution() {
    assert_eq!(
        resolution_failure(ProtocolError::Timeout),
        ProtocolError::TocResolutionFailed
    );
    assert_eq!(
        resolution_failure(ProtocolError::MalformedPacket),
        ProtocolError::TocResolutionFailed
    );
    assert_eq!(
        resolution_failure(ProtocolError::TransportError),
        ProtocolError::TransportError
    );
}

#[test]
fn toc_duplicate_name_overwrites() {
    let mut toc = Toc::new();
    toc.insert("stabilizer.roll".to_string(), 1);
    toc.insert("stabilizer.roll".to_string(), 2);
    assert_eq!(toc.get(&"stabilizer.roll".to_string()), Some(2));
}

fn sample_toc() -> Toc {
    let mut toc = Toc::new();
    toc.insert("stabilizer.roll".to_string(), 5);
    toc.insert("stabilizer.pitch".to_string(), 7);
    toc
}

fn both_variables() -> Vec<String> {
    vec!["stabilizer.roll".to_string(), "stabilizer.pitch".to_string()]
}

#[test]
fn create_block_request_payload() {
    let request = create_block_request(&sample_toc(), &both_variables()).unwrap();
    assert_eq!(request.port, 0x5);
    assert_eq!(request.channel, 0x1);
    assert_eq!(
        request.data,
        vec![0x06, 0x42, 0x07, 0x05, 0x00, 0x07, 0x07, 0x00]
    );
}

#[test]
fn begin_session_hands_out_the_create_request() {
    let (_, request) = begin_session(&sample_toc(), &both_variables(), 10).unwrap();
    assert_eq!(request.port, 0x5);
    assert_eq!(request.channel, 0x1);
    assert_eq!(
        request.data,
        vec![0x06, 0x42, 0x07, 0x05, 0x00, 0x07, 0x07, 0x00]
    );
}

#[test]
fn variable_identifiers_encode_little_endian() {
    let mut toc = Toc::new();
    toc.insert("a.b".to_string(), 0x1234);
    let variables = vec!["a.b".to_string()];
    let (_, request) = begin_session(&toc, &variables, 10).unwrap();
    assert_eq!(request.data, vec![0x06, 0x42, 0x07, 0x34, 0x12]);
}

#[test]
fn item_request_index_encodes_little_endian() {
    let (resolver, _) = TocResolver::start();
    // count 0x0102 = 258 items, so the walk passes index 255
    let step = resolver.on_reply(&toc_reply(vec![0x03, 0x02, 0x01]));
    let (mut resolver, mut request) = match step {
        ResolverStep::Continue(m, p) => (m, p),
        _ => panic!("expected the walk to go on"),
    };
    for index in 0..256u16 {
        assert_eq!(
            request.data,
            vec![0x02, (index % 256) as u8, (index / 256) as u8]
        );
        let reply = toc_reply(vec![0x02, 0x01, 0x00, b'g', 0, b'v', 0]);
        match resolver.on_reply(&reply) {
            ResolverStep::Continue(m, p) => {
                resolver = m;
                request = p;
            }
            _ => panic!("expected the walk to go on"),
        }
    }
    assert_eq!(request.data, vec![0x02, 0x00, 0x01]);
}

#[test]
fn session_handshake_runs_in_order() {
    let (setup, _) = begin_session(&sample_toc(), &both_variables(), 10).unwrap();
    let (setup, start_request) = match setup.on_ack() {
        SetupStep::Send(m, p) => (m, p),
        _ => panic!("expected the start-logging request"),
    };
    assert_eq!(start_request.port, 0x5);
    assert_eq!(start_request.channel, 0x1);
    assert_eq!(start_request.data, vec![0x03, 0x42, 0x01]);
    match setup.on_ack() {
        SetupStep::Ready(handle) => assert_eq!(handle.block_id, 0x42),
        _ => panic!("expected the handshake to finish"),
    }
}

#[test]
fn missing_variable_is_fatal() {
    let variables = vec!["stabilizer.roll".to_string(), "stabilizer.yaw".to_string()];
    match begin_session(&sample_toc(), &variables, 10) {
        Err(ProtocolError::VariableNotFound(name)) => assert_eq!(name, "stabilizer.yaw"),
        _ => panic!("expected the missing variable to be fatal"),
    }
}

#[test]
fn sample_period_truncates_to_ticks() {
    let (setup, _) = begin_session(&sample_toc(), &both_variables(), 25).unwrap();
    assert_eq!(setup.period_ticks, 2);
}

#[test]
fn setup_timeout_means_rejection() {
    assert_eq!(
        setup_failure(ProtocolError::Timeout),
        ProtocolError::SetupRejected
    );
    assert_eq!(
        setup_failure(ProtocolError::TransportError),
        ProtocolError::TransportError
    );
}

fn session() -> crazymouse::logging::SessionHandle {
    crazymouse::logging::SessionHandle { block_id: 0x42 }
}

#[test]
fn telemetry_decodes_roll_and_pitch() {
    let mut payload = vec![0x42, 0, 0, 0];
    payload.extend_from_slice(&1.5f32.to_le_bytes());
    payload.extend_from_slice(&(-0.25f32).to_le_bytes());
    let packet = Packet::new(0x5, 0x2, payload);
    match decode_telemetry(&session(), &packet) {
        TelemetryStep::Sample(sample) => {
            assert_eq!(f32::from_bits(sample.roll_bits), 1.5);
            assert_eq!(f32::from_bits(sample.pitch_bits), -0.25);
        }
        _ => panic!("expected a sample"),
    }
}

#[test]
fn telemetry_rejects_wrong_length() {
    let packet = Packet::new(0x5, 0x2, vec![0x42; 11]);
    assert!(matches!(
        decode_telemetry(&session(), &packet),
        TelemetryStep::Malformed(ProtocolError::MalformedSample)
    ));
}

#[test]
fn telemetry_skips_foreign_traffic() {
    let other_block = Packet::new(0x5, 0x2, vec![0x41; 12]);
    assert!(matches!(
        decode_telemetry(&session(), &other_block),
        TelemetryStep::Skip
    ));
    let other_channel = Packet::new(0x5, 0x1, vec![0x42; 12]);
    assert!(matches!(
        decode_telemetry(&session(), &other_channel),
        TelemetryStep::Skip
    ));
    let empty = Packet::new(0x5, 0x2, vec![]);
    assert!(matches!(decode_telemetry(&session(), &empty), TelemetryStep::Skip));
}
