use crazymouse::errors::ProtocolError;
use crazymouse::packet::Packet;
use crazymouse::toc::parse_name;

#[test]
fn header_round_trip_all_ports_and_channels() {
    for port in 0u8..16 {
        for channel in 0u8..4 {
            for len in 0usize..4 {
                let payload: Vec<u8> = (0..len as u8).map(|b| b.wrapping_mul(37)).collect();
                let packet = Packet::new(port, channel, payload.clone());
                let bytes = packet.to_vec();
                assert_eq!(bytes.len(), payload.len() + 1);
                let back = Packet::from_vec(bytes);
                assert_eq!(back.port, port);
                assert_eq!(back.channel, channel);
                assert_eq!(back.data, payload);
            }
        }
    }
}

#[test]
fn header_reserved_bits_are_set() {
    // port 0x5, channel 0x0: 0101 11 00
    assert_eq!(Packet::new(0x5, 0x0, vec![0x03]).to_vec(), vec![0x5C, 0x03]);
    // port 0x5, channel 0x1: 0101 11 01
    assert_eq!(Packet::new(0x5, 0x1, vec![]).to_vec(), vec![0x5D]);
    // port 0x5, channel 0x2: 0101 11 10
    assert_eq!(Packet::new(0x5, 0x2, vec![0x42]).to_vec(), vec![0x5E, 0x42]);
}

#[test]
fn decode_rejects_empty_input() {
    assert!(matches!(
        Packet::decode(vec![]),
        Err(ProtocolError::MalformedPacket)
    ));
}

#[test]
fn decode_accepts_header_only_frame() {
    let packet = Packet::decode(vec![0x5C]).unwrap();
    assert_eq!(packet.port, 0x5);
    assert_eq!(packet.channel, 0x0);
    assert!(packet.data.is_empty());
}

#[test]
fn name_decoding_two_runs() {
    assert_eq!(parse_name(b"stabilizer\0roll\0garbage"), "stabilizer.roll");
}

#[test]
fn name_decoding_drops_non_alphabetic_bytes() {
    assert_eq!(parse_name(b"ro1l"), "rol");
    assert_eq!(parse_name(b"r0o1l!l"), "roll");
    assert_eq!(parse_name(b"stab_1\0ro1ll\0x"), "stab.roll");
}

#[test]
fn name_decoding_stops_at_second_terminator() {
    assert_eq!(parse_name(b"a\0b\0c\0d"), "a.b");
    assert_eq!(parse_name(b"\0\0whatever"), ".");
    assert_eq!(parse_name(b""), "");
}
