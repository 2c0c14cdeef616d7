use vstd::prelude::*;

use crate::errors::ProtocolError;

verus! {

/// A framed message: a logical port, a channel multiplexed within that
/// port, and the payload bytes.
pub struct Packet {
    pub channel: u8,
    pub port: u8,
    pub data: Vec<u8>,
}

/// The header byte framing produces: port in bits 4-7, the two reserved
/// bits 2-3 fixed at binary `11`, channel in bits 0-1.
pub open spec fn header_byte(port: u8, channel: u8) -> u8 {
    (((port << 4) & 0xf0) | 0x0c | (channel & 0x03)) as u8
}

/// The channel a header byte carries: bits 0-1.
pub open spec fn header_channel(header: u8) -> u8 {
    header & 0x03
}

/// The port a header byte carries: bits 4-7.
pub open spec fn header_port(header: u8) -> u8 {
    ((header & 0xf0) >> 4) as u8
}

/// The flat byte form of a packet: one header byte, then the raw payload.
pub open spec fn encode_bytes(port: u8, channel: u8, payload: Seq<u8>) -> Seq<u8> {
    seq![header_byte(port, channel)] + payload
}

impl Packet {
    /// A packet is well formed when its port fits four bits and its
    /// channel fits two. Constructing one outside these ranges is a
    /// programming error on the caller's side.
    pub open spec fn wf(self) -> bool {
        self.port < 16 && self.channel < 4
    }

    pub fn new(port: u8, channel: u8, data: Vec<u8>) -> (p: Packet)
        ensures
            p.port == port,
            p.channel == channel,
            p.data == data,
    {
        Packet { channel, port, data }
    }

    /// Unframes a buffer that is known to hold at least the header byte.
    pub fn from_vec(vec: Vec<u8>) -> (p: Packet)
        requires
            vec@.len() >= 1,
        ensures
            p.channel == header_channel(vec@[0]),
            p.port == header_port(vec@[0]),
            p.data@ == vec@.subrange(1, vec@.len() as int),
            p.wf(),
    {
        let mut vec = vec;
        let header = vec[0];

        let channel = header & 0x03;
        let port = (header & 0xF0) >> 4;
        let data = vec.split_off(1);

        proof {
            assert(header & 0x03 < 4 && ((header & 0xF0) >> 4) < 16) by (bit_vector);
        }

        Packet { channel, port, data }
    }

    /// Unframes a received buffer; an empty one cannot carry a header.
    pub fn decode(vec: Vec<u8>) -> (r: Result<Packet, ProtocolError>)
        ensures
            vec@.len() == 0 <==> r == Err::<Packet, ProtocolError>(ProtocolError::MalformedPacket),
            vec@.len() >= 1 ==> (r matches Ok(p) && {
                &&& p.channel == header_channel(vec@[0])
                &&& p.port == header_port(vec@[0])
                &&& p.data@ == vec@.subrange(1, vec@.len() as int)
                &&& p.wf()
            }),
    {
        if vec.len() == 0 {
            Err(ProtocolError::MalformedPacket)
        } else {
            Ok(Packet::from_vec(vec))
        }
    }

    /// Frames the packet: header byte, then the payload, which is copied
    /// and left in place.
    pub fn to_vec(&self) -> (r: Vec<u8>)
        ensures
            r@ == encode_bytes(self.port, self.channel, self.data@),
    {
        let mut vec: Vec<u8> = Vec::new();

        // bits 2 and 3 are reserved and always set
        let mut header: u8 = 0x3 << 2;

        // channel is in bits 0 and 1
        header |= self.channel & 0x03;

        // port is in bits 4 to 7
        header |= (self.port << 4) & 0xF0;

        proof {
            let p = self.port;
            let c = self.channel;
            assert((((0x3u8 << 2) | (c & 0x03)) | ((p << 4) & 0xF0))
                == (((p << 4) & 0xf0) | 0x0c | (c & 0x03))) by (bit_vector);
        }

        vec.push(header);

        let mut i: usize = 0;
        while i < self.data.len()
            invariant
                i <= self.data@.len(),
                vec@ == seq![header_byte(self.port, self.channel)] + self.data@.subrange(0, i as int),
            decreases self.data@.len() - i,
        {
            vec.push(self.data[i]);
            proof {
                assert(self.data@.subrange(0, i + 1 as int)
                    == self.data@.subrange(0, i as int).push(self.data@[i as int]));
            }
            i += 1;
        }

        proof {
            assert(self.data@.subrange(0, self.data@.len() as int) == self.data@);
        }

        vec
    }
}

/// Law: framing and then unframing gives back the port, the channel and
/// the payload, for every in-range port and channel and every payload.
pub proof fn lemma_packet_round_trip(port: u8, channel: u8, payload: Seq<u8>)
    requires
        port < 16,
        channel < 4,
    ensures
        encode_bytes(port, channel, payload).len() == payload.len() + 1,
        header_port(encode_bytes(port, channel, payload)[0]) == port,
        header_channel(encode_bytes(port, channel, payload)[0]) == channel,
        encode_bytes(port, channel, payload).subrange(1, encode_bytes(port, channel, payload).len() as int)
            == payload,
{
    assert((((((port << 4) & 0xf0) | 0x0c | (channel & 0x03)) as u8) & 0x03) == channel
        && ((((((port << 4) & 0xf0) | 0x0c | (channel & 0x03)) as u8) & 0xf0) >> 4) == port)
        by (bit_vector)
        requires port < 16, channel < 4;
    assert(encode_bytes(port, channel, payload).subrange(
        1, encode_bytes(port, channel, payload).len() as int) == payload);
}

} // verus!
