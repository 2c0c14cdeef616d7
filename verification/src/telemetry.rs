use vstd::prelude::*;

use crate::crtp::{le_u32, read_le_u32, CRTP_LOGDATA_CHANNEL};
use crate::errors::ProtocolError;
use crate::logging::SessionHandle;
use crate::packet::Packet;

verus! {

/// Expected length of one telemetry payload: the block identifier, three
/// reserved timestamp bytes, and two four-byte floats.
pub const TELEMETRY_PAYLOAD_LEN: usize = 12;

/// One decoded attitude sample. Roll and pitch arrive as little-endian
/// IEEE-754 single-precision floats; this library hands out their raw
/// 32-bit patterns and leaves turning them into numbers to the caller,
/// who also owns any unit conversion or clamping.
pub struct Sample {
    pub roll_bits: u32,
    pub pitch_bits: u32,
}

/// Whether a packet belongs to this session's telemetry stream: the
/// logging-data channel, and a first payload byte equal to the session's
/// block identifier. Other log blocks and unrelated traffic share the link.
pub open spec fn telemetry_matches(packet: Packet, block_id: u8) -> bool {
    &&& packet.channel == CRTP_LOGDATA_CHANNEL
    &&& packet.data@.len() >= 1
    &&& packet.data@[0] == block_id
}

/// What one received packet means for the telemetry stream.
pub enum TelemetryStep {
    /// A sample of this session's block.
    Sample(Sample),
    /// Traffic of another block or another channel, skipped silently.
    Skip,
    /// A packet of this session's block whose payload has the wrong
    /// length: a hard protocol violation, not something to resynchronize
    /// from.
    Malformed(ProtocolError),
}

/// Decodes one received packet against this session's block: foreign
/// traffic is skipped, a matching packet of the wrong length is a hard
/// violation, and a matching packet of the right length yields roll and
/// pitch, in that order, from fixed little-endian offsets.
pub fn decode_telemetry(session: &SessionHandle, packet: &Packet) -> (r: TelemetryStep)
    ensures
        !telemetry_matches(*packet, session.block_id) <==> r is Skip,
        (telemetry_matches(*packet, session.block_id) && packet.data@.len()
            != TELEMETRY_PAYLOAD_LEN) <==> r == TelemetryStep::Malformed(
            ProtocolError::MalformedSample,
        ),
        telemetry_matches(*packet, session.block_id) && packet.data@.len()
            == TELEMETRY_PAYLOAD_LEN ==> (r matches TelemetryStep::Sample(s) && {
            &&& s.roll_bits == le_u32(
                packet.data@[4],
                packet.data@[5],
                packet.data@[6],
                packet.data@[7],
            )
            &&& s.pitch_bits == le_u32(
                packet.data@[8],
                packet.data@[9],
                packet.data@[10],
                packet.data@[11],
            )
        }),
{
    if packet.channel != CRTP_LOGDATA_CHANNEL {
        return TelemetryStep::Skip;
    }
    if packet.data.len() == 0 || packet.data[0] != session.block_id {
        return TelemetryStep::Skip;
    }
    if packet.data.len() != TELEMETRY_PAYLOAD_LEN {
        return TelemetryStep::Malformed(ProtocolError::MalformedSample);
    }

    let roll_bits = read_le_u32(packet.data[4], packet.data[5], packet.data[6], packet.data[7]);
    let pitch_bits = read_le_u32(packet.data[8], packet.data[9], packet.data[10], packet.data[11]);
    TelemetryStep::Sample(Sample { roll_bits, pitch_bits })
}

} // verus!
