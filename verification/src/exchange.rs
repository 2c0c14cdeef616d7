use vstd::prelude::*;

use crate::errors::ProtocolError;
use crate::packet::{header_channel, header_port, Packet};

verus! {

/// One outcome of asking the transport for a frame, bounded by the wait
/// budget. The surrounding program performs the receive and hands the
/// result here; the library decides what it means.
pub enum RecvOutcome {
    /// The transport delivered a frame.
    Frame(Vec<u8>),
    /// The wait budget elapsed with nothing delivered.
    TimedOut,
    /// The transport itself failed.
    Failed,
}

/// What one received outcome means for an exchange awaiting a reply with
/// a given channel and command tag.
pub enum ExchangeStep {
    /// The awaited reply.
    Reply(Packet),
    /// Unrelated traffic, silently discarded; the wait goes on unchanged.
    Ignored,
    /// The exchange fails with this error.
    Abort(ProtocolError),
}

/// Result of a whole wait over a recorded run of receive outcomes.
pub enum AwaitResult {
    /// The awaited reply.
    Reply(Packet),
    /// The exchange failed with this error.
    Aborted(ProtocolError),
    /// Every outcome so far was discarded; the wait is still open.
    Pending,
}

/// Whether a frame carries the awaited reply: its header channel equals
/// the expected one and its first payload byte equals the expected
/// command tag. The remote device multiplexes several sub-protocols over
/// one link, so this filter is the baseline correctness mechanism.
pub open spec fn frame_matches(bytes: Seq<u8>, expected_channel: u8, expected_cmd: u8) -> bool {
    &&& bytes.len() >= 2
    &&& header_channel(bytes[0]) == expected_channel
    &&& bytes[1] == expected_cmd
}

/// The bytes a delivered frame holds.
pub open spec fn frame_bytes(outcome: RecvOutcome) -> Seq<u8>
    recommends
        outcome is Frame,
{
    outcome->Frame_0@
}

/// Whether one receive outcome ends the wait: a timeout, a transport
/// failure, a frame too short to unframe, or the awaited reply. Every
/// other outcome is discarded traffic.
pub open spec fn decides_wait(expected_channel: u8, expected_cmd: u8, outcome: RecvOutcome) -> bool {
    match outcome {
        RecvOutcome::Frame(bytes) => bytes@.len() == 0
            || frame_matches(bytes@, expected_channel, expected_cmd),
        RecvOutcome::TimedOut => true,
        RecvOutcome::Failed => true,
    }
}

/// The outcome that decides a wait over a run of receive outcomes, taken
/// in arrival order; `None` while everything was discarded.
pub open spec fn await_result(
    expected_channel: u8,
    expected_cmd: u8,
    outcomes: Seq<RecvOutcome>,
) -> Option<RecvOutcome>
    decreases outcomes.len(),
{
    if outcomes.len() == 0 {
        None
    } else if decides_wait(expected_channel, expected_cmd, outcomes[0]) {
        Some(outcomes[0])
    } else {
        await_result(expected_channel, expected_cmd, outcomes.drop_first())
    }
}

/// Judges one receive outcome for an exchange that awaits a reply on
/// `expected_channel` whose first payload byte is `expected_cmd`.
pub fn exchange_step(expected_channel: u8, expected_cmd: u8, outcome: RecvOutcome) -> (r: ExchangeStep)
    ensures
        outcome is TimedOut ==> r == ExchangeStep::Abort(ProtocolError::Timeout),
        outcome is Failed ==> r == ExchangeStep::Abort(ProtocolError::TransportError),
        outcome is Frame && frame_bytes(outcome).len() == 0 ==>
            r == ExchangeStep::Abort(ProtocolError::MalformedPacket),
        outcome is Frame && frame_bytes(outcome).len() >= 1
            && !frame_matches(frame_bytes(outcome), expected_channel, expected_cmd) ==>
            r == ExchangeStep::Ignored,
        outcome is Frame && frame_matches(frame_bytes(outcome), expected_channel, expected_cmd) ==>
            (r matches ExchangeStep::Reply(p) && {
                let bytes = frame_bytes(outcome);
                &&& p.channel == expected_channel
                &&& p.port == header_port(bytes[0])
                &&& p.data@ == bytes.subrange(1, bytes.len() as int)
                &&& p.data@.len() >= 1
                &&& p.data@[0] == expected_cmd
                &&& p.wf()
            }),
{
    match outcome {
        RecvOutcome::TimedOut => ExchangeStep::Abort(ProtocolError::Timeout),
        RecvOutcome::Failed => ExchangeStep::Abort(ProtocolError::TransportError),
        RecvOutcome::Frame(bytes) => {
            match Packet::decode(bytes) {
                Err(e) => ExchangeStep::Abort(e),
                Ok(packet) => {
                    if packet.channel == expected_channel
                        && packet.data.len() > 0
                        && packet.data[0] == expected_cmd
                    {
                        ExchangeStep::Reply(packet)
                    } else {
                        ExchangeStep::Ignored
                    }
                },
            }
        },
    }
}

/// Runs one whole wait over a recorded run of receive outcomes, in
/// arrival order: the first outcome that decides the wait gives the
/// result, everything before it is discarded, and a run of nothing but
/// discarded traffic leaves the wait pending.
pub fn await_reply(
    expected_channel: u8,
    expected_cmd: u8,
    outcomes: Vec<RecvOutcome>,
) -> (r: AwaitResult)
    ensures
        r is Pending <==> await_result(expected_channel, expected_cmd, outcomes@) is None,
        (r == AwaitResult::Aborted(ProtocolError::Timeout)) <==>
            await_result(expected_channel, expected_cmd, outcomes@) == Some(RecvOutcome::TimedOut),
        (r == AwaitResult::Aborted(ProtocolError::TransportError)) <==>
            await_result(expected_channel, expected_cmd, outcomes@) == Some(RecvOutcome::Failed),
        (r == AwaitResult::Aborted(ProtocolError::MalformedPacket)) <==>
            ({
                let decider = await_result(expected_channel, expected_cmd, outcomes@);
                decider is Some && decider->0 is Frame && frame_bytes(decider->0).len() == 0
            }),
        ({
            let decider = await_result(expected_channel, expected_cmd, outcomes@);
            decider is Some && decider->0 is Frame && frame_bytes(decider->0).len() >= 1
        }) ==>
            (r matches AwaitResult::Reply(p) && {
                let bytes = frame_bytes(await_result(expected_channel, expected_cmd, outcomes@)->0);
                &&& frame_matches(bytes, expected_channel, expected_cmd)
                &&& p.channel == expected_channel
                &&& p.port == header_port(bytes[0])
                &&& p.data@ == bytes.subrange(1, bytes.len() as int)
                &&& p.data@.len() >= 1
                &&& p.data@[0] == expected_cmd
                &&& p.wf()
            }),
{
    let mut rest = outcomes;
    loop
        invariant
            await_result(expected_channel, expected_cmd, outcomes@)
                == await_result(expected_channel, expected_cmd, rest@),
        decreases rest@.len(),
    {
        if rest.len() == 0 {
            return AwaitResult::Pending;
        }
        let outcome = rest.remove(0);
        let ghost before = rest@.insert(0, outcome);
        proof {
            assert(before.drop_first() =~= rest@);
        }
        match exchange_step(expected_channel, expected_cmd, outcome) {
            ExchangeStep::Reply(p) => {
                return AwaitResult::Reply(p);
            },
            ExchangeStep::Abort(e) => {
                return AwaitResult::Aborted(e);
            },
            ExchangeStep::Ignored => {},
        }
    }
}

/// Law: traffic that does not match the awaited channel and command tag
/// is only discarded: putting such a frame in front of any run of
/// outcomes leaves the wait's result exactly what the rest decides.
pub proof fn lemma_nonmatching_traffic_discarded(
    expected_channel: u8,
    expected_cmd: u8,
    outcome: RecvOutcome,
    rest: Seq<RecvOutcome>,
)
    requires
        outcome matches RecvOutcome::Frame(bytes) && bytes@.len() >= 1
            && !frame_matches(bytes@, expected_channel, expected_cmd),
    ensures
        await_result(expected_channel, expected_cmd, seq![outcome] + rest)
            == await_result(expected_channel, expected_cmd, rest),
{
    assert((seq![outcome] + rest).drop_first() =~= rest);
}

/// Law: when no matching packet ever arrives, the wait ends with the
/// timeout the transport reports once its budget elapses, and with
/// nothing else.
pub proof fn lemma_timeout_when_nothing_matches(
    expected_channel: u8,
    expected_cmd: u8,
    outcomes: Seq<RecvOutcome>,
)
    requires
        outcomes.len() >= 1,
        outcomes[outcomes.len() - 1] == RecvOutcome::TimedOut,
        forall|i: int| 0 <= i < outcomes.len() - 1 ==>
            !decides_wait(expected_channel, expected_cmd, #[trigger] outcomes[i]),
    ensures
        await_result(expected_channel, expected_cmd, outcomes) == Some(RecvOutcome::TimedOut),
    decreases outcomes.len(),
{
    if outcomes.len() == 1 {
    } else {
        assert(!decides_wait(expected_channel, expected_cmd, outcomes[0]));
        let rest = outcomes.drop_first();
        assert(rest[rest.len() - 1] == outcomes[outcomes.len() - 1]);
        assert forall|i: int| 0 <= i < rest.len() - 1 implies !decides_wait(
            expected_channel,
            expected_cmd,
            #[trigger] rest[i],
        ) by {
            assert(rest[i] == outcomes[i + 1]);
        }
        lemma_timeout_when_nothing_matches(expected_channel, expected_cmd, rest);
    }
}

} // verus!
