use vstd::prelude::*;

use crate::crtp::{
    u16_hi, u16_lo, CRAZYMOUSE_ID, CRTP_CMD_CREATE_BLOCK, CRTP_CMD_START_LOGGING,
    CRTP_LOGGING_PORT, CRTP_LOG_TYPE_FLOAT, CRTP_SETTINGS_CHANNEL,
};
use crate::errors::ProtocolError;
use crate::packet::Packet;
use crate::toc::Toc;

verus! {

/// Identifies the logging block whose stream telemetry decoding should
/// expect once the handshake is complete.
pub struct SessionHandle {
    pub block_id: u8,
}

/// The three bytes that subscribe one variable in a create-block request:
/// the float storage-type tag, then the variable's identifier as two
/// little-endian bytes.
pub open spec fn variable_bytes(ident: u16) -> Seq<u8> {
    seq![CRTP_LOG_TYPE_FLOAT, u16_lo(ident), u16_hi(ident)]
}

/// The variable triples of a create-block request, in the order the
/// caller supplied the names.
pub open spec fn block_config_bytes(toc: Map<Seq<char>, u16>, variables: Seq<String>) -> Seq<u8>
    decreases variables.len(),
{
    if variables.len() == 0 {
        Seq::empty()
    } else {
        block_config_bytes(toc, variables.drop_last()) + variable_bytes(toc[variables.last()@])
    }
}

/// Whether every requested variable is present in the directory.
pub open spec fn all_variables_known(toc: Map<Seq<char>, u16>, variables: Seq<String>) -> bool {
    forall|i: int| 0 <= i < variables.len() ==> toc.contains_key(#[trigger] variables[i]@)
}

/// Builds the create-block request: the command tag, the fixed block
/// identifier, and one triple per requested variable, in caller order. A
/// variable absent from the directory is a fatal configuration error
/// named after the first such name.
pub fn create_block_request(toc: &Toc, variables: &Vec<String>) -> (r: Result<
    Packet,
    ProtocolError,
>)
    ensures
        r is Ok <==> all_variables_known(toc@, variables@),
        r matches Ok(p) ==> {
            &&& p.port == CRTP_LOGGING_PORT
            &&& p.channel == CRTP_SETTINGS_CHANNEL
            &&& p.data@ == seq![CRTP_CMD_CREATE_BLOCK, CRAZYMOUSE_ID] + block_config_bytes(
                toc@,
                variables@,
            )
        },
        r matches Err(e) ==> (exists|i: int| {
            &&& 0 <= i < variables@.len()
            &&& !toc@.contains_key(variables@[i]@)
            &&& (forall|j: int| 0 <= j < i ==> toc@.contains_key(#[trigger] variables@[j]@))
            &&& e == ProtocolError::VariableNotFound(variables@[i])
        }),
{
    let mut data: Vec<u8> = Vec::new();
    data.push(CRTP_CMD_CREATE_BLOCK);
    data.push(CRAZYMOUSE_ID);

    let mut i: usize = 0;
    while i < variables.len()
        invariant
            i <= variables@.len(),
            forall|j: int| 0 <= j < i ==> toc@.contains_key(#[trigger] variables@[j]@),
            data@ == seq![CRTP_CMD_CREATE_BLOCK, CRAZYMOUSE_ID] + block_config_bytes(
                toc@,
                variables@.take(i as int),
            ),
        decreases variables@.len() - i,
    {
        let ident = match toc.get(&variables[i]) {
            Some(ident) => ident,
            None => {
                return Err(ProtocolError::VariableNotFound(variables[i].clone()));
            },
        };
        data.push(CRTP_LOG_TYPE_FLOAT);
        data.push((ident % 0x100) as u8);
        data.push((ident / 0x100) as u8);
        proof {
            assert(variables@.take(i + 1).drop_last() =~= variables@.take(i as int));
            assert(variables@.take(i + 1).last() == variables@[i as int]);
        }
        i += 1;
    }
    proof {
        assert(variables@.take(variables@.len() as int) =~= variables@);
    }
    Ok(Packet::new(CRTP_LOGGING_PORT, CRTP_SETTINGS_CHANNEL, data))
}

/// What the handshake awaits.
pub enum SetupPhase {
    /// The acknowledgement of the create-block request.
    AwaitCreateAck,
    /// The acknowledgement of the start-logging request.
    AwaitStartAck,
}

/// The two-phase logging handshake: create the block, await its
/// acknowledgement, start periodic emission, await its acknowledgement.
/// Both phases must succeed, in order. A block left created when the
/// second phase fails needs no rollback: the device tolerates being asked
/// to start a block that already exists.
pub struct SessionSetup {
    pub phase: SetupPhase,
    pub period_ticks: u8,
}

/// What the handshake does after one acknowledgement.
pub enum SetupStep {
    /// The machine awaiting the next acknowledgement, and the request to
    /// send for it.
    Send(SessionSetup, Packet),
    /// The handshake is complete; telemetry should expect this block.
    Ready(SessionHandle),
}

/// Begins the handshake: builds the create-block request for the
/// requested variables, remembering the sample period in the 10 ms ticks
/// the device counts. The division truncates; the caller supplies a
/// multiple of ten.
pub fn begin_session(toc: &Toc, variables: &Vec<String>, sample_period_ms: u8) -> (r: Result<
    (SessionSetup, Packet),
    ProtocolError,
>)
    ensures
        r is Ok <==> all_variables_known(toc@, variables@),
        r matches Ok((setup, p)) ==> {
            &&& setup.phase is AwaitCreateAck
            &&& setup.period_ticks == sample_period_ms / 10
            &&& p.port == CRTP_LOGGING_PORT
            &&& p.channel == CRTP_SETTINGS_CHANNEL
            &&& p.data@ == seq![CRTP_CMD_CREATE_BLOCK, CRAZYMOUSE_ID] + block_config_bytes(
                toc@,
                variables@,
            )
        },
        r matches Err(e) ==> (exists|i: int| {
            &&& 0 <= i < variables@.len()
            &&& !toc@.contains_key(variables@[i]@)
            &&& (forall|j: int| 0 <= j < i ==> toc@.contains_key(#[trigger] variables@[j]@))
            &&& e == ProtocolError::VariableNotFound(variables@[i])
        }),
{
    match create_block_request(toc, variables) {
        Ok(request) => {
            let setup = SessionSetup {
                phase: SetupPhase::AwaitCreateAck,
                period_ticks: sample_period_ms / 10,
            };
            Ok((setup, request))
        },
        Err(e) => Err(e),
    }
}

impl SessionSetup {
    /// Advances on the acknowledgement the exchange filter accepted for
    /// the pending request. The acknowledgements carry nothing this
    /// machine reads: their arrival alone drives it.
    pub fn on_ack(self) -> (r: SetupStep)
        ensures
            self.phase is AwaitCreateAck ==> (r matches SetupStep::Send(m, p) && {
                &&& m.phase is AwaitStartAck
                &&& m.period_ticks == self.period_ticks
                &&& p.port == CRTP_LOGGING_PORT
                &&& p.channel == CRTP_SETTINGS_CHANNEL
                &&& p.data@ == seq![CRTP_CMD_START_LOGGING, CRAZYMOUSE_ID, self.period_ticks]
            }),
            self.phase is AwaitStartAck ==> r == SetupStep::Ready(
                SessionHandle { block_id: CRAZYMOUSE_ID },
            ),
    {
        match self.phase {
            SetupPhase::AwaitCreateAck => {
                let request = Packet::new(
                    CRTP_LOGGING_PORT,
                    CRTP_SETTINGS_CHANNEL,
                    vec![CRTP_CMD_START_LOGGING, CRAZYMOUSE_ID, self.period_ticks],
                );
                let machine = SessionSetup {
                    phase: SetupPhase::AwaitStartAck,
                    period_ticks: self.period_ticks,
                };
                SetupStep::Send(machine, request)
            },
            SetupPhase::AwaitStartAck => SetupStep::Ready(SessionHandle { block_id: CRAZYMOUSE_ID }),
        }
    }
}

/// The error a failed exchange surfaces during the handshake: an
/// acknowledgement that never arrives means the setup was rejected; any
/// other failure keeps its own meaning.
pub fn setup_failure(e: ProtocolError) -> (r: ProtocolError)
    ensures
        e is Timeout ==> r == ProtocolError::SetupRejected,
        !(e is Timeout) ==> r == e,
{
    match e {
        ProtocolError::Timeout => ProtocolError::SetupRejected,
        _ => e,
    }
}

} // verus!
