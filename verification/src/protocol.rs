//! Message kinds, outbound commands, errors, and the transition relation of
//! the handshake core.

use vstd::prelude::*;

verus! {

/// Seconds the device is allowed to take to announce readiness after
/// power-up.
pub const POWER_UP_ALLOWANCE_S: u64 = 300;

/// Seconds to wait for the acknowledgment of a command.
pub const ACKNOWLEDGE_MESSAGE_TIMEOUT_S: u64 = 60;

/// Seconds for a single attempt inside a retry loop. The core performs no
/// retries itself; the constant is kept for callers that compose them.
pub const ACKNOWLEDGE_MESSAGE_ATTEMPT_TIMEOUT_S: u64 = 1;

/// Seconds allowed for the host-initiated shutdown handshake.
pub const SHUTDOWN_ALLOWANCE_S: u64 = 30;

/// Number of trailing bytes of a power-up buffer that encode a command.
pub const INIT_TAIL_LEN: usize = 3;

/// The closed set of message kinds exchanged with the device, paired into
/// request and acknowledge roles.
#[derive(Clone, Copy, Debug, PartialEq, Eq, Structural)]
pub enum CommandType {
    Initialised,
    InitialisedAcknowledge,
    Time,
    TimeAcknowledge,
    StartupCommand,
    StartupCommandAcknowledge,
    PowerDown,
    PowerDownAcknowledge,
}

/// Whether `t` is a request kind, one the device answers with an
/// acknowledgment kind.
pub open spec fn is_request(t: CommandType) -> bool {
    ||| t is Initialised
    ||| t is Time
    ||| t is StartupCommand
    ||| t is PowerDown
}

/// The acknowledgment kind paired with a request kind. An acknowledgment
/// kind is mapped to itself.
pub open spec fn acknowledge_of(t: CommandType) -> CommandType {
    match t {
        CommandType::Initialised => CommandType::InitialisedAcknowledge,
        CommandType::Time => CommandType::TimeAcknowledge,
        CommandType::StartupCommand => CommandType::StartupCommandAcknowledge,
        CommandType::PowerDown => CommandType::PowerDownAcknowledge,
        other => other,
    }
}

/// An outbound command, named by the codec constructor that builds its wire
/// form: a bare kind, a time-sync carrying seconds since the Unix epoch, or
/// a startup command carrying an opaque payload.
#[derive(Debug, PartialEq, Eq)]
pub enum OutCommand {
    Simple(CommandType),
    Time(i64),
    Startup(Vec<u8>),
}

/// An inbound, already-decoded message from the transport's framed receive
/// path.
#[derive(Debug, PartialEq, Eq)]
pub struct Message {
    pub command_type: CommandType,
    pub data: Vec<u8>,
}

/// How an operation failed.
#[derive(Debug, PartialEq, Eq)]
pub enum ProtocolError {
    /// No message of the expected kind arrived within the window, or the
    /// framed receive itself failed.
    Timeout { expected: CommandType },
    /// A message arrived whose kind differs from the expected one.
    UnexpectedMessage { expected: CommandType, received: CommandType },
    /// The trailing bytes of a power-up buffer do not form a recognizable
    /// command. Carries the bytes that failed to decode, or the whole buffer
    /// where it is too short to hold a tail.
    InvalidData { tail: Vec<u8> },
    /// A send, power-up receive, or bulk transfer failed in the transport;
    /// the driver holds the underlying error and reports it unchanged.
    Transport,
}

/// What the driver must do next on behalf of the core.
#[derive(Debug, PartialEq, Eq)]
pub enum Action {
    /// Send the command over the transport; report `SendOk` or `SendFailed`.
    Send(OutCommand),
    /// Block on the framed receive for at most `timeout_s` seconds; report
    /// `Received` or `ReceiveNothing`.
    Receive { timeout_s: u64 },
    /// Block on the power-up raw receive for at most `timeout_s` seconds;
    /// report `InitData` or `InitFailed`.
    ReceiveInit { timeout_s: u64 },
    /// Hand `tail` to the codec; report `DecodedTail`. `prefix` is the rest
    /// of the power-up buffer, diagnostic payload only.
    Decode { prefix: Vec<u8>, tail: Vec<u8> },
    /// Run the transport's bulk transfer; report `BulkOk` or `BulkFailed`.
    BulkTransfer,
    /// The operation is over with this outcome. `Err(Transport)` stands for
    /// the transport error the driver already holds.
    Done(Result<(), ProtocolError>),
}

/// The outcome of the last action, reported back to the core by the driver.
#[derive(Debug, PartialEq, Eq)]
pub enum Event {
    SendOk,
    SendFailed,
    Received(Message),
    ReceiveNothing,
    InitData(Vec<u8>),
    InitFailed,
    DecodedTail(Option<CommandType>),
    BulkOk,
    BulkFailed,
}

/// Where the core stands inside an operation.
#[derive(Debug, PartialEq, Eq)]
pub enum Phase {
    /// No operation is in flight.
    Idle,
    /// A command awaiting acknowledgment has been handed to the driver for
    /// sending.
    SendingCommand { expected_ack: CommandType, ack_timeout_s: u64 },
    /// The framed receive for the acknowledgment has been issued.
    AwaitingAck { expected: CommandType },
    /// The power-up raw receive has been issued.
    AwaitingInitData,
    /// The codec is decoding the trailing bytes of the power-up buffer.
    AwaitingDecode { tail: Vec<u8> },
    /// The listen for a device-initiated `PowerDown` has been issued.
    ShutdownListening,
    /// The `PowerDownAcknowledge` of the device-initiated shutdown path has
    /// been handed to the driver for sending.
    SendingShutdownAck,
    /// The bulk transfer has been issued.
    AwaitingBulk,
}

/// Which events may answer which phase: the driver feeds the core exactly
/// the outcome of the action the core last asked for.
pub open spec fn awaits(phase: Phase, event: Event) -> bool {
    match phase {
        Phase::Idle => false,
        Phase::SendingCommand { .. } => event is SendOk || event is SendFailed,
        Phase::SendingShutdownAck => event is SendOk || event is SendFailed,
        Phase::AwaitingAck { .. } => event is Received || event is ReceiveNothing,
        Phase::ShutdownListening => event is Received || event is ReceiveNothing,
        Phase::AwaitingInitData => event is InitData || event is InitFailed,
        Phase::AwaitingDecode { .. } => event is DecodedTail,
        Phase::AwaitingBulk => event is BulkOk || event is BulkFailed,
    }
}

/// The host-initiated shutdown fallback: send `PowerDown` ourselves and wait
/// up to the shutdown allowance for its acknowledgment.
pub open spec fn shutdown_fallback(post: Phase, action: Action) -> bool {
    &&& post == (Phase::SendingCommand {
        expected_ack: CommandType::PowerDownAcknowledge,
        ack_timeout_s: SHUTDOWN_ALLOWANCE_S,
    })
    &&& action == Action::Send(OutCommand::Simple(CommandType::PowerDown))
}

/// The transition relation of the core: from phase `pre`, event `event`
/// yields phase `post` and action `action`. For every `pre` and `event`
/// admitted by [`awaits`] exactly one `post` and `action` (up to byte-vector
/// contents, which are pinned through their views) satisfy it.
pub open spec fn steps_to(pre: Phase, event: Event, post: Phase, action: Action) -> bool {
    match pre {
        Phase::Idle => false,
        Phase::SendingCommand { expected_ack, ack_timeout_s } => match event {
            Event::SendOk => {
                &&& post == (Phase::AwaitingAck { expected: expected_ack })
                &&& action == (Action::Receive { timeout_s: ack_timeout_s })
            },
            Event::SendFailed => {
                &&& post == Phase::Idle
                &&& action == Action::Done(Err(ProtocolError::Transport))
            },
            _ => false,
        },
        Phase::AwaitingAck { expected } => match event {
            Event::Received(m) => {
                &&& post == Phase::Idle
                &&& action == Action::Done(
                    if m.command_type == expected {
                        Ok(())
                    } else {
                        Err(ProtocolError::UnexpectedMessage {
                            expected,
                            received: m.command_type,
                        })
                    },
                )
            },
            Event::ReceiveNothing => {
                &&& post == Phase::Idle
                &&& action == Action::Done(Err(ProtocolError::Timeout { expected }))
            },
            _ => false,
        },
        Phase::AwaitingInitData => match event {
            Event::InitData(data) => {
                if data@.len() >= INIT_TAIL_LEN {
                    &&& post matches Phase::AwaitingDecode { tail: kept }
                        && kept@ == data@.subrange(
                            data@.len() - INIT_TAIL_LEN,
                            data@.len() as int,
                        )
                    &&& action matches Action::Decode { prefix, tail }
                        && prefix@ == data@.subrange(0, data@.len() - INIT_TAIL_LEN)
                        && tail@ == data@.subrange(
                            data@.len() - INIT_TAIL_LEN,
                            data@.len() as int,
                        )
                } else {
                    &&& post == Phase::Idle
                    &&& action matches Action::Done(r)
                        && r matches Err(e)
                        && e matches ProtocolError::InvalidData { tail }
                        && tail@ == data@
                }
            },
            Event::InitFailed => {
                &&& post == Phase::Idle
                &&& action == Action::Done(Err(ProtocolError::Transport))
            },
            _ => false,
        },
        Phase::AwaitingDecode { tail: kept } => match event {
            Event::DecodedTail(decoded) => match decoded {
                Some(t) => {
                    &&& post == Phase::Idle
                    &&& action == Action::Done(
                        if t == CommandType::Initialised {
                            Ok(())
                        } else {
                            Err(ProtocolError::UnexpectedMessage {
                                expected: CommandType::Initialised,
                                received: t,
                            })
                        },
                    )
                },
                None => {
                    &&& post == Phase::Idle
                    &&& action matches Action::Done(r)
                        && r matches Err(e)
                        && e matches ProtocolError::InvalidData { tail }
                        && tail@ == kept@
                },
            },
            _ => false,
        },
        Phase::ShutdownListening => match event {
            Event::Received(m) => {
                if m.command_type == CommandType::PowerDown {
                    &&& post == Phase::SendingShutdownAck
                    &&& action == Action::Send(
                        OutCommand::Simple(CommandType::PowerDownAcknowledge),
                    )
                } else {
                    shutdown_fallback(post, action)
                }
            },
            Event::ReceiveNothing => shutdown_fallback(post, action),
            _ => false,
        },
        Phase::SendingShutdownAck => match event {
            Event::SendOk => {
                &&& post == Phase::Idle
                &&& action == Action::Done(Ok(()))
            },
            Event::SendFailed => {
                &&& post == Phase::Idle
                &&& action == Action::Done(Err(ProtocolError::Transport))
            },
            _ => false,
        },
        Phase::AwaitingBulk => match event {
            Event::BulkOk => {
                &&& post == Phase::Idle
                &&& action == Action::Done(Ok(()))
            },
            Event::BulkFailed => {
                &&& post == Phase::Idle
                &&& action == Action::Done(Err(ProtocolError::Transport))
            },
            _ => false,
        },
    }
}

} // verus!
