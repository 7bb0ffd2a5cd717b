//! The protocol core: one state machine per transport, one public method per
//! operation, driven by a loop that performs each requested [`Action`] and
//! feeds back the resulting [`Event`].

use crate::protocol::{
    acknowledge_of, awaits, steps_to, Action, CommandType, Event, OutCommand, Phase,
    ProtocolError, ACKNOWLEDGE_MESSAGE_TIMEOUT_S, INIT_TAIL_LEN, POWER_UP_ALLOWANCE_S,
    SHUTDOWN_ALLOWANCE_S,
};
use vstd::pervasive::unreached;
use vstd::prelude::*;

verus! {

/// Copies a byte vector.
fn copy_bytes(v: &Vec<u8>) -> (r: Vec<u8>)
    ensures
        r@ == v@,
{
    let mut r: Vec<u8> = Vec::new();
    let mut i: usize = 0;
    while i < v.len()
        invariant
            i <= v@.len(),
            r@ == v@.subrange(0, i as int),
        decreases v@.len() - i,
    {
        r.push(v[i]);
        i += 1;
    }
    proof {
        assert(v@.subrange(0, v@.len() as int) =~= v@);
    }
    r
}

/// Relies on chrono's `Utc::now`: the current wall-clock time, as whole
/// seconds since the Unix epoch. Panics only if the system clock stands
/// before the epoch; otherwise the seconds are non-negative.
#[verifier::external_body]
fn now_timestamp() -> (t: i64)
    ensures
        0 <= t,
{
    chrono::Utc::now().timestamp()
}

/// The handshake core for one payload device. It owns no transport: the
/// driver that does performs each returned [`Action`] and reports the
/// outcome through [`Subsystem::step`].
pub struct Subsystem {
    pub phase: Phase,
}

impl Subsystem {
    /// A core with no operation in flight.
    pub fn new() -> (s: Self)
        ensures
            s.phase == Phase::Idle,
    {
        Subsystem { phase: Phase::Idle }
    }

    /// Power-up handshake: listen on the raw power-up receive path, up to
    /// the power-up allowance, for the device to announce readiness. The
    /// announcement is classified by the later steps; no acknowledgment is
    /// ever sent back for it.
    pub fn initialised(&mut self) -> (action: Action)
        ensures
            final(self).phase == Phase::AwaitingInitData,
            action == (Action::ReceiveInit { timeout_s: POWER_UP_ALLOWANCE_S }),
    {
        self.phase = Phase::AwaitingInitData;
        Action::ReceiveInit { timeout_s: POWER_UP_ALLOWANCE_S }
    }

    /// Time synchronization at a given timestamp: send a `Time` command
    /// carrying `timestamp` and wait up to the acknowledgment timeout for
    /// `TimeAcknowledge`.
    pub fn time_at(&mut self, timestamp: i64) -> (action: Action)
        ensures
            final(self).phase == (Phase::SendingCommand {
                expected_ack: acknowledge_of(CommandType::Time),
                ack_timeout_s: ACKNOWLEDGE_MESSAGE_TIMEOUT_S,
            }),
            action == Action::Send(OutCommand::Time(timestamp)),
    {
        self.phase = Phase::SendingCommand {
            expected_ack: CommandType::TimeAcknowledge,
            ack_timeout_s: ACKNOWLEDGE_MESSAGE_TIMEOUT_S,
        };
        Action::Send(OutCommand::Time(timestamp))
    }

    /// Time synchronization at the current wall-clock time.
    pub fn time(&mut self) -> (action: Action)
        ensures
            final(self).phase == (Phase::SendingCommand {
                expected_ack: acknowledge_of(CommandType::Time),
                ack_timeout_s: ACKNOWLEDGE_MESSAGE_TIMEOUT_S,
            }),
            action matches Action::Send(c) && c matches OutCommand::Time(t) && 0 <= t,
    {
        let timestamp = now_timestamp();
        self.time_at(timestamp)
    }

    /// Startup command: send a `StartupCommand` carrying the opaque payload
    /// `cmd` and wait up to the acknowledgment timeout for
    /// `StartupCommandAcknowledge`. The payload is not inspected.
    pub fn startup_command(&mut self, cmd: Vec<u8>) -> (action: Action)
        ensures
            final(self).phase == (Phase::SendingCommand {
                expected_ack: acknowledge_of(CommandType::StartupCommand),
                ack_timeout_s: ACKNOWLEDGE_MESSAGE_TIMEOUT_S,
            }),
            action matches Action::Send(c) && c matches OutCommand::Startup(p) && p@ == cmd@,
    {
        self.phase = Phase::SendingCommand {
            expected_ack: CommandType::StartupCommandAcknowledge,
            ack_timeout_s: ACKNOWLEDGE_MESSAGE_TIMEOUT_S,
        };
        Action::Send(OutCommand::Startup(cmd))
    }

    /// Graceful shutdown with `time_remaining_s` seconds left: first listen
    /// for a device-initiated `PowerDown` within that window; if none
    /// arrives, fall back to sending `PowerDown` ourselves and waiting up to
    /// the shutdown allowance for its acknowledgment.
    pub fn shutdown(&mut self, time_remaining_s: u16) -> (action: Action)
        ensures
            final(self).phase == Phase::ShutdownListening,
            action == (Action::Receive { timeout_s: time_remaining_s as u64 }),
    {
        self.phase = Phase::ShutdownListening;
        Action::Receive { timeout_s: time_remaining_s as u64 }
    }

    /// Bulk transfer: delegate to the transport's bulk-transfer primitive.
    pub fn ftp(&mut self) -> (action: Action)
        ensures
            final(self).phase == Phase::AwaitingBulk,
            action == Action::BulkTransfer,
    {
        self.phase = Phase::AwaitingBulk;
        Action::BulkTransfer
    }

    /// Advances the core with the outcome of the last requested action. The
    /// new phase and the returned action are exactly those of the
    /// transition relation [`steps_to`].
    pub fn step(&mut self, event: Event) -> (action: Action)
        requires
            awaits(old(self).phase, event),
        ensures
            steps_to(old(self).phase, event, final(self).phase, action),
    {
        let mut ph = Phase::Idle;
        core::mem::swap(&mut ph, &mut self.phase);
        match (ph, event) {
            (Phase::SendingCommand { expected_ack, ack_timeout_s }, Event::SendOk) => {
                self.phase = Phase::AwaitingAck { expected: expected_ack };
                Action::Receive { timeout_s: ack_timeout_s }
            },
            (Phase::SendingCommand { .. }, Event::SendFailed) => {
                Action::Done(Err(ProtocolError::Transport))
            },
            (Phase::AwaitingAck { expected }, Event::Received(m)) => {
                if m.command_type == expected {
                    Action::Done(Ok(()))
                } else {
                    Action::Done(Err(ProtocolError::UnexpectedMessage {
                        expected,
                        received: m.command_type,
                    }))
                }
            },
            (Phase::AwaitingAck { expected }, Event::ReceiveNothing) => {
                Action::Done(Err(ProtocolError::Timeout { expected }))
            },
            (Phase::AwaitingInitData, Event::InitData(data)) => {
                if data.len() >= INIT_TAIL_LEN {
                    let mut prefix = data;
                    let cut = prefix.len() - INIT_TAIL_LEN;
                    let tail = prefix.split_off(cut);
                    let kept = copy_bytes(&tail);
                    self.phase = Phase::AwaitingDecode { tail: kept };
                    Action::Decode { prefix, tail }
                } else {
                    Action::Done(Err(ProtocolError::InvalidData { tail: data }))
                }
            },
            (Phase::AwaitingInitData, Event::InitFailed) => {
                Action::Done(Err(ProtocolError::Transport))
            },
            (Phase::AwaitingDecode { tail }, Event::DecodedTail(decoded)) => {
                match decoded {
                    Some(t) => {
                        if t == CommandType::Initialised {
                            Action::Done(Ok(()))
                        } else {
                            Action::Done(Err(ProtocolError::UnexpectedMessage {
                                expected: CommandType::Initialised,
                                received: t,
                            }))
                        }
                    },
                    None => Action::Done(Err(ProtocolError::InvalidData { tail })),
                }
            },
            (Phase::ShutdownListening, Event::Received(m)) => {
                if m.command_type == CommandType::PowerDown {
                    self.phase = Phase::SendingShutdownAck;
                    Action::Send(OutCommand::Simple(CommandType::PowerDownAcknowledge))
                } else {
                    self.phase = Phase::SendingCommand {
                        expected_ack: CommandType::PowerDownAcknowledge,
                        ack_timeout_s: SHUTDOWN_ALLOWANCE_S,
                    };
                    Action::Send(OutCommand::Simple(CommandType::PowerDown))
                }
            },
            (Phase::ShutdownListening, Event::ReceiveNothing) => {
                self.phase = Phase::SendingCommand {
                    expected_ack: CommandType::PowerDownAcknowledge,
                    ack_timeout_s: SHUTDOWN_ALLOWANCE_S,
                };
                Action::Send(OutCommand::Simple(CommandType::PowerDown))
            },
            (Phase::SendingShutdownAck, Event::SendOk) => Action::Done(Ok(())),
            (Phase::SendingShutdownAck, Event::SendFailed) => {
                Action::Done(Err(ProtocolError::Transport))
            },
            (Phase::AwaitingBulk, Event::BulkOk) => Action::Done(Ok(())),
            (Phase::AwaitingBulk, Event::BulkFailed) => {
                Action::Done(Err(ProtocolError::Transport))
            },
            _ => unreached(),
        }
    }
}

} // verus!
