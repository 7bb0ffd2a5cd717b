//! The laws of the handshake core, proved over the transition relation
//! [`steps_to`] that [`crate::subsystem::Subsystem::step`] is bound to.

use crate::protocol::{
    acknowledge_of, awaits, is_request, steps_to, Action, CommandType, Event, Message,
    OutCommand, Phase, ProtocolError, INIT_TAIL_LEN, SHUTDOWN_ALLOWANCE_S,
};
use vstd::prelude::*;

verus! {

/// Every request kind has exactly one acknowledgment kind: the pairing maps
/// requests to acknowledgments, and distinct requests to distinct
/// acknowledgments.
pub proof fn lemma_acknowledge_pairing(r1: CommandType, r2: CommandType)
    requires
        is_request(r1),
        is_request(r2),
    ensures
        !is_request(acknowledge_of(r1)),
        acknowledge_of(r1) == acknowledge_of(r2) ==> r1 == r2,
{
}

/// Two phases agree when they are equal, with the kept power-up tail
/// compared by its contents.
pub open spec fn phase_agrees(p1: Phase, p2: Phase) -> bool {
    match (p1, p2) {
        (Phase::AwaitingDecode { tail: t1 }, Phase::AwaitingDecode { tail: t2 }) => t1@ == t2@,
        _ => p1 == p2,
    }
}

/// Two actions agree when they are equal, with byte vectors compared by
/// their contents.
pub open spec fn action_agrees(a1: Action, a2: Action) -> bool {
    match (a1, a2) {
        (
            Action::Decode { prefix: p1, tail: t1 },
            Action::Decode { prefix: p2, tail: t2 },
        ) => p1@ == p2@ && t1@ == t2@,
        (
            Action::Done(Err(ProtocolError::InvalidData { tail: t1 })),
            Action::Done(Err(ProtocolError::InvalidData { tail: t2 })),
        ) => t1@ == t2@,
        _ => a1 == a2,
    }
}

/// The transition relation is a function of the phase and the event: two
/// transitions from the same phase on the same event agree on the next
/// phase and on the action.
pub proof fn lemma_transition_deterministic(
    pre: Phase,
    event: Event,
    post1: Phase,
    a1: Action,
    post2: Phase,
    a2: Action,
)
    requires
        steps_to(pre, event, post1, a1),
        steps_to(pre, event, post2, a2),
    ensures
        phase_agrees(post1, post2),
        action_agrees(a1, a2),
{
}

/// A successful send followed by a receive yielding exactly the expected
/// acknowledgment kind yields overall success, whatever the command and
/// whatever its acknowledgment timeout. Every operation that awaits an
/// acknowledgment passes through the `SendingCommand` phase this law starts
/// from.
pub proof fn lemma_send_then_expected_ack_succeeds(
    expected: CommandType,
    timeout_s: u64,
    m: Message,
    ph1: Phase,
    a1: Action,
    ph2: Phase,
    a2: Action,
)
    requires
        steps_to(
            Phase::SendingCommand { expected_ack: expected, ack_timeout_s: timeout_s },
            Event::SendOk,
            ph1,
            a1,
        ),
        steps_to(ph1, Event::Received(m), ph2, a2),
        m.command_type == expected,
    ensures
        a1 == (Action::Receive { timeout_s }),
        a2 == Action::Done(Ok(())),
        ph2 == Phase::Idle,
{
}

/// While an acknowledgment is awaited, a message of any kind other than the
/// expected one fails the operation as an unexpected message, carrying both
/// the expected and the received kind.
pub proof fn lemma_unexpected_ack_fails(
    expected: CommandType,
    m: Message,
    post: Phase,
    a: Action,
)
    requires
        steps_to(Phase::AwaitingAck { expected }, Event::Received(m), post, a),
        m.command_type != expected,
    ensures
        a == Action::Done(
            Err(ProtocolError::UnexpectedMessage { expected, received: m.command_type }),
        ),
        post == Phase::Idle,
{
}

/// While an acknowledgment is awaited, a receive window that closes with no
/// message fails the operation as a timeout naming the kind that was
/// expected. The window itself is the one the core asked the transport for:
/// a successful send is answered by a receive bounded by the acknowledgment
/// timeout the operation was started with.
pub proof fn lemma_ack_timeout_fails(
    expected: CommandType,
    timeout_s: u64,
    ph1: Phase,
    a1: Action,
    ph2: Phase,
    a2: Action,
)
    requires
        steps_to(
            Phase::SendingCommand { expected_ack: expected, ack_timeout_s: timeout_s },
            Event::SendOk,
            ph1,
            a1,
        ),
        steps_to(ph1, Event::ReceiveNothing, ph2, a2),
    ensures
        a1 == (Action::Receive { timeout_s }),
        a2 == Action::Done(Err(ProtocolError::Timeout { expected })),
        ph2 == Phase::Idle,
{
}

/// A failed send ends the operation at once with the transport's error: the
/// next action is final, and the core never reaches a receive. From the
/// resulting phase no further event is admitted at all.
pub proof fn lemma_send_failure_short_circuits(pre: Phase, post: Phase, a: Action)
    requires
        pre is SendingCommand || pre is SendingShutdownAck,
        steps_to(pre, Event::SendFailed, post, a),
    ensures
        a == Action::Done(Err(ProtocolError::Transport)),
        post == Phase::Idle,
        forall|e: Event| !awaits(post, e),
{
}

/// Device-initiated shutdown: a `PowerDown` heard within the listening
/// window is answered with a `PowerDownAcknowledge`, and the operation
/// succeeds as soon as that send goes through.
pub proof fn lemma_shutdown_device_initiated(
    m: Message,
    ph1: Phase,
    a1: Action,
    ph2: Phase,
    a2: Action,
)
    requires
        m.command_type == CommandType::PowerDown,
        steps_to(Phase::ShutdownListening, Event::Received(m), ph1, a1),
        steps_to(ph1, Event::SendOk, ph2, a2),
    ensures
        a1 == Action::Send(OutCommand::Simple(CommandType::PowerDownAcknowledge)),
        a2 == Action::Done(Ok(())),
        ph2 == Phase::Idle,
{
}

/// Host-initiated shutdown fallback, successful half: when the listening
/// window closes with no message, the core sends `PowerDown` itself and
/// waits up to the shutdown allowance; a `PowerDownAcknowledge` within that
/// window makes the operation succeed.
pub proof fn lemma_shutdown_fallback_acknowledged(
    m: Message,
    ph1: Phase,
    a1: Action,
    ph2: Phase,
    a2: Action,
    ph3: Phase,
    a3: Action,
)
    requires
        steps_to(Phase::ShutdownListening, Event::ReceiveNothing, ph1, a1),
        steps_to(ph1, Event::SendOk, ph2, a2),
        steps_to(ph2, Event::Received(m), ph3, a3),
        m.command_type == CommandType::PowerDownAcknowledge,
    ensures
        a1 == Action::Send(OutCommand::Simple(CommandType::PowerDown)),
        a2 == (Action::Receive { timeout_s: SHUTDOWN_ALLOWANCE_S }),
        a3 == Action::Done(Ok(())),
        ph3 == Phase::Idle,
{
}

/// Host-initiated shutdown fallback, failing half: after the fallback
/// `PowerDown` is sent, a receive window that closes with no message fails
/// the whole operation as a timeout.
pub proof fn lemma_shutdown_fallback_times_out(
    ph1: Phase,
    a1: Action,
    ph2: Phase,
    a2: Action,
    ph3: Phase,
    a3: Action,
)
    requires
        steps_to(Phase::ShutdownListening, Event::ReceiveNothing, ph1, a1),
        steps_to(ph1, Event::SendOk, ph2, a2),
        steps_to(ph2, Event::ReceiveNothing, ph3, a3),
    ensures
        a1 == Action::Send(OutCommand::Simple(CommandType::PowerDown)),
        a2 == (Action::Receive { timeout_s: SHUTDOWN_ALLOWANCE_S }),
        a3 == Action::Done(
            Err(ProtocolError::Timeout { expected: CommandType::PowerDownAcknowledge }),
        ),
        ph3 == Phase::Idle,
{
}

/// A message other than `PowerDown` during the shutdown listening window is
/// not answered with an acknowledgment: the core falls back to the
/// host-initiated path exactly as it does on a timeout.
pub proof fn lemma_shutdown_listen_ignores_other_kinds(
    m: Message,
    ph1: Phase,
    a1: Action,
)
    requires
        m.command_type != CommandType::PowerDown,
        steps_to(Phase::ShutdownListening, Event::Received(m), ph1, a1),
    ensures
        a1 == Action::Send(OutCommand::Simple(CommandType::PowerDown)),
        ph1 == (Phase::SendingCommand {
            expected_ack: CommandType::PowerDownAcknowledge,
            ack_timeout_s: SHUTDOWN_ALLOWANCE_S,
        }),
{
}

/// Power-up handshake, successful half: a power-up buffer long enough to
/// carry a command tail has exactly its trailing bytes handed to the codec,
/// and a tail that decodes to `Initialised` makes the operation succeed.
/// Neither step sends anything: the announcement is never acknowledged.
pub proof fn lemma_initialised_succeeds(
    data: Vec<u8>,
    ph1: Phase,
    a1: Action,
    ph2: Phase,
    a2: Action,
)
    requires
        data@.len() >= INIT_TAIL_LEN,
        steps_to(Phase::AwaitingInitData, Event::InitData(data), ph1, a1),
        steps_to(ph1, Event::DecodedTail(Some(CommandType::Initialised)), ph2, a2),
    ensures
        a1 matches Action::Decode { prefix, tail }
            && prefix@ == data@.subrange(0, data@.len() - INIT_TAIL_LEN)
            && tail@ == data@.subrange(data@.len() - INIT_TAIL_LEN, data@.len() as int),
        a2 == Action::Done(Ok(())),
        !(a1 is Send),
        !(a2 is Send),
        ph2 == Phase::Idle,
{
}

/// Power-up handshake, failing halves: a tail that decodes to any kind
/// other than `Initialised` fails as an unexpected message carrying both
/// kinds, and a tail that does not decode at all fails as invalid data
/// carrying the very bytes that were handed to the codec.
pub proof fn lemma_initialised_rejects(
    data: Vec<u8>,
    decoded: Option<CommandType>,
    ph1: Phase,
    a1: Action,
    ph2: Phase,
    a2: Action,
)
    requires
        data@.len() >= INIT_TAIL_LEN,
        steps_to(Phase::AwaitingInitData, Event::InitData(data), ph1, a1),
        steps_to(ph1, Event::DecodedTail(decoded), ph2, a2),
        decoded != Some(CommandType::Initialised),
    ensures
        decoded matches Some(t) ==> a2 == Action::Done(
            Err(ProtocolError::UnexpectedMessage {
                expected: CommandType::Initialised,
                received: t,
            }),
        ),
        decoded is None ==> (a2 matches Action::Done(r)
            && r matches Err(e)
            && e matches ProtocolError::InvalidData { tail }
            && tail@ == data@.subrange(data@.len() - INIT_TAIL_LEN, data@.len() as int)),
        ph2 == Phase::Idle,
{
}

} // verus!

