//! The signaling server's handling of one connection.
//!
//! A connection first authenticates with a token, then registers under the
//! device id that the token names, and from then on has its signaling
//! messages relayed: a `connect` request is forwarded to the device it
//! names, offers, answers and ICE candidates are passed on to every other
//! registered device. The socket and the registry of devices are outside
//! this module; it decides, for each event on the connection, what is done
//! and which phase follows, and checks presented tokens with the server's
//! `AuthManager`.

use crate::server_auth::{jwt_device_claim, AuthManager};
use crate::signaling::SignalingMessage;
use vstd::prelude::*;

verus! {

broadcast use vstd::string::group_string_axioms;

/// Where a connection stands.
#[derive(Debug, Clone)]
pub enum ServerPhase {
    /// Waiting for the first frame, which must be an `auth` message.
    AwaitingAuth,
    /// The token was handed over for checking; waiting for the verdict.
    AwaitingVerdict,
    /// Authenticated as `device_id`; waiting for the `register` message.
    AwaitingRegister { device_id: String },
    /// Registered as `device_id`; messages are relayed.
    Registered { device_id: String },
    /// The connection is finished.
    Closed,
}

/// Something that happened on a connection.
#[derive(Debug, Clone)]
pub enum ServerEvent {
    /// A text frame arrived; it holds the signaling message it decodes to,
    /// or `None` when it is not one.
    Text(Option<SignalingMessage>),
    /// A frame that is not text arrived.
    Other,
    /// The stream ended or failed.
    End,
    /// The token check finished: the device id the token names, or `None`
    /// when the token was refused.
    Verdict(Option<String>),
}

/// An answer the server sends on the connection before closing it or
/// going on.
#[derive(Debug, Clone, Copy, PartialEq, Eq, Structural)]
pub enum ServerReply {
    /// The token was accepted.
    AuthAccepted,
    /// The token was refused.
    InvalidToken,
    /// The first message was not an `auth` message.
    ExpectedAuth,
    /// The connection ended, or sent something other than text, before
    /// authenticating.
    NoAuthToken,
    /// The second message was not a `register` message.
    InvalidRegister,
    /// The device registered under another id than its token names.
    DeviceIdMismatch,
}

/// What the connection's handler is to do.
#[derive(Debug, Clone)]
pub enum ServerAction {
    /// Send this answer.
    Reply(ServerReply),
    /// Check this token and report the verdict.
    VerifyToken(String),
    /// Enter the device in the registry, reachable through this connection.
    RegisterDevice(String),
    /// If `target` is registered, send it `message`.
    ForwardTo { target: String, message: SignalingMessage },
    /// Send the frame just received to every registered device but `except`.
    BroadcastExcept(String),
    /// Remove the device from the registry.
    UnregisterDevice(String),
    /// Close the connection.
    Close,
}

/// The message text of a refusal.
pub open spec fn refusal_text(r: ServerReply) -> Seq<char> {
    match r {
        ServerReply::InvalidToken => "invalid token"@,
        ServerReply::ExpectedAuth => "expected auth message"@,
        ServerReply::NoAuthToken => "no auth token"@,
        ServerReply::InvalidRegister => "invalid register"@,
        ServerReply::DeviceIdMismatch => "device id mismatch"@,
        ServerReply::AuthAccepted => Seq::empty(),
    }
}

/// Whether `m` is the signaling message sent for `r`: an `error` message
/// for a refused registration, an `auth-response` otherwise, successful
/// only for an accepted token.
pub open spec fn is_reply_message(r: ServerReply, m: SignalingMessage) -> bool {
    match r {
        ServerReply::AuthAccepted => m == (SignalingMessage::AuthResponse { success: true, message: None }),
        ServerReply::InvalidRegister => match m {
            SignalingMessage::Error { message } => message@ == refusal_text(r),
            _ => false,
        },
        _ => match m {
            SignalingMessage::AuthResponse { success, message: Some(t) } => !success && t@
                == refusal_text(r),
            _ => false,
        },
    }
}

impl ServerReply {
    /// The signaling message that carries this answer.
    pub fn message(&self) -> (m: SignalingMessage)
        ensures
            is_reply_message(*self, m),
    {
        match self {
            ServerReply::AuthAccepted => SignalingMessage::AuthResponse { success: true, message: None },
            ServerReply::InvalidToken => SignalingMessage::AuthResponse {
                success: false,
                message: Some("invalid token".to_string()),
            },
            ServerReply::ExpectedAuth => SignalingMessage::AuthResponse {
                success: false,
                message: Some("expected auth message".to_string()),
            },
            ServerReply::NoAuthToken => SignalingMessage::AuthResponse {
                success: false,
                message: Some("no auth token".to_string()),
            },
            ServerReply::InvalidRegister => SignalingMessage::Error {
                message: "invalid register".to_string(),
            },
            ServerReply::DeviceIdMismatch => SignalingMessage::AuthResponse {
                success: false,
                message: Some("device id mismatch".to_string()),
            },
        }
    }
}

/// The device id a `register` message announces; `None` for anything else.
pub open spec fn registered_id(m: Option<SignalingMessage>) -> Option<String> {
    match m {
        Some(SignalingMessage::Register { device_id }) => Some(device_id),
        _ => None,
    }
}

/// Whether a message is relayed to every other device: offers, answers and
/// ICE candidates.
pub open spec fn is_broadcast(m: SignalingMessage) -> bool {
    ||| m is Offer
    ||| m is Answer
    ||| m is IceCandidate
}

/// The phase after `event` in `phase`, and the actions taken, in order.
pub open spec fn server_next(phase: ServerPhase, event: ServerEvent) -> (ServerPhase, Seq<ServerAction>) {
    match phase {
        ServerPhase::AwaitingAuth => match event {
            ServerEvent::Text(None) => (ServerPhase::Closed, seq![ServerAction::Close]),
            ServerEvent::Text(Some(SignalingMessage::Auth { token })) => (
                ServerPhase::AwaitingVerdict,
                seq![ServerAction::VerifyToken(token)],
            ),
            ServerEvent::Text(Some(_)) => (
                ServerPhase::Closed,
                seq![ServerAction::Reply(ServerReply::ExpectedAuth), ServerAction::Close],
            ),
            ServerEvent::Other | ServerEvent::End => (
                ServerPhase::Closed,
                seq![ServerAction::Reply(ServerReply::NoAuthToken), ServerAction::Close],
            ),
            ServerEvent::Verdict(_) => (phase, seq![]),
        },
        ServerPhase::AwaitingVerdict => match event {
            ServerEvent::Verdict(Some(device_id)) => (
                ServerPhase::AwaitingRegister { device_id },
                seq![ServerAction::Reply(ServerReply::AuthAccepted)],
            ),
            ServerEvent::Verdict(None) => (
                ServerPhase::Closed,
                seq![ServerAction::Reply(ServerReply::InvalidToken), ServerAction::Close],
            ),
            _ => (phase, seq![]),
        },
        ServerPhase::AwaitingRegister { device_id } => match event {
            ServerEvent::Text(m) => match registered_id(m) {
                None => (
                    ServerPhase::Closed,
                    seq![ServerAction::Reply(ServerReply::InvalidRegister), ServerAction::Close],
                ),
                Some(announced) => if announced@ == device_id@ {
                    (
                        ServerPhase::Registered { device_id },
                        seq![ServerAction::RegisterDevice(device_id)],
                    )
                } else {
                    (
                        ServerPhase::Closed,
                        seq![ServerAction::Reply(ServerReply::DeviceIdMismatch), ServerAction::Close],
                    )
                },
            },
            ServerEvent::Other | ServerEvent::End => (ServerPhase::Closed, seq![ServerAction::Close]),
            ServerEvent::Verdict(_) => (phase, seq![]),
        },
        ServerPhase::Registered { device_id } => match event {
            ServerEvent::Text(Some(SignalingMessage::Connect { target_device_id })) => (
                phase,
                seq![
                    ServerAction::ForwardTo {
                        target: target_device_id,
                        message: SignalingMessage::Connect { target_device_id: device_id },
                    },
                ],
            ),
            ServerEvent::Text(Some(m)) => if is_broadcast(m) {
                (phase, seq![ServerAction::BroadcastExcept(device_id)])
            } else {
                (phase, seq![])
            },
            ServerEvent::End => (
                ServerPhase::Closed,
                seq![ServerAction::UnregisterDevice(device_id), ServerAction::Close],
            ),
            _ => (phase, seq![]),
        },
        ServerPhase::Closed => (phase, seq![]),
    }
}

/// The token a connection presents with `event` in `phase`: the token of
/// an `auth` message that arrives first.
pub open spec fn presented_token(phase: ServerPhase, event: ServerEvent) -> Option<String> {
    match (phase, event) {
        (ServerPhase::AwaitingAuth, ServerEvent::Text(Some(SignalingMessage::Auth { token }))) => Some(token),
        _ => None,
    }
}

/// What handling `event` in `phase` gives when the token check, if one is
/// made, reports `verdict`: the token is checked and its verdict handled at
/// once; any other event is a plain step.
pub open spec fn checked_next(phase: ServerPhase, event: ServerEvent, verdict: Option<String>) -> (
    ServerPhase,
    Seq<ServerAction>,
) {
    match presented_token(phase, event) {
        Some(_) => server_next(ServerPhase::AwaitingVerdict, ServerEvent::Verdict(verdict)),
        None => server_next(phase, event),
    }
}

/// A step asks for a token check exactly when a token is presented, and
/// then asks for nothing else.
proof fn lemma_verify_only_for_presented_token(phase: ServerPhase, event: ServerEvent)
    ensures
        presented_token(phase, event) matches Some(t) ==> server_next(phase, event) == (
            ServerPhase::AwaitingVerdict,
            seq![ServerAction::VerifyToken(t)],
        ),
        presented_token(phase, event) is None ==> forall|k: int|
            0 <= k < server_next(phase, event).1.len() ==> !(#[trigger] server_next(phase, event).1[k] is VerifyToken),
{
}

/// The handling of one connection.
pub struct ServerSession {
    phase: ServerPhase,
}

impl ServerSession {
    /// The current phase.
    pub closed spec fn spec_phase(&self) -> ServerPhase {
        self.phase
    }

    /// A fresh connection, waiting for its `auth` message.
    pub fn new() -> (s: Self)
        ensures
            s.spec_phase() is AwaitingAuth,
    {
        ServerSession { phase: ServerPhase::AwaitingAuth }
    }

    /// The current phase.
    pub fn phase(&self) -> (p: &ServerPhase)
        ensures
            *p == self.spec_phase(),
    {
        &self.phase
    }

    /// Whether the connection is finished.
    pub fn is_closed(&self) -> (b: bool)
        ensures
            b == (self.spec_phase() is Closed),
    {
        matches!(self.phase, ServerPhase::Closed)
    }

    /// Handles `event`, checking a presented token with `auth` at once:
    /// moves to the next phase and returns the actions to take, in order,
    /// none of which asks for a token check. The verdict is a device the
    /// token names under the server's secret, or a refusal; which tokens
    /// pass depends also on the clock, through their expiry.
    pub fn receive(&mut self, auth: &AuthManager, event: ServerEvent) -> (actions: Vec<ServerAction>)
        ensures
            exists|verdict: Option<String>|
                {
                    &&& (verdict matches Some(d) ==> presented_token(old(self).spec_phase(), event) matches Some(
                        t,
                    ) && jwt_device_claim(t@, auth.spec_secret()) == Some(d@))
                    &&& final(self).spec_phase() == #[trigger] checked_next(
                        old(self).spec_phase(),
                        event,
                        verdict,
                    ).0
                    &&& actions@ == checked_next(old(self).spec_phase(), event, verdict).1
                },
            forall|k: int| 0 <= k < actions@.len() ==> !(#[trigger] actions@[k] is VerifyToken),
    {
        let ghost old_phase = self.phase;
        proof {
            lemma_verify_only_for_presented_token(old_phase, event);
        }
        let first = self.step(event);
        if first.len() == 1 {
            if let ServerAction::VerifyToken(token) = &first[0] {
                let verdict = match auth.verify_token(token.as_str()) {
                    Ok(device) => Some(device),
                    Err(_) => None,
                };
                let actions = self.step(ServerEvent::Verdict(verdict));
                proof {
                    assert(checked_next(old_phase, event, verdict).1 == actions@);
                    assert(checked_next(old_phase, event, verdict).0 == self.spec_phase());
                }
                return actions;
            }
        }
        proof {
            assert(presented_token(old_phase, event) is None) by {
                if presented_token(old_phase, event) is Some {
                    assert(first@[0] is VerifyToken);
                }
            }
            assert(checked_next(old_phase, event, None).1 == first@);
        }
        first
    }

    /// Handles `event`: moves to the next phase and returns the actions to
    /// take, in order.
    pub fn step(&mut self, event: ServerEvent) -> (actions: Vec<ServerAction>)
        ensures
            final(self).spec_phase() == server_next(old(self).spec_phase(), event).0,
            actions@ == server_next(old(self).spec_phase(), event).1,
    {
        let mut actions: Vec<ServerAction> = Vec::new();
        let mut phase = ServerPhase::Closed;
        std::mem::swap(&mut phase, &mut self.phase);
        let ghost old_phase = phase;
        let next = match phase {
            ServerPhase::AwaitingAuth => match event {
                ServerEvent::Text(None) => {
                    actions.push(ServerAction::Close);
                    ServerPhase::Closed
                },
                ServerEvent::Text(Some(SignalingMessage::Auth { token })) => {
                    actions.push(ServerAction::VerifyToken(token));
                    ServerPhase::AwaitingVerdict
                },
                ServerEvent::Text(Some(_)) => {
                    actions.push(ServerAction::Reply(ServerReply::ExpectedAuth));
                    actions.push(ServerAction::Close);
                    ServerPhase::Closed
                },
                ServerEvent::Other | ServerEvent::End => {
                    actions.push(ServerAction::Reply(ServerReply::NoAuthToken));
                    actions.push(ServerAction::Close);
                    ServerPhase::Closed
                },
                ServerEvent::Verdict(_) => ServerPhase::AwaitingAuth,
            },
            ServerPhase::AwaitingVerdict => match event {
                ServerEvent::Verdict(Some(device_id)) => {
                    actions.push(ServerAction::Reply(ServerReply::AuthAccepted));
                    ServerPhase::AwaitingRegister { device_id }
                },
                ServerEvent::Verdict(None) => {
                    actions.push(ServerAction::Reply(ServerReply::InvalidToken));
                    actions.push(ServerAction::Close);
                    ServerPhase::Closed
                },
                _ => ServerPhase::AwaitingVerdict,
            },
            ServerPhase::AwaitingRegister { device_id } => match event {
                ServerEvent::Text(m) => {
                    let announced = match m {
                        Some(SignalingMessage::Register { device_id }) => Some(device_id),
                        _ => None,
                    };
                    match announced {
                        None => {
                            actions.push(ServerAction::Reply(ServerReply::InvalidRegister));
                            actions.push(ServerAction::Close);
                            ServerPhase::Closed
                        },
                        Some(announced) => {
                            if announced == device_id {
                                let registered = device_id.clone();
                                actions.push(ServerAction::RegisterDevice(device_id));
                                ServerPhase::Registered { device_id: registered }
                            } else {
                                actions.push(ServerAction::Reply(ServerReply::DeviceIdMismatch));
                                actions.push(ServerAction::Close);
                                ServerPhase::Closed
                            }
                        },
                    }
                },
                ServerEvent::Other | ServerEvent::End => {
                    actions.push(ServerAction::Close);
                    ServerPhase::Closed
                },
                ServerEvent::Verdict(_) => ServerPhase::AwaitingRegister { device_id },
            },
            ServerPhase::Registered { device_id } => match event {
                ServerEvent::Text(Some(SignalingMessage::Connect { target_device_id })) => {
                    let own = device_id.clone();
                    actions.push(
                        ServerAction::ForwardTo {
                            target: target_device_id,
                            message: SignalingMessage::Connect { target_device_id: own },
                        },
                    );
                    ServerPhase::Registered { device_id }
                },
                ServerEvent::Text(Some(m)) => {
                    let relayed = match m {
                        SignalingMessage::Offer { .. } => true,
                        SignalingMessage::Answer { .. } => true,
                        SignalingMessage::IceCandidate { .. } => true,
                        _ => false,
                    };
                    if relayed {
                        let own = device_id.clone();
                        actions.push(ServerAction::BroadcastExcept(own));
                    }
                    ServerPhase::Registered { device_id }
                },
                ServerEvent::End => {
                    actions.push(ServerAction::UnregisterDevice(device_id));
                    actions.push(ServerAction::Close);
                    ServerPhase::Closed
                },
                _ => ServerPhase::Registered { device_id },
            },
            ServerPhase::Closed => ServerPhase::Closed,
        };
        self.phase = next;
        proof {
            assert(actions@ =~= server_next(old_phase, event).1);
        }
        actions
    }
}

/// The phase reached from `start` after `events`, and every action taken on
/// the way, in order.
pub open spec fn server_run(start: ServerPhase, events: Seq<ServerEvent>) -> (ServerPhase, Seq<ServerAction>)
    decreases events.len(),
{
    if events.len() == 0 {
        (start, seq![])
    } else {
        let (p, acts) = server_run(start, events.drop_last());
        let (q, more) = server_next(p, events.last());
        (q, acts + more)
    }
}

/// Whether the token check reported `device_id` among `events`.
pub open spec fn token_accepted(events: Seq<ServerEvent>, device_id: String) -> bool {
    exists|i: int| 0 <= i < events.len() && #[trigger] events[i] == ServerEvent::Verdict(Some(device_id))
}

/// The device a phase belongs to, once the token has been accepted.
pub open spec fn phase_device(p: ServerPhase) -> Option<String> {
    match p {
        ServerPhase::AwaitingRegister { device_id } => Some(device_id),
        ServerPhase::Registered { device_id } => Some(device_id),
        _ => None,
    }
}

/// The device on whose behalf an action acts: the one it registers, the
/// sender of a broadcast, or the sender a forwarded `connect` names.
pub open spec fn acting_device(a: ServerAction) -> Option<String> {
    match a {
        ServerAction::RegisterDevice(d) => Some(d),
        ServerAction::BroadcastExcept(d) => Some(d),
        ServerAction::ForwardTo { message: SignalingMessage::Connect { target_device_id }, .. } => Some(
            target_device_id,
        ),
        _ => None,
    }
}

/// Whether an action relays something to other devices.
pub open spec fn is_relay(a: ServerAction) -> bool {
    a is ForwardTo || a is BroadcastExcept
}

/// Law: a connection acts only for the device its token names. Whatever
/// events a connection goes through from its start, every device it
/// registers, every broadcast it sends and every `connect` it forwards is on
/// behalf of a device id that the token check reported for it.
pub proof fn law_acts_only_for_authenticated_device(events: Seq<ServerEvent>)
    ensures
        phase_device(server_run(ServerPhase::AwaitingAuth, events).0) matches Some(d) ==> token_accepted(
            events,
            d,
        ),
        forall|k: int|
            0 <= k < server_run(ServerPhase::AwaitingAuth, events).1.len() ==> (#[trigger] acting_device(
                server_run(ServerPhase::AwaitingAuth, events).1[k],
            ) matches Some(d) ==> token_accepted(events, d)),
    decreases events.len(),
{
    if events.len() > 0 {
        let prefix = events.drop_last();
        law_acts_only_for_authenticated_device(prefix);
        let (p, acts) = server_run(ServerPhase::AwaitingAuth, prefix);
        let (q, more) = server_next(p, events.last());
        assert forall|d: String| token_accepted(prefix, d) implies token_accepted(events, d) by {
            let i = choose|i: int| 0 <= i < prefix.len() && #[trigger] prefix[i] == ServerEvent::Verdict(Some(d));
            assert(events[i] == prefix[i]);
        }
        if let ServerEvent::Verdict(Some(d)) = events.last() {
            assert(events[events.len() - 1] == ServerEvent::Verdict(Some(d)));
        }
        let all = acts + more;
        assert forall|k: int| 0 <= k < all.len() implies (#[trigger] acting_device(all[k]) matches Some(d)
            ==> token_accepted(events, d)) by {
            if k < acts.len() {
                assert(all[k] == acts[k]);
            } else {
                assert(all[k] == more[k - acts.len()]);
            }
        }
    }
}

/// Law: nothing is relayed before registration. A step relays a message to
/// other devices only from the registered phase.
pub proof fn law_relay_only_when_registered(phase: ServerPhase, event: ServerEvent)
    ensures
        (exists|k: int| 0 <= k < server_next(phase, event).1.len() && is_relay(#[trigger] server_next(phase, event).1[k]))
            ==> phase is Registered,
{
}

/// Law: a finished connection stays finished and does nothing more.
pub proof fn law_closed_is_final(event: ServerEvent)
    ensures
        server_next(ServerPhase::Closed, event).0 is Closed,
        server_next(ServerPhase::Closed, event).1.len() == 0,
{
}

/// Law: when a registered device's stream ends, it leaves the registry and
/// its connection is closed.
pub proof fn law_end_unregisters(device_id: String)
    ensures
        server_next(ServerPhase::Registered { device_id }, ServerEvent::End) == (
            ServerPhase::Closed,
            seq![ServerAction::UnregisterDevice(device_id), ServerAction::Close],
        ),
{
}

/// Law: a device is in the registry exactly while its connection is
/// registered. A step enters a device exactly when it moves the connection
/// into the registered phase, under that phase's device id, and removes one
/// exactly when it moves the connection out of it, under the id it had.
pub proof fn law_registry_follows_phase(phase: ServerPhase, event: ServerEvent)
    ensures
        ({
            let (next, acts) = server_next(phase, event);
            &&& (exists|k: int| 0 <= k < acts.len() && #[trigger] acts[k] is RegisterDevice) <==> (!(
            phase is Registered) && next is Registered)
            &&& (exists|k: int| 0 <= k < acts.len() && #[trigger] acts[k] is UnregisterDevice) <==> (
            phase is Registered && !(next is Registered))
            &&& forall|k: int|
                0 <= k < acts.len() ==> (#[trigger] acts[k] matches ServerAction::RegisterDevice(d) ==> next
                    == ServerPhase::Registered { device_id: d })
            &&& forall|k: int|
                0 <= k < acts.len() ==> (#[trigger] acts[k] matches ServerAction::UnregisterDevice(d) ==> phase
                    == ServerPhase::Registered { device_id: d })
        }),
{
    let (next, acts) = server_next(phase, event);
    if !(phase is Registered) && next is Registered {
        assert(acts[0] is RegisterDevice);
    }
    if phase is Registered && !(next is Registered) {
        assert(acts[0] is UnregisterDevice);
    }
}

/// Law: only the device a valid token names gets authenticated. When a
/// connection that belongs to no device yet and is not left waiting for a
/// verdict handles an event, with the token check reporting only devices
/// that the presented token names under `secret`, the connection comes to
/// belong to a device only as the answer to an `auth` message whose token
/// names that device; and it is never left waiting for a verdict.
pub proof fn law_device_named_by_token(
    phase: ServerPhase,
    event: ServerEvent,
    verdict: Option<String>,
    secret: Seq<char>,
)
    requires
        phase_device(phase) is None,
        !(phase is AwaitingVerdict),
        verdict matches Some(d) ==> presented_token(phase, event) matches Some(t) && jwt_device_claim(t@, secret)
            == Some(d@),
    ensures
        phase_device(checked_next(phase, event, verdict).0) matches Some(d) ==> presented_token(phase, event) matches Some(
            t,
        ) && jwt_device_claim(t@, secret) == Some(d@),
        !(checked_next(phase, event, verdict).0 is AwaitingVerdict),
{
}

} // verus!
