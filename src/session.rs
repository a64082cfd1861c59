//! The connection lifecycle: a state machine driven by transport events and
//! classified frames, and the bounded queue of outbound messages.
use vstd::prelude::*;
use vstd::string::StringSliceAdditionalSpecFns;
use crate::bytes::contains;
use crate::frame::{classify, challenge_marker, error_marker, is_ack, nonce_of, Inbound};
use crate::handshake::{build, connect_request_id, decimal_text, is_signed_request, SignedConnectRequest};
use crate::identity::DeviceIdentity;

verus! {

/// The fixed wait between a drop to `Disconnected` and the next attempt.
pub const RECONNECT_DELAY_MS: u64 = 3000;

/// How long a handshake may wait for the challenge and then the
/// acknowledgement before the attempt is given up.
pub const HANDSHAKE_TIMEOUT_MS: u64 = 10000;

/// How many outbound messages may wait at once.
pub const OUTBOUND_CAPACITY: usize = 100;

#[derive(Debug, Clone, Copy, PartialEq, Eq, Structural)]
pub enum SessionState {
    Disconnected,
    Connecting,
    AwaitingChallenge,
    Authenticating,
    Authenticated,
    Closing,
}

/// A lifecycle notification for observers.
#[derive(Debug, PartialEq, Eq)]
pub enum Notice {
    Connected,
    Authenticated,
    /// An error frame; holds the frame.
    Error(String),
    /// A frame received once authenticated; holds the frame.
    Message(String),
}

/// What the owner of the transport does after an event.
pub enum Action {
    /// Nothing: the frame or event is dropped.
    Ignore,
    /// Send this connect request.
    SendConnect(SignedConnectRequest),
    /// Tell the observers.
    Notify(Notice),
    /// Tell the observers of this error frame, report the session
    /// disconnected, and start again after `RECONNECT_DELAY_MS`.
    Rejected(String),
    /// Report the session disconnected and start again after this many
    /// milliseconds.
    Reconnect(u64),
}

/// One logical connection to the gateway, from the side of its owner.
pub struct Session {
    state: SessionState,
    identity: DeviceIdentity,
    /// The id of the outstanding connect request, while authenticating.
    pending: Option<String>,
    /// The number that the next connect request id carries.
    next_request: u64,
}

impl Session {
    pub closed spec fn state_view(&self) -> SessionState {
        self.state
    }

    pub closed spec fn pending_view(&self) -> Option<Seq<char>> {
        match self.pending {
            Some(p) => Some(p@),
            None => None,
        }
    }

    pub closed spec fn next_request_view(&self) -> u64 {
        self.next_request
    }

    pub closed spec fn identity_view(&self) -> DeviceIdentity {
        self.identity
    }

    /// A request is outstanding exactly while authenticating, and the
    /// identity can sign.
    pub open spec fn wf(&self) -> bool {
        &&& self.identity_view().wf()
        &&& (self.pending_view() is Some <==> self.state_view() == SessionState::Authenticating)
    }

    /// A new session, disconnected; its first connect request is `cp-1`.
    pub fn new(identity: DeviceIdentity) -> (r: Session)
        requires
            identity.wf(),
        ensures
            r.wf(),
            r.state_view() == SessionState::Disconnected,
            r.identity_view() == identity,
            r.next_request_view() == 1,
    {
        Session { state: SessionState::Disconnected, identity, pending: None, next_request: 1 }
    }

    pub fn state(&self) -> (r: SessionState)
        ensures
            r == self.state_view(),
    {
        self.state
    }

    /// Whether outbound messages may go on the wire now.
    pub fn is_authenticated(&self) -> (r: bool)
        ensures
            r == (self.state_view() == SessionState::Authenticated),
    {
        self.state == SessionState::Authenticated
    }

    /// Begins an attempt: `Disconnected` becomes `Connecting`; any other
    /// state stays.
    pub fn start(&mut self)
        requires
            old(self).wf(),
        ensures
            final(self).wf(),
            final(self).state_view() == started(old(self).state_view()),
            final(self).identity_view() == old(self).identity_view(),
            final(self).pending_view() == old(self).pending_view(),
            final(self).next_request_view() == old(self).next_request_view(),
    {
        if self.state == SessionState::Disconnected {
            self.state = SessionState::Connecting;
        }
    }

    /// The transport is up: `Connecting` becomes `AwaitingChallenge` and the
    /// observers hear of it; in any other state nothing happens.
    pub fn transport_connected(&mut self) -> (r: Action)
        requires
            old(self).wf(),
        ensures
            final(self).wf(),
            old(self).state_view() == SessionState::Connecting ==> final(self).state_view()
                == SessionState::AwaitingChallenge && r == Action::Notify(Notice::Connected),
            old(self).state_view() != SessionState::Connecting ==> final(self).state_view()
                == old(self).state_view() && r == Action::Ignore,
            final(self).identity_view() == old(self).identity_view(),
            final(self).pending_view() == old(self).pending_view(),
            final(self).next_request_view() == old(self).next_request_view(),
    {
        if self.state == SessionState::Connecting {
            self.state = SessionState::AwaitingChallenge;
            Action::Notify(Notice::Connected)
        } else {
            Action::Ignore
        }
    }

    /// The transport failed to connect, closed, failed a read or a send:
    /// from any state the session drops to `Disconnected`, and asks for a new
    /// attempt after the fixed delay unless it was being closed.
    pub fn transport_failed(&mut self) -> (r: Action)
        requires
            old(self).wf(),
        ensures
            final(self).wf(),
            final(self).state_view() == SessionState::Disconnected,
            r == failure_action(old(self).state_view()),
            final(self).identity_view() == old(self).identity_view(),
            final(self).next_request_view() == old(self).next_request_view(),
    {
        let closing = self.state == SessionState::Closing;
        self.state = SessionState::Disconnected;
        self.pending = None;
        if closing {
            Action::Ignore
        } else {
            Action::Reconnect(RECONNECT_DELAY_MS)
        }
    }

    /// The handshake took longer than `HANDSHAKE_TIMEOUT_MS`: a session
    /// still awaiting the challenge or the acknowledgement drops to
    /// `Disconnected` and asks for a new attempt; any other state stays.
    pub fn handshake_timed_out(&mut self) -> (r: Action)
        requires
            old(self).wf(),
        ensures
            final(self).wf(),
            final(self).identity_view() == old(self).identity_view(),
            final(self).next_request_view() == old(self).next_request_view(),
            old(self).state_view() == SessionState::AwaitingChallenge || old(self).state_view()
                == SessionState::Authenticating ==> final(self).state_view() == SessionState::Disconnected
                && r == Action::Reconnect(RECONNECT_DELAY_MS),
            !(old(self).state_view() == SessionState::AwaitingChallenge || old(self).state_view()
                == SessionState::Authenticating) ==> final(self).state_view() == old(self).state_view()
                && final(self).pending_view() == old(self).pending_view() && r is Ignore,
    {
        if self.state == SessionState::AwaitingChallenge || self.state == SessionState::Authenticating {
            self.state = SessionState::Disconnected;
            self.pending = None;
            Action::Reconnect(RECONNECT_DELAY_MS)
        } else {
            Action::Ignore
        }
    }

    /// An explicit shutdown: the session is `Closing` until the transport
    /// is gone, and no new attempt follows.
    pub fn close(&mut self)
        requires
            old(self).wf(),
        ensures
            final(self).wf(),
            final(self).state_view() == SessionState::Closing,
            final(self).identity_view() == old(self).identity_view(),
            final(self).next_request_view() == old(self).next_request_view(),
    {
        self.state = SessionState::Closing;
        self.pending = None;
    }

    /// Handles one inbound text frame; `signed_at` is the time, in epoch
    /// milliseconds, that a connect request built now would carry.
    pub fn on_frame(&mut self, frame: &str, signed_at: u64) -> (r: Action)
        requires
            old(self).wf(),
        ensures
            final(self).wf(),
            final(self).identity_view() == old(self).identity_view(),
            frame_step(
                old(self).state_view(),
                old(self).pending_view(),
                old(self).next_request_view(),
                old(self).identity_view(),
                frame@,
                frame.spec_bytes(),
                signed_at,
                final(self).state_view(),
                final(self).pending_view(),
                final(self).next_request_view(),
                r,
            ),
    {
        let kind = match &self.pending {
            Some(id) => classify(frame, Some(id.as_str())),
            None => classify(frame, None),
        };
        match kind {
            Inbound::Challenge(nonce) => {
                if self.state == SessionState::AwaitingChallenge {
                    let id = connect_request_id(self.next_request);
                    let request = build(id.as_str(), nonce.as_slice(), &self.identity, signed_at);
                    self.next_request = if self.next_request == u64::MAX {
                        1
                    } else {
                        self.next_request + 1
                    };
                    self.state = SessionState::Authenticating;
                    self.pending = Some(id);
                    Action::SendConnect(request)
                } else {
                    Action::Ignore
                }
            },
            Inbound::Malformed => Action::Ignore,
            Inbound::Ack => {
                if self.state == SessionState::Authenticating {
                    self.state = SessionState::Authenticated;
                    self.pending = None;
                    Action::Notify(Notice::Authenticated)
                } else {
                    Action::Ignore
                }
            },
            Inbound::Error(text) => {
                if self.state == SessionState::Authenticating {
                    self.state = SessionState::Disconnected;
                    self.pending = None;
                    Action::Rejected(text)
                } else {
                    Action::Notify(Notice::Error(text))
                }
            },
            Inbound::Event(text) => {
                if self.state == SessionState::Authenticated {
                    Action::Notify(Notice::Message(text))
                } else {
                    Action::Ignore
                }
            },
        }
    }
}

/// The state after `start` in state `s`.
pub open spec fn started(s: SessionState) -> SessionState {
    if s == SessionState::Disconnected {
        SessionState::Connecting
    } else {
        s
    }
}

/// What a transport failure in state `s` asks for: a new attempt after the
/// fixed delay, unless the session was being closed.
pub open spec fn failure_action(s: SessionState) -> Action {
    if s == SessionState::Closing {
        Action::Ignore
    } else {
        Action::Reconnect(RECONNECT_DELAY_MS)
    }
}

/// The retry loop has no terminal state: after a failure in any state but
/// `Closing` the session is `Disconnected`, a new attempt is asked for after
/// the same fixed delay every time, and `start` then makes it `Connecting`.
pub proof fn lemma_failure_always_retries(s: SessionState)
    requires
        s != SessionState::Closing,
    ensures
        failure_action(s) == Action::Reconnect(RECONNECT_DELAY_MS),
        RECONNECT_DELAY_MS == 3000,
        started(SessionState::Disconnected) == SessionState::Connecting,
{
}

/// The outstanding connect request's id, as the bytes a response names.
pub open spec fn ack_target(pending: Option<Seq<char>>) -> Option<Seq<u8>> {
    match pending {
        Some(p) => Some(vstd::utf8::encode_utf8(p)),
        None => None,
    }
}

pub open spec fn next_counter(n: u64) -> u64 {
    if n == u64::MAX { 1 } else { (n + 1) as u64 }
}

/// One frame's effect: the state, outstanding request and counter before
/// (`s`, `p`, `n`) and after (`s_next`, `p_next`, `n_next`), and the action `r`.
pub open spec fn frame_step(
    s: SessionState,
    p: Option<Seq<char>>,
    n: u64,
    identity: DeviceIdentity,
    text: Seq<char>,
    b: Seq<u8>,
    signed_at: u64,
    s_next: SessionState,
    p_next: Option<Seq<char>>,
    n_next: u64,
    r: Action,
) -> bool {
    let unchanged = s_next == s && p_next == p && n_next == n;
    if contains(b, challenge_marker()) {
        match nonce_of(b) {
            Some(nonce) => if s == SessionState::AwaitingChallenge {
                let id = "cp-"@ + decimal_text(n as nat);
                &&& s_next == SessionState::Authenticating
                &&& p_next == Some(id)
                &&& n_next == next_counter(n)
                &&& r matches Action::SendConnect(req) && is_signed_request(
                    req,
                    id,
                    nonce,
                    identity,
                    signed_at,
                )
            } else {
                unchanged && r is Ignore
            },
            None => unchanged && r is Ignore,
        }
    } else if is_ack(b, ack_target(p)) {
        if s == SessionState::Authenticating {
            s_next == SessionState::Authenticated && p_next is None && n_next == n && r == Action::Notify(
                Notice::Authenticated,
            )
        } else {
            unchanged && r is Ignore
        }
    } else if contains(b, error_marker()) {
        if s == SessionState::Authenticating {
            s_next == SessionState::Disconnected && p_next is None && n_next == n && (r matches Action::Rejected(
                t,
            ) && t@ == text)
        } else {
            unchanged && (r matches Action::Notify(Notice::Error(t)) && t@ == text)
        }
    } else if s == SessionState::Authenticated {
        unchanged && (r matches Action::Notify(Notice::Message(t)) && t@ == text)
    } else {
        unchanged && r is Ignore
    }
}

/// At most one connect request per transport session: a challenge frame
/// that arrives in any state but `AwaitingChallenge` (so also a second one,
/// once a request is out or the session is authenticated) changes nothing
/// and sends nothing.
pub proof fn lemma_challenge_only_answered_once(
    s: SessionState,
    p: Option<Seq<char>>,
    n: u64,
    identity: DeviceIdentity,
    text: Seq<char>,
    b: Seq<u8>,
    signed_at: u64,
    s_next: SessionState,
    p_next: Option<Seq<char>>,
    n_next: u64,
    r: Action,
)
    requires
        frame_step(s, p, n, identity, text, b, signed_at, s_next, p_next, n_next, r),
        contains(b, challenge_marker()),
        s != SessionState::AwaitingChallenge,
    ensures
        s_next == s,
        p_next == p,
        n_next == n,
        r is Ignore,
{
}

/// A challenge answered while awaiting one leaves the session
/// authenticating, with exactly one request out, named by the counter.
pub proof fn lemma_challenge_answered_with_one_request(
    p: Option<Seq<char>>,
    n: u64,
    identity: DeviceIdentity,
    text: Seq<char>,
    b: Seq<u8>,
    signed_at: u64,
    s_next: SessionState,
    p_next: Option<Seq<char>>,
    n_next: u64,
    r: Action,
)
    requires
        frame_step(SessionState::AwaitingChallenge, p, n, identity, text, b, signed_at, s_next, p_next, n_next, r),
        contains(b, challenge_marker()),
        nonce_of(b) is Some,
    ensures
        s_next == SessionState::Authenticating,
        p_next == Some("cp-"@ + decimal_text(n as nat)),
        r is SendConnect,
{
}

/// Once authenticated no connect request is outstanding, so no frame is an
/// acknowledgement: a frame without a challenge marker or an error marker
/// reaches the observers, whatever `"ok"` and `"id"` fields it holds.
pub proof fn lemma_authenticated_frames_delivered(
    n: u64,
    identity: DeviceIdentity,
    text: Seq<char>,
    b: Seq<u8>,
    signed_at: u64,
    s_next: SessionState,
    p_next: Option<Seq<char>>,
    n_next: u64,
    r: Action,
)
    requires
        frame_step(SessionState::Authenticated, None, n, identity, text, b, signed_at, s_next, p_next, n_next, r),
        !contains(b, challenge_marker()),
        !contains(b, error_marker()),
    ensures
        s_next == SessionState::Authenticated,
        r matches Action::Notify(Notice::Message(t)) && t@ == text,
{
}

} // verus!
