//! The signaling server's state and transitions, as mathematical values.
use vstd::prelude::*;

use crate::signaling::messages::{ClientMessageView, OutgoingView, ServerMessageView};
use crate::strmap::map_retain;

verus! {

/// The part a connected client plays.
#[derive(Debug, Clone, Copy, PartialEq, Eq, Structural)]
pub enum ClientRole {
    /// The controlled side.
    Host,
    /// The controlling side.
    Control,
}

/// What the server knows of a connected client.
pub struct ClientView {
    pub role: ClientRole,
    /// The id of the client it is paired with, if any.
    pub peer_id: Option<Seq<char>>,
}

/// A session opened by a host, found by its connection code.
pub struct SessionView {
    pub host_id: Seq<char>,
    pub password: Seq<char>,
    pub control_id: Option<Seq<char>>,
}

/// The whole server state: clients by id and sessions by connection code.
pub struct SignalingView {
    pub clients: Map<Seq<char>, ClientView>,
    pub sessions: Map<Seq<char>, SessionView>,
}

/// `m` addressed to `to`.
pub open spec fn send(to: Seq<char>, m: ServerMessageView) -> OutgoingView {
    OutgoingView { to, message: m }
}

/// Number of digits in a connection code.
pub const CODE_DIGITS: usize = 9;

/// Number of digits in a session password.
pub const PASSWORD_DIGITS: usize = 6;

/// `s` is made of exactly `n` decimal digits.
pub open spec fn is_digits(s: Seq<char>, n: nat) -> bool {
    &&& s.len() == n
    &&& forall|i: int| 0 <= i < s.len() ==> '0' <= #[trigger] s[i] <= '9'
}

/// `n` zeros, a string of digits of any length.
pub open spec fn all_zeros(n: nat) -> Seq<char> {
    Seq::new(n, |i: int| '0')
}

/// `n` zeros are `n` digits.
pub proof fn lemma_all_zeros_digits(n: nat)
    ensures
        is_digits(all_zeros(n), n),
{
}

/// A new connection joins as a controlling client with no peer.
pub open spec fn add_client(s: SignalingView, id: Seq<char>) -> SignalingView {
    SignalingView {
        clients: s.clients.insert(id, ClientView { role: ClientRole::Control, peer_id: None }),
        sessions: s.sessions,
    }
}

/// `id` registers as a host under `code` and `password`.
pub open spec fn register_host(
    s: SignalingView,
    id: Seq<char>,
    code: Seq<char>,
    password: Seq<char>,
) -> (SignalingView, Seq<OutgoingView>) {
    let clients = if s.clients.contains_key(id) {
        s.clients.insert(id, ClientView { role: ClientRole::Host, peer_id: s.clients[id].peer_id })
    } else {
        s.clients
    };
    let sessions = s.sessions.insert(
        code,
        SessionView { host_id: id, password, control_id: None },
    );
    (
        SignalingView { clients, sessions },
        seq![send(id, ServerMessageView::Registered { code, password, client_id: id })],
    )
}

/// The reply to a connection request with an unknown code.
pub open spec fn unknown_code_reply() -> ServerMessageView {
    ServerMessageView::ConnectResult { success: false, message: "Invalid connection code"@ }
}

/// The reply to a connection request with a wrong password.
pub open spec fn wrong_password_reply() -> ServerMessageView {
    ServerMessageView::ConnectResult { success: false, message: "Invalid password"@ }
}

/// The reply to a successful connection request.
pub open spec fn connected_reply() -> ServerMessageView {
    ServerMessageView::ConnectResult { success: true, message: "Connected successfully"@ }
}

/// `id` asks to join the session under `code` with `password`.
pub open spec fn connect(
    s: SignalingView,
    id: Seq<char>,
    code: Seq<char>,
    password: Seq<char>,
) -> (SignalingView, Seq<OutgoingView>) {
    if !s.sessions.contains_key(code) {
        (s, seq![send(id, unknown_code_reply())])
    } else if s.sessions[code].password != password {
        (s, seq![send(id, wrong_password_reply())])
    } else {
        let session = s.sessions[code];
        let host = session.host_id;
        let sessions = s.sessions.insert(
            code,
            SessionView { host_id: host, password: session.password, control_id: Some(id) },
        );
        let c1 = if s.clients.contains_key(id) {
            s.clients.insert(id, ClientView { role: ClientRole::Control, peer_id: Some(host) })
        } else {
            s.clients
        };
        let clients = if c1.contains_key(host) {
            c1.insert(host, ClientView { role: c1[host].role, peer_id: Some(id) })
        } else {
            c1
        };
        let notify = if c1.contains_key(host) {
            seq![send(host, ServerMessageView::PeerConnected { peer_id: id })]
        } else {
            Seq::empty()
        };
        (SignalingView { clients, sessions }, notify.push(send(id, connected_reply())))
    }
}

/// The messages that relay `m` from `id` to its peer: one if the peer is connected, none otherwise.
pub open spec fn forward(s: SignalingView, id: Seq<char>, m: ServerMessageView) -> Seq<OutgoingView> {
    if s.clients.contains_key(id) && s.clients[id].peer_id is Some && s.clients.contains_key(
        s.clients[id].peer_id->0,
    ) {
        seq![send(s.clients[id].peer_id->0, m)]
    } else {
        Seq::empty()
    }
}

/// The server message that relays a client's WebRTC message, or `None` for other requests.
pub open spec fn relayed(msg: ClientMessageView) -> Option<ServerMessageView> {
    match msg {
        ClientMessageView::Sdp { sdp, sdp_type } => Some(ServerMessageView::Sdp { sdp, sdp_type }),
        ClientMessageView::IceCandidate { candidate, sdp_mid, sdp_m_line_index } => Some(
            ServerMessageView::IceCandidate { candidate, sdp_mid, sdp_m_line_index },
        ),
        _ => None,
    }
}

/// One request from `id`; `code` and `password` are the fresh values a registration uses.
pub open spec fn step(
    s: SignalingView,
    id: Seq<char>,
    msg: ClientMessageView,
    code: Seq<char>,
    password: Seq<char>,
) -> (SignalingView, Seq<OutgoingView>) {
    match msg {
        ClientMessageView::RegisterHost => register_host(s, id, code, password),
        ClientMessageView::Connect { code: c, password: p } => connect(s, id, c, p),
        ClientMessageView::Sdp { sdp, sdp_type } => (
            s,
            forward(s, id, ServerMessageView::Sdp { sdp, sdp_type }),
        ),
        ClientMessageView::IceCandidate { candidate, sdp_mid, sdp_m_line_index } => (
            s,
            forward(
                s,
                id,
                ServerMessageView::IceCandidate { candidate, sdp_mid, sdp_m_line_index },
            ),
        ),
    }
}

/// The reply to a text frame that is not a valid request.
pub open spec fn malformed_reply(id: Seq<char>) -> Seq<OutgoingView> {
    seq![send(id, ServerMessageView::Error { message: "Invalid message format"@ })]
}

/// The session was not opened by `id`.
pub open spec fn not_hosted_by(id: Seq<char>) -> spec_fn(SessionView) -> bool {
    |x: SessionView| x.host_id != id
}

/// `id` disconnects: it leaves, the sessions it hosted close, and its peer is told.
pub open spec fn disconnect(s: SignalingView, id: Seq<char>) -> (SignalingView, Seq<OutgoingView>) {
    if !s.clients.contains_key(id) {
        (s, Seq::empty())
    } else {
        let c = s.clients[id];
        let rest = s.clients.remove(id);
        let sessions = if c.role == ClientRole::Host {
            map_retain(s.sessions, not_hosted_by(id))
        } else {
            s.sessions
        };
        match c.peer_id {
            Some(p) => if rest.contains_key(p) {
                (
                    SignalingView {
                        clients: rest.insert(p, ClientView { role: rest[p].role, peer_id: None }),
                        sessions,
                    },
                    seq![send(p, ServerMessageView::Error { message: "Peer disconnected"@ })],
                )
            } else {
                (SignalingView { clients: rest, sessions }, Seq::empty())
            },
            None => (SignalingView { clients: rest, sessions }, Seq::empty()),
        }
    }
}

} // verus!
