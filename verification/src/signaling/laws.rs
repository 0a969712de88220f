//! Properties of the signaling server that span several requests.
use vstd::prelude::*;

use crate::signaling::messages::{OutgoingView, ServerMessageView};
use crate::signaling::model::{
    add_client, connect, connected_reply, disconnect, is_digits, CODE_DIGITS, PASSWORD_DIGITS, forward, register_host, relayed, send, step,
    unknown_code_reply, wrong_password_reply, ClientRole, ClientView, SessionView, SignalingView,
};

verus! {

/// A registration opens a session under the code, owned by the host, with
/// the password, and tells the host both.
pub proof fn law_registration_opens_session(
    s: SignalingView,
    host: Seq<char>,
    code: Seq<char>,
    password: Seq<char>,
)
    ensures
        ({
            let (s1, out) = register_host(s, host, code, password);
            &&& s1.sessions.contains_key(code)
            &&& s1.sessions[code] == SessionView { host_id: host, password, control_id: None }
            &&& out == seq![send(host, ServerMessageView::Registered { code, password, client_id: host })]
            &&& s.clients.contains_key(host) ==> s1.clients[host].role == ClientRole::Host
        }),
{
}

/// A controller that presents the code and password a host registered with
/// is paired with that host: the host is told, the controller is answered
/// with success, and each records the other as its peer.
pub proof fn law_register_then_connect_pairs(
    s: SignalingView,
    host: Seq<char>,
    controller: Seq<char>,
    code: Seq<char>,
    password: Seq<char>,
)
    requires
        s.clients.contains_key(host),
        s.clients.contains_key(controller),
    ensures
        ({
            let (s1, _) = register_host(s, host, code, password);
            let (s2, out) = connect(s1, controller, code, password);
            &&& out == seq![
                send(host, ServerMessageView::PeerConnected { peer_id: controller }),
                send(controller, connected_reply()),
            ]
            &&& s2.clients[controller].peer_id == Some(host)
            &&& s2.clients[host].peer_id == Some(controller)
            &&& s2.sessions[code].control_id == Some(controller)
            &&& s2.sessions[code].host_id == host
        }),
{
    let (s1, _) = register_host(s, host, code, password);
    let (s2, out) = connect(s1, controller, code, password);
    assert(out =~= seq![
        send(host, ServerMessageView::PeerConnected { peer_id: controller }),
        send(controller, connected_reply()),
    ]);
}

/// A connection request with a wrong password changes nothing and is refused.
pub proof fn law_wrong_password_is_refused(
    s: SignalingView,
    id: Seq<char>,
    code: Seq<char>,
    password: Seq<char>,
)
    requires
        s.sessions.contains_key(code),
        s.sessions[code].password != password,
    ensures
        connect(s, id, code, password) == (s, seq![send(id, wrong_password_reply())]),
{
}

/// A connection request with an unknown code changes nothing and is refused.
pub proof fn law_unknown_code_is_refused(
    s: SignalingView,
    id: Seq<char>,
    code: Seq<char>,
    password: Seq<char>,
)
    requires
        !s.sessions.contains_key(code),
    ensures
        connect(s, id, code, password) == (s, seq![send(id, unknown_code_reply())]),
{
}

/// Once paired, each side's WebRTC messages reach exactly the other side.
pub proof fn law_paired_clients_relay_to_each_other(
    s: SignalingView,
    host: Seq<char>,
    controller: Seq<char>,
    code: Seq<char>,
    password: Seq<char>,
    m: ServerMessageView,
)
    requires
        s.clients.contains_key(host),
        s.clients.contains_key(controller),
    ensures
        ({
            let (s1, _) = register_host(s, host, code, password);
            let (s2, _) = connect(s1, controller, code, password);
            &&& forward(s2, controller, m) == seq![send(host, m)]
            &&& forward(s2, host, m) == seq![send(controller, m)]
        }),
{
    law_register_then_connect_pairs(s, host, controller, code, password);
}

/// Relaying never changes the state, and a client without a connected peer
/// relays nothing.
pub proof fn law_relay_needs_a_peer(
    s: SignalingView,
    id: Seq<char>,
    msg: crate::signaling::messages::ClientMessageView,
    code: Seq<char>,
    password: Seq<char>,
)
    requires
        relayed(msg) is Some,
    ensures
        step(s, id, msg, code, password).0 == s,
        step(s, id, msg, code, password).1 == forward(s, id, relayed(msg)->0),
        !s.clients.contains_key(id) || s.clients[id].peer_id is None ==> step(
            s,
            id,
            msg,
            code,
            password,
        ).1 == Seq::<OutgoingView>::empty(),
{
}

/// A host that disconnects leaves, and no session it hosted remains; the
/// sessions of other hosts stay as they were.
pub proof fn law_host_disconnect_closes_its_sessions(s: SignalingView, id: Seq<char>, code: Seq<char>)
    requires
        s.clients.contains_key(id),
        s.clients[id].role == ClientRole::Host,
    ensures
        ({
            let s1 = disconnect(s, id).0;
            &&& !s1.clients.contains_key(id)
            &&& s1.sessions.contains_key(code) ==> s1.sessions[code].host_id != id
            &&& s.sessions.contains_key(code) && s.sessions[code].host_id != id ==> s1.sessions.contains_key(code)
                && s1.sessions[code] == s.sessions[code]
        }),
{
}

/// A client that disconnects unpairs its connected peer and tells it.
pub proof fn law_disconnect_notifies_peer(s: SignalingView, id: Seq<char>)
    requires
        s.clients.contains_key(id),
        s.clients[id].peer_id is Some,
        s.clients[id].peer_id->0 != id,
        s.clients.contains_key(s.clients[id].peer_id->0),
    ensures
        ({
            let p = s.clients[id].peer_id->0;
            let (s1, out) = disconnect(s, id);
            &&& out == seq![send(p, ServerMessageView::Error { message: "Peer disconnected"@ })]
            &&& s1.clients.contains_key(p)
            &&& s1.clients[p].peer_id is None
            &&& s1.clients[p].role == s.clients[p].role
            &&& !s1.clients.contains_key(id)
        }),
{
}

/// Disconnecting a client that is not connected changes nothing and sends nothing.
pub proof fn law_disconnect_unknown_is_noop(s: SignalingView, id: Seq<char>)
    requires
        !s.clients.contains_key(id),
    ensures
        disconnect(s, id) == (s, Seq::<OutgoingView>::empty()),
{
}

/// Every open session has a nine-digit code and a six-digit password.
pub open spec fn sessions_have_digit_codes(s: SignalingView) -> bool {
    forall|c: Seq<char>|
        #[trigger] s.sessions.contains_key(c) ==> is_digits(c, CODE_DIGITS as nat) && is_digits(
            s.sessions[c].password,
            PASSWORD_DIGITS as nat,
        )
}

/// Sessions opened through requests, whose codes and passwords are drawn as
/// digits, keep digit codes and passwords through every event.
pub proof fn law_digit_codes_preserved(
    s: SignalingView,
    id: Seq<char>,
    msg: crate::signaling::messages::ClientMessageView,
    code: Seq<char>,
    password: Seq<char>,
)
    requires
        sessions_have_digit_codes(s),
        is_digits(code, CODE_DIGITS as nat),
        is_digits(password, PASSWORD_DIGITS as nat),
    ensures
        sessions_have_digit_codes(step(s, id, msg, code, password).0),
        sessions_have_digit_codes(add_client(s, id)),
        sessions_have_digit_codes(disconnect(s, id).0),
{
}

/// Joining is decided by the code and the password alone: whenever a session
/// exists under the code with that password, whatever controller it had
/// before, the requester is answered with success and becomes the session's
/// controller and the host's peer, the host (when connected) is told, and
/// nothing else changes.
pub proof fn law_connect_accepts_matching_password(
    s: SignalingView,
    id: Seq<char>,
    code: Seq<char>,
    password: Seq<char>,
)
    requires
        s.sessions.contains_key(code),
        s.sessions[code].password == password,
    ensures
        ({
            let host = s.sessions[code].host_id;
            let (s1, out) = connect(s, id, code, password);
            &&& out.len() >= 1
            &&& out.last() == send(id, connected_reply())
            &&& s1.sessions.contains_key(code)
            &&& s1.sessions[code] == SessionView { host_id: host, password, control_id: Some(id) }
            &&& forall|other: Seq<char>|
                other != code ==> #[trigger] s1.sessions.contains_key(other) == s.sessions.contains_key(other)
                    && (s.sessions.contains_key(other) ==> s1.sessions[other] == s.sessions[other])
            &&& s.clients.contains_key(host) ==> {
                &&& out == seq![send(host, ServerMessageView::PeerConnected { peer_id: id }), send(id, connected_reply())]
                &&& s1.clients[host].peer_id == Some(id)
                &&& s1.clients[host].role == (if host == id { ClientRole::Control } else { s.clients[host].role })
            }
            &&& !s.clients.contains_key(host) ==> out == seq![send(id, connected_reply())]
            &&& s.clients.contains_key(id) && id != host ==> s1.clients[id] == ClientView {
                role: ClientRole::Control,
                peer_id: Some(host),
            }
            &&& forall|other: Seq<char>|
                other != id && other != host ==> #[trigger] s1.clients.contains_key(other)
                    == s.clients.contains_key(other) && (s.clients.contains_key(other)
                    ==> s1.clients[other] == s.clients[other])
            &&& s1.clients.dom() == s.clients.dom()
        }),
{
    let host = s.sessions[code].host_id;
    let (s1, out) = connect(s, id, code, password);
    if s.clients.contains_key(host) {
        assert(out =~= seq![send(host, ServerMessageView::PeerConnected { peer_id: id }), send(id, connected_reply())]);
    } else {
        assert(out =~= seq![send(id, connected_reply())]);
    }
    assert(s1.clients.dom() =~= s.clients.dom());
}

/// A controller can join a session again after its earlier controller left:
/// a disconnect never makes a session refuse a matching password.
pub proof fn law_rejoin_after_controller_leaves(
    s: SignalingView,
    first: Seq<char>,
    second: Seq<char>,
    code: Seq<char>,
    password: Seq<char>,
)
    requires
        s.sessions.contains_key(code),
        s.sessions[code].password == password,
        first != s.sessions[code].host_id,
    ensures
        ({
            let s1 = connect(s, first, code, password).0;
            let s2 = disconnect(s1, first).0;
            let (s3, out) = connect(s2, second, code, password);
            &&& out.last() == send(second, connected_reply())
            &&& s3.sessions[code].control_id == Some(second)
        }),
{
    let s1 = connect(s, first, code, password).0;
    law_connect_accepts_matching_password(s, first, code, password);
    let s2 = disconnect(s1, first).0;
    assert(s2.sessions.contains_key(code) && s2.sessions[code].password == password) by {
        if s1.clients.contains_key(first) && s1.clients[first].role == ClientRole::Host {
            assert(s1.sessions[code].host_id != first);
        }
    }
    law_connect_accepts_matching_password(s2, second, code, password);
}

/// A registration touches only the session under its own code: every session
/// under another code stays present and unchanged; only the registering
/// client's role changes, to host.
pub proof fn law_registration_keeps_other_sessions(
    s: SignalingView,
    id: Seq<char>,
    code: Seq<char>,
    password: Seq<char>,
)
    ensures
        ({
            let s1 = register_host(s, id, code, password).0;
            &&& forall|other: Seq<char>|
                other != code ==> #[trigger] s1.sessions.contains_key(other) == s.sessions.contains_key(other)
                    && (s.sessions.contains_key(other) ==> s1.sessions[other] == s.sessions[other])
            &&& s1.clients.dom() == s.clients.dom()
            &&& forall|other: Seq<char>|
                other != id && #[trigger] s.clients.contains_key(other) ==> s1.clients[other] == s.clients[other]
            &&& s.clients.contains_key(id) ==> s1.clients[id] == ClientView {
                role: ClientRole::Host,
                peer_id: s.clients[id].peer_id,
            }
        }),
{
    let s1 = register_host(s, id, code, password).0;
    assert(s1.clients.dom() =~= s.clients.dom());
}

/// Two hosts registering under different codes both keep their sessions:
/// a controller presenting the first host's code and password is paired
/// with the first host.
pub proof fn law_second_registration_keeps_first(
    s: SignalingView,
    h1: Seq<char>,
    h2: Seq<char>,
    c: Seq<char>,
    code1: Seq<char>,
    pw1: Seq<char>,
    code2: Seq<char>,
    pw2: Seq<char>,
)
    requires
        code1 != code2,
    ensures
        ({
            let s1 = register_host(s, h1, code1, pw1).0;
            let s2 = register_host(s1, h2, code2, pw2).0;
            let (s3, out) = connect(s2, c, code1, pw1);
            &&& out.last() == send(c, connected_reply())
            &&& s3.sessions[code1].host_id == h1
            &&& s3.sessions[code1].control_id == Some(c)
            &&& s3.sessions[code2] == s2.sessions[code2]
        }),
{
    let s1 = register_host(s, h1, code1, pw1).0;
    let s2 = register_host(s1, h2, code2, pw2).0;
    law_registration_keeps_other_sessions(s1, h2, code2, pw2);
    law_connect_accepts_matching_password(s2, c, code1, pw1);
}

/// A new connection is a controller with no peer; everything else stays.
pub proof fn law_new_client_is_unpaired_controller(s: SignalingView, id: Seq<char>)
    ensures
        add_client(s, id).clients[id] == (ClientView { role: ClientRole::Control, peer_id: None }),
        add_client(s, id).sessions == s.sessions,
        forall|other: Seq<char>|
            other != id ==> #[trigger] add_client(s, id).clients.contains_key(other) == s.clients.contains_key(other)
                && (s.clients.contains_key(other) ==> add_client(s, id).clients[other] == s.clients[other]),
{
}

/// Relaying sends the message, unchanged, to the sender's peer exactly when
/// the sender is connected and its peer is too; otherwise nothing is sent.
pub proof fn law_forward_reaches_peer(s: SignalingView, id: Seq<char>, m: ServerMessageView)
    ensures
        (s.clients.contains_key(id) && s.clients[id].peer_id is Some && s.clients.contains_key(
            s.clients[id].peer_id->0,
        )) ==> forward(s, id, m) == seq![send(s.clients[id].peer_id->0, m)],
        !(s.clients.contains_key(id) && s.clients[id].peer_id is Some && s.clients.contains_key(
            s.clients[id].peer_id->0,
        )) ==> forward(s, id, m).len() == 0,
{
}

/// A disconnect removes only the leaving client and, when it is the peer of
/// the leaving client, unpairs that peer; sessions go only when a host leaves,
/// and then exactly those it hosted.
pub proof fn law_disconnect_frame(s: SignalingView, id: Seq<char>)
    requires
        s.clients.contains_key(id),
    ensures
        ({
            let s1 = disconnect(s, id).0;
            let peer = s.clients[id].peer_id;
            &&& !s1.clients.contains_key(id)
            &&& forall|other: Seq<char>|
                other != id ==> #[trigger] s1.clients.contains_key(other) == s.clients.contains_key(other)
            &&& forall|other: Seq<char>|
                other != id && #[trigger] s.clients.contains_key(other) && peer != Some(other)
                    ==> s1.clients[other] == s.clients[other]
            &&& forall|code: Seq<char>|
                #[trigger] s1.sessions.contains_key(code) == (s.sessions.contains_key(code) && !(
                s.clients[id].role == ClientRole::Host && s.sessions[code].host_id == id))
            &&& forall|code: Seq<char>|
                #[trigger] s1.sessions.contains_key(code) ==> s1.sessions[code] == s.sessions[code]
        }),
{
}

} // verus!
