//! The signaling server's state, with the operations that a connection's events trigger.
use vstd::prelude::*;
use vstd::string::*;

use crate::signaling::messages::{
    clone_opt, opt_view, outs, ClientMessage, ClientMessageView, Outgoing, ServerMessage,
};
use crate::signaling::model;
use crate::signaling::model::{ClientRole, ClientView, SessionView, SignalingView};
use crate::signaling::random::{new_client_id, random_digits};
use crate::strmap::StrMap;
use crate::text::str_equal;

verus! {

/// A connected client.
#[derive(Debug, Clone, PartialEq, Eq)]
pub struct Client {
    pub role: ClientRole,
    /// The id of the client it is paired with, if any.
    pub peer_id: Option<String>,
}

impl View for Client {
    type V = ClientView;

    open spec fn view(&self) -> ClientView {
        ClientView { role: self.role, peer_id: opt_view(self.peer_id) }
    }
}

impl Client {
    /// A copy of this client record.
    pub fn duplicate(&self) -> (r: Client)
        ensures
            r@ == self@,
    {
        Client { role: self.role, peer_id: clone_opt(&self.peer_id) }
    }
}

/// A session opened by a host.
#[derive(Debug, Clone, PartialEq, Eq)]
pub struct Session {
    pub host_id: String,
    pub password: String,
    pub control_id: Option<String>,
}

impl View for Session {
    type V = SessionView;

    open spec fn view(&self) -> SessionView {
        SessionView {
            host_id: self.host_id@,
            password: self.password@,
            control_id: opt_view(self.control_id),
        }
    }
}

impl Session {
    /// A copy of this session record.
    pub fn duplicate(&self) -> (r: Session)
        ensures
            r@ == self@,
    {
        Session {
            host_id: self.host_id.clone(),
            password: self.password.clone(),
            control_id: clone_opt(&self.control_id),
        }
    }
}

/// The server state: clients by id and sessions by connection code.
pub struct SignalingState {
    clients: StrMap<Client>,
    sessions: StrMap<Session>,
}

impl View for SignalingState {
    type V = SignalingView;

    closed spec fn view(&self) -> SignalingView {
        SignalingView { clients: self.clients@, sessions: self.sessions@ }
    }
}

/// `m` addressed to `to`.
fn send_to(to: &str, m: ServerMessage) -> (r: Outgoing)
    ensures
        r@ == model::send(to@, m@),
{
    Outgoing { to: String::from_str(to), message: m }
}

impl SignalingState {
    /// Well-formedness of the two tables.
    pub closed spec fn wf(&self) -> bool {
        self.clients.wf() && self.sessions.wf()
    }

    /// A server with no clients and no sessions.
    pub fn new() -> (r: Self)
        ensures
            r.wf(),
            r@.clients == Map::<Seq<char>, ClientView>::empty(),
            r@.sessions == Map::<Seq<char>, SessionView>::empty(),
    {
        SignalingState { clients: StrMap::new(), sessions: StrMap::new() }
    }

    /// The record of client `id`, if it is connected.
    pub fn client(&self, id: &str) -> (r: Option<Client>)
        requires
            self.wf(),
        ensures
            match r {
                Some(c) => self@.clients.contains_key(id@) && c@ == self@.clients[id@],
                None => !self@.clients.contains_key(id@),
            },
    {
        match self.clients.get(id) {
            Some(c) => Some(c.duplicate()),
            None => None,
        }
    }

    /// The session under connection code `code`, if any.
    pub fn session(&self, code: &str) -> (r: Option<Session>)
        requires
            self.wf(),
        ensures
            match r {
                Some(x) => self@.sessions.contains_key(code@) && x@ == self@.sessions[code@],
                None => !self@.sessions.contains_key(code@),
            },
    {
        match self.sessions.get(code) {
            Some(x) => Some(x.duplicate()),
            None => None,
        }
    }

    /// A new connection with id `id` joins as a controlling client with no peer.
    pub fn add_client(&mut self, id: String)
        requires
            old(self).wf(),
        ensures
            final(self).wf(),
            final(self)@ == model::add_client(old(self)@, id@),
    {
        self.clients.insert(id, Client { role: ClientRole::Control, peer_id: None });
    }

    /// A new connection arrives: it gets a fresh random id and joins as a
    /// controlling client. Returns the id.
    pub fn open_connection(&mut self) -> (id: String)
        requires
            old(self).wf(),
        ensures
            final(self).wf(),
            final(self)@ == model::add_client(old(self)@, id@),
            crate::signaling::random::is_uuid_text(id@),
    {
        let id = new_client_id();
        self.add_client(id.clone());
        id
    }

    /// Client `id` registers as a host under `code` and `password`.
    pub fn register_host(&mut self, id: &str, code: String, password: String) -> (out: Vec<Outgoing>)
        requires
            old(self).wf(),
        ensures
            final(self).wf(),
            (final(self)@, outs(out@)) == model::register_host(old(self)@, id@, code@, password@),
    {
        let ghost s0 = self@;
        match self.clients.get(id) {
            Some(c) => {
                let updated = Client { role: ClientRole::Host, peer_id: clone_opt(&c.peer_id) };
                self.clients.insert(String::from_str(id), updated);
            },
            None => {},
        }
        let reply = ServerMessage::Registered {
            code: code.clone(),
            password: password.clone(),
            client_id: String::from_str(id),
        };
        self.sessions.insert(
            code,
            Session { host_id: String::from_str(id), password, control_id: None },
        );
        let out = vec![send_to(id, reply)];
        proof {
            let m = model::register_host(s0, id@, code@, password@);
            assert(outs(out@) =~= m.1);
            assert(self@.clients =~= m.0.clients);
            assert(self@.sessions =~= m.0.sessions);
        }
        out
    }

    /// Client `id` asks to join the session under `code` with `password`.
    pub fn connect(&mut self, id: &str, code: &str, password: &str) -> (out: Vec<Outgoing>)
        requires
            old(self).wf(),
        ensures
            final(self).wf(),
            (final(self)@, outs(out@)) == model::connect(old(self)@, id@, code@, password@),
    {
        let ghost s0 = self@;
        let session = match self.sessions.get(code) {
            Some(x) => x.duplicate(),
            None => {
                let out = vec![
                    send_to(
                        id,
                        ServerMessage::ConnectResult {
                            success: false,
                            message: String::from_str("Invalid connection code"),
                        },
                    ),
                ];
                assert(outs(out@) =~= model::connect(s0, id@, code@, password@).1);
                return out;
            },
        };
        if !str_equal(session.password.as_str(), password) {
            let out = vec![
                send_to(
                    id,
                    ServerMessage::ConnectResult {
                        success: false,
                        message: String::from_str("Invalid password"),
                    },
                ),
            ];
            assert(outs(out@) =~= model::connect(s0, id@, code@, password@).1);
            return out;
        }
        let host_id = session.host_id.clone();
        self.sessions.insert(
            String::from_str(code),
            Session {
                host_id: session.host_id,
                password: session.password,
                control_id: Some(String::from_str(id)),
            },
        );
        if self.clients.contains_key(id) {
            self.clients.insert(
                String::from_str(id),
                Client { role: ClientRole::Control, peer_id: Some(host_id.clone()) },
            );
        }
        let ghost c1 = self@.clients;
        let mut out: Vec<Outgoing> = Vec::new();
        match self.clients.get(host_id.as_str()) {
            Some(h) => {
                let updated = Client { role: h.role, peer_id: Some(String::from_str(id)) };
                self.clients.insert(host_id.clone(), updated);
                out.push(
                    send_to(
                        host_id.as_str(),
                        ServerMessage::PeerConnected { peer_id: String::from_str(id) },
                    ),
                );
            },
            None => {},
        }
        out.push(
            send_to(
                id,
                ServerMessage::ConnectResult {
                    success: true,
                    message: String::from_str("Connected successfully"),
                },
            ),
        );
        proof {
            let m = model::connect(s0, id@, code@, password@);
            assert(outs(out@) =~= m.1);
            assert(self@.clients =~= m.0.clients);
            assert(self@.sessions =~= m.0.sessions);
        }
        out
    }

    /// Relays `m` from client `id` to its peer, if it has a connected one.
    pub fn forward_to_peer(&self, id: &str, m: ServerMessage) -> (out: Vec<Outgoing>)
        requires
            self.wf(),
        ensures
            outs(out@) == model::forward(self@, id@, m@),
    {
        let mut out: Vec<Outgoing> = Vec::new();
        match self.clients.get(id) {
            Some(c) => match &c.peer_id {
                Some(p) => {
                    if self.clients.contains_key(p.as_str()) {
                        out.push(send_to(p.as_str(), m));
                    }
                },
                None => {},
            },
            None => {},
        }
        assert(outs(out@) =~= model::forward(self@, id@, m@));
        out
    }

    /// Handles one request from client `id`. A registration draws a fresh
    /// nine-digit code and six-digit password at random.
    pub fn handle_client_message(&mut self, id: &str, msg: ClientMessage) -> (out: Vec<Outgoing>)
        requires
            old(self).wf(),
        ensures
            final(self).wf(),
            exists|code: Seq<char>, password: Seq<char>|
                model::is_digits(code, model::CODE_DIGITS as nat) && model::is_digits(
                    password,
                    model::PASSWORD_DIGITS as nat,
                ) && (final(self)@, outs(out@)) == #[trigger] model::step(
                    old(self)@,
                    id@,
                    msg@,
                    code,
                    password,
                ),
    {
        let ghost s0 = self@;
        let ghost mv = msg@;
        let ghost mut code_drawn = model::all_zeros(model::CODE_DIGITS as nat);
        let ghost mut password_drawn = model::all_zeros(model::PASSWORD_DIGITS as nat);
        proof {
            model::lemma_all_zeros_digits(model::CODE_DIGITS as nat);
            model::lemma_all_zeros_digits(model::PASSWORD_DIGITS as nat);
        }
        let out = match msg {
            ClientMessage::RegisterHost => {
                let code = random_digits(model::CODE_DIGITS);
                let password = random_digits(model::PASSWORD_DIGITS);
                proof {
                    code_drawn = code@;
                    password_drawn = password@;
                }
                self.register_host(id, code, password)
            },
            ClientMessage::Connect { code, password } => self.connect(
                id,
                code.as_str(),
                password.as_str(),
            ),
            ClientMessage::Sdp { sdp, sdp_type } => self.forward_to_peer(
                id,
                ServerMessage::Sdp { sdp, sdp_type },
            ),
            ClientMessage::IceCandidate { candidate, sdp_mid, sdp_m_line_index } =>
                self.forward_to_peer(
                id,
                ServerMessage::IceCandidate { candidate, sdp_mid, sdp_m_line_index },
            ),
        };
        assert((self@, outs(out@)) == model::step(s0, id@, mv, code_drawn, password_drawn));
        out
    }

    /// Handles one text frame from client `id`: `parsed` is the request it
    /// held, or `None` when it was not a valid request.
    pub fn handle_text_frame(&mut self, id: &str, parsed: Option<ClientMessage>) -> (out: Vec<
        Outgoing,
    >)
        requires
            old(self).wf(),
        ensures
            final(self).wf(),
            match parsed {
                Some(msg) => exists|code: Seq<char>, password: Seq<char>|
                    model::is_digits(code, model::CODE_DIGITS as nat) && model::is_digits(
                        password,
                        model::PASSWORD_DIGITS as nat,
                    ) && (final(self)@, outs(out@)) == #[trigger] model::step(
                        old(self)@,
                        id@,
                        msg@,
                        code,
                        password,
                    ),
                None => final(self)@ == old(self)@ && outs(out@) == model::malformed_reply(id@),
            },
    {
        match parsed {
            Some(msg) => self.handle_client_message(id, msg),
            None => {
                let out = vec![
                    send_to(
                        id,
                        ServerMessage::Error { message: String::from_str("Invalid message format") },
                    ),
                ];
                assert(outs(out@) =~= model::malformed_reply(id@));
                out
            },
        }
    }

    /// Client `id` disconnects: it leaves, the sessions it hosted close, and
    /// its peer is unpaired and told.
    pub fn cleanup_client(&mut self, id: &str) -> (out: Vec<Outgoing>)
        requires
            old(self).wf(),
        ensures
            final(self).wf(),
            (final(self)@, outs(out@)) == model::disconnect(old(self)@, id@),
    {
        let ghost s0 = self@;
        let removed = self.clients.remove(id);
        let mut out: Vec<Outgoing> = Vec::new();
        match removed {
            None => {
                assert(outs(out@) =~= model::disconnect(s0, id@).1);
                assert(self@.clients =~= s0.clients);
                return out;
            },
            Some(c) => {
                if c.role == ClientRole::Host {
                    let keep = |x: &Session| -> (b: bool)
                        ensures
                            b == (x.host_id@ != id@),
                        { !str_equal(x.host_id.as_str(), id) };
                    self.sessions.retain(keep, Ghost(model::not_hosted_by(id@)));
                }
                match c.peer_id {
                    Some(p) => {
                        match self.clients.get(p.as_str()) {
                            Some(peer) => {
                                let updated = Client { role: peer.role, peer_id: None };
                                self.clients.insert(p.clone(), updated);
                                out.push(
                                    send_to(
                                        p.as_str(),
                                        ServerMessage::Error {
                                            message: String::from_str("Peer disconnected"),
                                        },
                                    ),
                                );
                            },
                            None => {},
                        }
                    },
                    None => {},
                }
            },
        }
        proof {
            let m = model::disconnect(s0, id@);
            assert(outs(out@) =~= m.1);
            assert(self@.clients =~= m.0.clients);
            assert(self@.sessions =~= m.0.sessions);
        }
        out
    }
}

} // verus!
