//! Messages exchanged between the signaling server and its clients.
use vstd::prelude::*;

verus! {

/// The optional string `o`, taken by its characters.
pub open spec fn opt_view(o: Option<String>) -> Option<Seq<char>> {
    match o {
        Some(s) => Some(s@),
        None => None,
    }
}

/// Copies an optional string.
pub fn clone_opt(o: &Option<String>) -> (r: Option<String>)
    ensures
        opt_view(r) == opt_view(*o),
{
    match o {
        Some(s) => Some(s.clone()),
        None => None,
    }
}

/// A request a client sends to the server.
#[derive(Debug, Clone, PartialEq, Eq)]
pub enum ClientMessage {
    /// The controlled side asks for a connection code and a password.
    RegisterHost,
    /// The controlling side asks to join the session with this code.
    Connect { code: String, password: String },
    /// A WebRTC session description for the peer.
    Sdp { sdp: String, sdp_type: String },
    /// A WebRTC ICE candidate for the peer.
    IceCandidate { candidate: String, sdp_mid: Option<String>, sdp_m_line_index: Option<u16> },
}

/// A client request, with its strings taken by their characters.
pub enum ClientMessageView {
    RegisterHost,
    Connect { code: Seq<char>, password: Seq<char> },
    Sdp { sdp: Seq<char>, sdp_type: Seq<char> },
    IceCandidate { candidate: Seq<char>, sdp_mid: Option<Seq<char>>, sdp_m_line_index: Option<u16> },
}

impl View for ClientMessage {
    type V = ClientMessageView;

    open spec fn view(&self) -> ClientMessageView {
        match self {
            ClientMessage::RegisterHost => ClientMessageView::RegisterHost,
            ClientMessage::Connect { code, password } => ClientMessageView::Connect {
                code: code@,
                password: password@,
            },
            ClientMessage::Sdp { sdp, sdp_type } => ClientMessageView::Sdp {
                sdp: sdp@,
                sdp_type: sdp_type@,
            },
            ClientMessage::IceCandidate { candidate, sdp_mid, sdp_m_line_index } =>
                ClientMessageView::IceCandidate {
                candidate: candidate@,
                sdp_mid: opt_view(*sdp_mid),
                sdp_m_line_index: *sdp_m_line_index,
            },
        }
    }
}

/// A message the server sends to a client.
#[derive(Debug, Clone, PartialEq, Eq)]
pub enum ServerMessage {
    /// Registration succeeded: the code and password that open the session.
    Registered { code: String, password: String, client_id: String },
    /// The outcome of a connection request.
    ConnectResult { success: bool, message: String },
    /// A controlling client has joined the host's session.
    PeerConnected { peer_id: String },
    /// A session description relayed from the peer.
    Sdp { sdp: String, sdp_type: String },
    /// An ICE candidate relayed from the peer.
    IceCandidate { candidate: String, sdp_mid: Option<String>, sdp_m_line_index: Option<u16> },
    /// Something went wrong.
    Error { message: String },
}

/// A server message, with its strings taken by their characters.
pub enum ServerMessageView {
    Registered { code: Seq<char>, password: Seq<char>, client_id: Seq<char> },
    ConnectResult { success: bool, message: Seq<char> },
    PeerConnected { peer_id: Seq<char> },
    Sdp { sdp: Seq<char>, sdp_type: Seq<char> },
    IceCandidate { candidate: Seq<char>, sdp_mid: Option<Seq<char>>, sdp_m_line_index: Option<u16> },
    Error { message: Seq<char> },
}

impl View for ServerMessage {
    type V = ServerMessageView;

    open spec fn view(&self) -> ServerMessageView {
        match self {
            ServerMessage::Registered { code, password, client_id } =>
                ServerMessageView::Registered {
                code: code@,
                password: password@,
                client_id: client_id@,
            },
            ServerMessage::ConnectResult { success, message } =>
                ServerMessageView::ConnectResult { success: *success, message: message@ },
            ServerMessage::PeerConnected { peer_id } => ServerMessageView::PeerConnected {
                peer_id: peer_id@,
            },
            ServerMessage::Sdp { sdp, sdp_type } => ServerMessageView::Sdp {
                sdp: sdp@,
                sdp_type: sdp_type@,
            },
            ServerMessage::IceCandidate { candidate, sdp_mid, sdp_m_line_index } =>
                ServerMessageView::IceCandidate {
                candidate: candidate@,
                sdp_mid: opt_view(*sdp_mid),
                sdp_m_line_index: *sdp_m_line_index,
            },
            ServerMessage::Error { message } => ServerMessageView::Error { message: message@ },
        }
    }
}

/// A server message addressed to the client with id `to`.
#[derive(Debug, Clone, PartialEq, Eq)]
pub struct Outgoing {
    pub to: String,
    pub message: ServerMessage,
}

/// An addressed server message, taken by its characters.
pub struct OutgoingView {
    pub to: Seq<char>,
    pub message: ServerMessageView,
}

impl View for Outgoing {
    type V = OutgoingView;

    open spec fn view(&self) -> OutgoingView {
        OutgoingView { to: self.to@, message: self.message@ }
    }
}

/// The messages of `v`, each taken by its view.
pub open spec fn outs(v: Seq<Outgoing>) -> Seq<OutgoingView> {
    v.map_values(|o: Outgoing| o@)
}

} // verus!
