use vstd::prelude::*;

verus! {

/// Abstract content of one signaling message: each payload as character
/// sequences.
pub enum MessageView {
    Register(Seq<char>),
    RegisterSuccess,
    DisconnectUser(Seq<char>),
    GetActiveUsersList(Seq<char>),
    ActiveUsersList(Seq<Seq<char>>),
    SendFile(Seq<char>),
    ReceiveFile(Seq<char>),
    ErrorDeserializingJson(Seq<char>),
}

/// The signaling vocabulary exchanged with the relay.
#[derive(Debug, Clone, PartialEq, Eq)]
pub enum WebSocketMessage {
    /// client to relay: announce presence under a display name
    Register { nickname: String },
    /// relay to client: registration acknowledged
    RegisterSuccess,
    /// client to relay: graceful leave
    DisconnectUser(String),
    /// client to relay: ask for the current roster
    GetActiveUsersList(String),
    /// relay to client: the full roster
    ActiveUsersList(Vec<String>),
    /// client to relay to peer: announce an available object by its ticket
    SendFile(String),
    /// relay to client: an object is offered by its ticket
    ReceiveFile(String),
    /// relay to client: the relay could not decode a frame
    ErrorDeserializingJson(String),
}

/// The character content of each string of a list.
pub open spec fn strings_view(v: Seq<String>) -> Seq<Seq<char>> {
    v.map_values(|s: String| s@)
}

impl View for WebSocketMessage {
    type V = MessageView;

    open spec fn view(&self) -> MessageView {
        match self {
            WebSocketMessage::Register { nickname } => MessageView::Register(nickname@),
            WebSocketMessage::RegisterSuccess => MessageView::RegisterSuccess,
            WebSocketMessage::DisconnectUser(n) => MessageView::DisconnectUser(n@),
            WebSocketMessage::GetActiveUsersList(n) => MessageView::GetActiveUsersList(n@),
            WebSocketMessage::ActiveUsersList(l) => MessageView::ActiveUsersList(strings_view(l@)),
            WebSocketMessage::SendFile(t) => MessageView::SendFile(t@),
            WebSocketMessage::ReceiveFile(t) => MessageView::ReceiveFile(t@),
            WebSocketMessage::ErrorDeserializingJson(e) => MessageView::ErrorDeserializingJson(e@),
        }
    }
}

} // verus!
