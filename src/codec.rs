use vstd::prelude::*;

use crate::message::{strings_view, MessageView, WebSocketMessage};

verus! {

/// One named text member of an object payload.
#[derive(Debug, Clone, PartialEq, Eq)]
pub struct Field {
    pub name: String,
    pub value: String,
}

/// The structural shape of a frame's payload.
#[derive(Debug, Clone, PartialEq, Eq)]
pub enum Payload {
    /// no payload member
    Absent,
    /// a single string
    Text(String),
    /// a sequence of strings
    TextList(Vec<String>),
    /// an object whose members are all strings, in their order of appearance
    Fields(Vec<Field>),
    /// any other shape
    Other,
}

/// A frame on the signaling channel: a tag naming the message kind, and its
/// payload.
#[derive(Debug, Clone, PartialEq, Eq)]
pub struct Frame {
    pub tag: String,
    pub payload: Payload,
}

pub enum PayloadView {
    Absent,
    Text(Seq<char>),
    TextList(Seq<Seq<char>>),
    Fields(Seq<(Seq<char>, Seq<char>)>),
    Other,
}

pub struct FrameView {
    pub tag: Seq<char>,
    pub payload: PayloadView,
}

/// Why a frame is not a message.
#[derive(Debug, Clone, PartialEq, Eq)]
pub enum DecodeError {
    /// the frame text is not well-formed at all
    Syntax(String),
    /// the tag names no known message
    UnknownTag(String),
    /// the tag is known but the payload has the wrong shape
    BadPayload(String),
}

pub open spec fn fields_view(fs: Seq<Field>) -> Seq<(Seq<char>, Seq<char>)> {
    fs.map_values(|f: Field| (f.name@, f.value@))
}

impl View for Payload {
    type V = PayloadView;

    open spec fn view(&self) -> PayloadView {
        match self {
            Payload::Absent => PayloadView::Absent,
            Payload::Text(s) => PayloadView::Text(s@),
            Payload::TextList(l) => PayloadView::TextList(strings_view(l@)),
            Payload::Fields(fs) => PayloadView::Fields(fields_view(fs@)),
            Payload::Other => PayloadView::Other,
        }
    }
}

impl View for Frame {
    type V = FrameView;

    open spec fn view(&self) -> FrameView {
        FrameView { tag: self.tag@, payload: self.payload@ }
    }
}

/// The tag under which each message kind travels.
pub open spec fn tag_of(m: MessageView) -> Seq<char> {
    match m {
        MessageView::Register(_) => "register"@,
        MessageView::RegisterSuccess => "register_success"@,
        MessageView::DisconnectUser(_) => "disconnect_user"@,
        MessageView::GetActiveUsersList(_) => "get_active_users_list"@,
        MessageView::ActiveUsersList(_) => "active_users_list"@,
        MessageView::SendFile(_) => "send_file"@,
        MessageView::ReceiveFile(_) => "receive_file"@,
        MessageView::ErrorDeserializingJson(_) => "error_deserializing_json"@,
    }
}

pub open spec fn is_known_tag(t: Seq<char>) -> bool {
    ||| t == "register"@
    ||| t == "register_success"@
    ||| t == "disconnect_user"@
    ||| t == "get_active_users_list"@
    ||| t == "active_users_list"@
    ||| t == "send_file"@
    ||| t == "receive_file"@
    ||| t == "error_deserializing_json"@
}

/// The payload that carries each message's content.
pub open spec fn payload_of(m: MessageView) -> PayloadView {
    match m {
        MessageView::Register(n) => PayloadView::Fields(seq![("nickname"@, n)]),
        MessageView::RegisterSuccess => PayloadView::Absent,
        MessageView::DisconnectUser(n) => PayloadView::Text(n),
        MessageView::GetActiveUsersList(n) => PayloadView::Text(n),
        MessageView::ActiveUsersList(l) => PayloadView::TextList(l),
        MessageView::SendFile(t) => PayloadView::Text(t),
        MessageView::ReceiveFile(t) => PayloadView::Text(t),
        MessageView::ErrorDeserializingJson(e) => PayloadView::Text(e),
    }
}

pub open spec fn encode_spec(m: MessageView) -> FrameView {
    FrameView { tag: tag_of(m), payload: payload_of(m) }
}

/// The value of the first member named `key`; later members of that name,
/// and members of other names, are ignored.
pub open spec fn field_value(fs: Seq<(Seq<char>, Seq<char>)>, key: Seq<char>) -> Option<Seq<char>>
    decreases fs.len(),
{
    if fs.len() == 0 {
        None
    } else if fs[0].0 == key {
        Some(fs[0].1)
    } else {
        field_value(fs.drop_first(), key)
    }
}

pub open spec fn text_payload(p: PayloadView) -> Option<Seq<char>> {
    match p {
        PayloadView::Text(s) => Some(s),
        _ => None,
    }
}

/// The message a frame stands for, if it stands for one.
pub open spec fn decode_spec(f: FrameView) -> Option<MessageView> {
    if f.tag == "register"@ {
        match f.payload {
            PayloadView::Fields(fs) => match field_value(fs, "nickname"@) {
                Some(n) => Some(MessageView::Register(n)),
                None => None,
            },
            _ => None,
        }
    } else if f.tag == "register_success"@ {
        match f.payload {
            PayloadView::Absent => Some(MessageView::RegisterSuccess),
            _ => None,
        }
    } else if f.tag == "active_users_list"@ {
        match f.payload {
            PayloadView::TextList(l) => Some(MessageView::ActiveUsersList(l)),
            _ => None,
        }
    } else {
        match text_payload(f.payload) {
            Some(s) => if f.tag == "disconnect_user"@ {
                Some(MessageView::DisconnectUser(s))
            } else if f.tag == "get_active_users_list"@ {
                Some(MessageView::GetActiveUsersList(s))
            } else if f.tag == "send_file"@ {
                Some(MessageView::SendFile(s))
            } else if f.tag == "receive_file"@ {
                Some(MessageView::ReceiveFile(s))
            } else if f.tag == "error_deserializing_json"@ {
                Some(MessageView::ErrorDeserializingJson(s))
            } else {
                None
            },
            None => None,
        }
    }
}

/// The tags differ in length, hence from each other.
proof fn reveal_tags()
    ensures
        "register"@.len() == 8,
        "register_success"@.len() == 16,
        "disconnect_user"@.len() == 15,
        "get_active_users_list"@.len() == 21,
        "active_users_list"@.len() == 17,
        "send_file"@.len() == 9,
        "receive_file"@.len() == 12,
        "error_deserializing_json"@.len() == 24,
{
    reveal_strlit("register");
    reveal_strlit("register_success");
    reveal_strlit("disconnect_user");
    reveal_strlit("get_active_users_list");
    reveal_strlit("active_users_list");
    reveal_strlit("send_file");
    reveal_strlit("receive_file");
    reveal_strlit("error_deserializing_json");
}

/// Decoding the encoding of any message gives that message back.
pub proof fn lemma_decode_encode(m: MessageView)
    ensures
        decode_spec(encode_spec(m)) == Some(m),
{
    reveal_tags();
    if let MessageView::Register(n) = m {
        let fs = seq![("nickname"@, n)];
        assert(fs.len() == 1 && fs[0] == ("nickname"@, n));
        assert(field_value(fs, "nickname"@) == Some(n));
    }
}

/// A frame whose tag names no known message decodes to nothing.
pub proof fn lemma_unknown_tag_rejected(f: FrameView)
    requires
        !is_known_tag(f.tag),
    ensures
        decode_spec(f).is_none(),
{
}

/// Every message that a frame decodes to encodes back to a frame with the
/// same tag, and decodes from that frame to itself.
pub proof fn lemma_decoded_frame_reencodes(f: FrameView)
    requires
        decode_spec(f).is_some(),
    ensures
        is_known_tag(f.tag),
        encode_spec(decode_spec(f).unwrap()).tag == f.tag,
        decode_spec(encode_spec(decode_spec(f).unwrap())) == decode_spec(f),
{
    reveal_tags();
    lemma_decode_encode(decode_spec(f).unwrap());
}

proof fn lemma_field_value_skip(fs: Seq<(Seq<char>, Seq<char>)>, key: Seq<char>, i: int)
    requires
        0 <= i <= fs.len(),
        forall|j: int| 0 <= j < i ==> fs[j].0 != key,
    ensures
        field_value(fs, key) == field_value(fs.subrange(i, fs.len() as int), key),
    decreases i,
{
    if i == 0 {
        assert(fs.subrange(0, fs.len() as int) =~= fs);
    } else {
        lemma_field_value_skip(fs, key, i - 1);
        assert(fs.subrange(i - 1, fs.len() as int).drop_first() =~= fs.subrange(i, fs.len() as int));
    }
}

fn tag_is(tag: &String, lit: &str) -> (r: bool)
    ensures
        r == (tag@ == lit@),
{
    *tag == String::from_str(lit)
}

fn tag_text(m: &WebSocketMessage) -> (r: String)
    ensures
        r@ == tag_of(m@),
{
    match m {
        WebSocketMessage::Register { .. } => String::from_str("register"),
        WebSocketMessage::RegisterSuccess => String::from_str("register_success"),
        WebSocketMessage::DisconnectUser(_) => String::from_str("disconnect_user"),
        WebSocketMessage::GetActiveUsersList(_) => String::from_str("get_active_users_list"),
        WebSocketMessage::ActiveUsersList(_) => String::from_str("active_users_list"),
        WebSocketMessage::SendFile(_) => String::from_str("send_file"),
        WebSocketMessage::ReceiveFile(_) => String::from_str("receive_file"),
        WebSocketMessage::ErrorDeserializingJson(_) => String::from_str("error_deserializing_json"),
    }
}

/// Index of the first member named `key`.
fn find_field(fs: &Vec<Field>, key: &str) -> (r: Option<usize>)
    ensures
        match r {
            Some(i) => i < fs@.len() && field_value(fields_view(fs@), key@) == Some(
                fs@[i as int].value@,
            ),
            None => field_value(fields_view(fs@), key@).is_none(),
        },
{
    let ghost v = fields_view(fs@);
    let mut i: usize = 0;
    while i < fs.len()
        invariant
            i <= fs.len(),
            v == fields_view(fs@),
            forall|j: int| 0 <= j < i ==> v[j].0 != key@,
        decreases fs.len() - i,
    {
        if tag_is(&fs[i].name, key) {
            proof {
                lemma_field_value_skip(v, key@, i as int);
                assert(v.subrange(i as int, v.len() as int)[0] == v[i as int]);
            }
            return Some(i);
        }
        i = i + 1;
    }
    proof {
        lemma_field_value_skip(v, key@, i as int);
    }
    None
}

/// The frame that carries a message. Encoding never fails.
pub fn encode(m: WebSocketMessage) -> (f: Frame)
    ensures
        f@ == encode_spec(m@),
{
    let tag = tag_text(&m);
    let payload = match m {
        WebSocketMessage::Register { nickname } => {
            let name = String::from_str("nickname");
            let fs = vec![Field { name, value: nickname }];
            proof {
                assert(fields_view(fs@) =~= seq![("nickname"@, m@->Register_0)]);
            }
            Payload::Fields(fs)
        },
        WebSocketMessage::RegisterSuccess => Payload::Absent,
        WebSocketMessage::DisconnectUser(n) => Payload::Text(n),
        WebSocketMessage::GetActiveUsersList(n) => Payload::Text(n),
        WebSocketMessage::ActiveUsersList(l) => Payload::TextList(l),
        WebSocketMessage::SendFile(t) => Payload::Text(t),
        WebSocketMessage::ReceiveFile(t) => Payload::Text(t),
        WebSocketMessage::ErrorDeserializingJson(e) => Payload::Text(e),
    };
    Frame { tag, payload }
}

/// The message a frame stands for. A frame with an unknown tag gives
/// `UnknownTag`; one with a known tag and a payload of the wrong shape gives
/// `BadPayload`; both carry the tag.
pub fn decode(frame: Frame) -> (r: Result<WebSocketMessage, DecodeError>)
    ensures
        r.is_ok() <==> decode_spec(frame@).is_some(),
        match r {
            Ok(m) => decode_spec(frame@) == Some(m@),
            Err(DecodeError::UnknownTag(t)) => !is_known_tag(frame@.tag) && t@ == frame@.tag,
            Err(DecodeError::BadPayload(t)) => is_known_tag(frame@.tag) && t@ == frame@.tag,
            Err(DecodeError::Syntax(_)) => false,
        },
{
    proof {
        reveal_tags();
    }
    let Frame { tag, payload } = frame;
    if tag_is(&tag, "register") {
        match payload {
            Payload::Fields(fs) => match find_field(&fs, "nickname") {
                Some(i) => Ok(WebSocketMessage::Register { nickname: fs[i].value.clone() }),
                None => Err(DecodeError::BadPayload(tag)),
            },
            _ => Err(DecodeError::BadPayload(tag)),
        }
    } else if tag_is(&tag, "register_success") {
        match payload {
            Payload::Absent => Ok(WebSocketMessage::RegisterSuccess),
            _ => Err(DecodeError::BadPayload(tag)),
        }
    } else if tag_is(&tag, "active_users_list") {
        match payload {
            Payload::TextList(l) => Ok(WebSocketMessage::ActiveUsersList(l)),
            _ => Err(DecodeError::BadPayload(tag)),
        }
    } else if !is_text_tag(&tag) {
        Err(DecodeError::UnknownTag(tag))
    } else {
        match payload {
            Payload::Text(s) => if tag_is(&tag, "disconnect_user") {
                Ok(WebSocketMessage::DisconnectUser(s))
            } else if tag_is(&tag, "get_active_users_list") {
                Ok(WebSocketMessage::GetActiveUsersList(s))
            } else if tag_is(&tag, "send_file") {
                Ok(WebSocketMessage::SendFile(s))
            } else if tag_is(&tag, "receive_file") {
                Ok(WebSocketMessage::ReceiveFile(s))
            } else {
                Ok(WebSocketMessage::ErrorDeserializingJson(s))
            },
            _ => Err(DecodeError::BadPayload(tag)),
        }
    }
}

/// Whether a tag names a message whose payload is a single string.
fn is_text_tag(tag: &String) -> (r: bool)
    ensures
        r == (tag@ == "disconnect_user"@ || tag@ == "get_active_users_list"@ || tag@
            == "send_file"@ || tag@ == "receive_file"@ || tag@ == "error_deserializing_json"@),
{
    tag_is(tag, "disconnect_user") || tag_is(tag, "get_active_users_list") || tag_is(
        tag,
        "send_file",
    ) || tag_is(tag, "receive_file") || tag_is(tag, "error_deserializing_json")
}

} // verus!
