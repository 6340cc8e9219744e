use mini_dropbox::codec::{decode, encode, DecodeError, Field, Frame, Payload};
use mini_dropbox::message::WebSocketMessage;

fn s(x: &str) -> String {
    x.to_string()
}

fn every_message() -> Vec<WebSocketMessage> {
    vec![
        WebSocketMessage::Register { nickname: s("guest42") },
        WebSocketMessage::RegisterSuccess,
        WebSocketMessage::DisconnectUser(s("guest42")),
        WebSocketMessage::GetActiveUsersList(s("guest42")),
        WebSocketMessage::ActiveUsersList(vec![s("a"), s("b"), s("c")]),
        WebSocketMessage::ActiveUsersList(vec![]),
        WebSocketMessage::SendFile(s("blobabc")),
        WebSocketMessage::ReceiveFile(s("blobdef")),
        WebSocketMessage::ErrorDeserializingJson(s("bad json")),
        WebSocketMessage::Register { nickname: s("") },
    ]
}

#[test]
fn round_trip_every_tag() {
    for m in every_message() {
        assert_eq!(decode(encode(m.clone())), Ok(m));
    }
}

#[test]
fn encode_register_is_tagged_object() {
    let f = encode(WebSocketMessage::Register { nickname: s("guest42") });
    assert_eq!(f.tag, "register");
    assert_eq!(f.payload, Payload::Fields(vec![Field { name: s("nickname"), value: s("guest42") }]));
}

#[test]
fn encode_tags_are_snake_case() {
    let tags: Vec<String> = every_message().into_iter().map(|m| encode(m).tag).collect();
    assert_eq!(
        tags,
        vec![
            "register",
            "register_success",
            "disconnect_user",
            "get_active_users_list",
            "active_users_list",
            "active_users_list",
            "send_file",
            "receive_file",
            "error_deserializing_json",
            "register",
        ]
    );
}

#[test]
fn encode_register_success_has_no_payload() {
    assert_eq!(encode(WebSocketMessage::RegisterSuccess).payload, Payload::Absent);
}

#[test]
fn decode_unknown_tag() {
    let f = Frame { tag: s("bogus"), payload: Payload::Text(s("x")) };
    assert_eq!(decode(f), Err(DecodeError::UnknownTag(s("bogus"))));
    let f = Frame { tag: s(""), payload: Payload::Absent };
    assert_eq!(decode(f), Err(DecodeError::UnknownTag(s(""))));
}

#[test]
fn decode_wrong_payload_shape() {
    let cases = vec![
        Frame { tag: s("register_success"), payload: Payload::Text(s("x")) },
        Frame { tag: s("register"), payload: Payload::Text(s("x")) },
        Frame { tag: s("active_users_list"), payload: Payload::Text(s("x")) },
        Frame { tag: s("send_file"), payload: Payload::Absent },
        Frame { tag: s("receive_file"), payload: Payload::TextList(vec![s("x")]) },
        Frame { tag: s("disconnect_user"), payload: Payload::Other },
    ];
    for f in cases {
        let tag = f.tag.clone();
        assert_eq!(decode(f), Err(DecodeError::BadPayload(tag)));
    }
}

#[test]
fn decode_register_without_nickname() {
    let f = Frame {
        tag: s("register"),
        payload: Payload::Fields(vec![Field { name: s("name"), value: s("x") }]),
    };
    assert_eq!(decode(f), Err(DecodeError::BadPayload(s("register"))));
}

#[test]
fn decode_register_takes_first_nickname_and_ignores_others() {
    let f = Frame {
        tag: s("register"),
        payload: Payload::Fields(vec![
            Field { name: s("extra"), value: s("1") },
            Field { name: s("nickname"), value: s("first") },
            Field { name: s("nickname"), value: s("second") },
        ]),
    };
    assert_eq!(decode(f), Ok(WebSocketMessage::Register { nickname: s("first") }));
}

