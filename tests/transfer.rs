use mini_dropbox::codec::{decode, encode, Payload};
use mini_dropbox::events::{AppError, AppEvent, SendError};
use mini_dropbox::message::WebSocketMessage;
use mini_dropbox::outbound::{announcement_frame, submit, writer_step, WriterStep};
use mini_dropbox::session::{OutboundCommand, Session};
use mini_dropbox::state::AppState;
use mini_dropbox::ticket::{announce_file, resolve_request, TicketParts};

fn s(x: &str) -> String {
    x.to_string()
}

fn cmd(name: &str) -> OutboundCommand {
    OutboundCommand::Message(WebSocketMessage::DisconnectUser(s(name)))
}

#[test]
fn full_queue_fails_at_once() {
    let (tx, mut rx) = tokio::sync::mpsc::channel::<OutboundCommand>(1);
    assert_eq!(submit(&tx, cmd("a")), None);
    assert_eq!(submit(&tx, cmd("b")), Some(AppError::Send(SendError::QueueFull)));
    assert_eq!(rx.try_recv().unwrap(), cmd("a"));
    assert!(rx.try_recv().is_err());
}

#[test]
fn closed_queue_fails() {
    let (tx, rx) = tokio::sync::mpsc::channel::<OutboundCommand>(4);
    drop(rx);
    assert_eq!(submit(&tx, cmd("a")), Some(AppError::Send(SendError::Closed)));
}

#[test]
fn ticket_names_endpoint_and_hash() {
    let key = iroh_base::SecretKey::from_bytes(&[7u8; 32]).public();
    let parts = TicketParts { endpoint_id: *key.as_bytes(), hash: [9u8; 32], raw: true };
    let msg = announce_file(&parts).unwrap();
    let ticket = match msg {
        WebSocketMessage::SendFile(t) => t,
        other => panic!("unexpected {other:?}"),
    };
    assert!(ticket.starts_with("blob"));
    assert!(ticket.len() > 4);
    assert_eq!(resolve_request(&ticket), Ok(parts));
}

#[test]
fn ticket_keeps_format() {
    let key = iroh_base::SecretKey::from_bytes(&[1u8; 32]).public();
    let parts = TicketParts { endpoint_id: *key.as_bytes(), hash: [3u8; 32], raw: false };
    let WebSocketMessage::SendFile(t) = announce_file(&parts).unwrap() else {
        panic!("not a SendFile");
    };
    assert_eq!(resolve_request(&t), Ok(parts));
}

#[test]
fn malformed_ticket_is_transfer_error() {
    assert!(matches!(resolve_request(&s("hello")), Err(AppError::Transfer(_))));
    assert!(matches!(resolve_request(&s("blob")), Err(AppError::Transfer(_))));
}

#[test]
fn writer_sends_messages_and_publishes_files() {
    let m = WebSocketMessage::GetActiveUsersList(s("me"));
    assert_eq!(
        writer_step(OutboundCommand::Message(m.clone())),
        WriterStep::Send(encode(m))
    );
    assert_eq!(
        writer_step(OutboundCommand::PrepareFile(s("/tmp/a.txt"))),
        WriterStep::Publish(s("/tmp/a.txt"))
    );
}

#[test]
fn announcement_of_published_file() {
    assert_eq!(announcement_frame(Err(s("unreadable"))), Err(AppError::Transfer(s("unreadable"))));
    let key = iroh_base::SecretKey::from_bytes(&[5u8; 32]).public();
    let parts = TicketParts { endpoint_id: *key.as_bytes(), hash: [8u8; 32], raw: true };
    let frame = announcement_frame(Ok(parts.clone())).unwrap();
    assert_eq!(frame.tag, "send_file");
    let Payload::Text(ticket) = &frame.payload else {
        panic!("not a text payload");
    };
    assert!(ticket.starts_with("blob"));
    assert_eq!(resolve_request(ticket), Ok(parts));
    assert!(matches!(decode(frame), Ok(WebSocketMessage::SendFile(_))));
}

#[test]
fn publish_user_queues_registration() {
    let (tx, mut rx) = tokio::sync::mpsc::channel::<OutboundCommand>(1);
    let mut session = Session::new();
    session.start(Some(s("guest42")));
    assert_eq!(session.publish_user(&tx), None);
    assert!(rx.try_recv().is_err());
    session.handle_event(AppEvent::ReadyToPublishUser);
    assert_eq!(session.publish_user(&tx), None);
    assert_eq!(session.state, AppState::WaitForRegisterConfirmation);
    assert_eq!(
        rx.try_recv().unwrap(),
        OutboundCommand::Message(WebSocketMessage::Register { nickname: s("guest42") })
    );
}

#[test]
fn on_exit_queues_leave_or_reports() {
    let (tx, mut rx) = tokio::sync::mpsc::channel::<OutboundCommand>(1);
    let mut session = Session::new();
    session.start(Some(s("guest42")));
    assert_eq!(session.on_exit(&tx), None);
    assert_eq!(rx.try_recv().unwrap(), cmd("guest42"));
    assert_eq!(session.on_exit(&tx), None);
    assert_eq!(session.on_exit(&tx), Some(AppError::Send(SendError::QueueFull)));
}
