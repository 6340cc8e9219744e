use vstd::prelude::*;

use tokio::sync::mpsc::Sender;

use crate::codec::{encode, encode_spec, Frame};
use crate::events::{AppError, SendError};
use crate::message::MessageView;
use crate::session::{OutboundCommand, Session};
use crate::state::AppState;
use crate::ticket::{announce_file, blob_ticket_text, TicketParts};

verus! {

/// tokio's bounded mpsc sender, carried through opaque.
#[verifier::external_type_specification]
#[verifier::external_body]
#[verifier::reject_recursive_types(T)]
pub struct ExSender<T>(Sender<T>);

/// Relies on tokio::sync::mpsc::Sender::try_send, which returns at once:
/// `Full` when the channel's buffer holds as many values as it was made for,
/// `Closed` when the receiver is gone.
#[verifier::external_body]
fn try_enqueue(queue: &Sender<OutboundCommand>, cmd: OutboundCommand) -> (r: Result<(), SendError>)
{
    match queue.try_send(cmd) {
        Ok(()) => Ok(()),
        Err(tokio::sync::mpsc::error::TrySendError::Full(_)) => Err(SendError::QueueFull),
        Err(tokio::sync::mpsc::error::TrySendError::Closed(_)) => Err(SendError::Closed),
    }
}

/// Places a command on the bounded outbound queue without waiting. A refusal
/// comes back as a failure to report, and the command is dropped.
pub fn submit(queue: &Sender<OutboundCommand>, cmd: OutboundCommand) -> (r: Option<AppError>)
    ensures
        match r {
            Some(e) => e is Send,
            None => true,
        },
{
    match try_enqueue(queue, cmd) {
        Ok(()) => None,
        Err(e) => Some(AppError::Send(e)),
    }
}

/// What the writer task does with one command taken off the queue.
#[derive(Debug, Clone, PartialEq, Eq)]
pub enum WriterStep {
    /// write this frame to the signaling channel
    Send(Frame),
    /// publish the file at this path, then announce it
    Publish(String),
}

/// A message command becomes its frame; a file command asks for publication.
pub fn writer_step(cmd: OutboundCommand) -> (r: WriterStep)
    ensures
        match cmd {
            OutboundCommand::Message(m) => match r {
                WriterStep::Send(f) => f@ == encode_spec(m@),
                WriterStep::Publish(_) => false,
            },
            OutboundCommand::PrepareFile(p) => r == WriterStep::Publish(p),
        },
{
    match cmd {
        OutboundCommand::Message(m) => WriterStep::Send(encode(m)),
        OutboundCommand::PrepareFile(p) => WriterStep::Publish(p),
    }
}

/// After a publication: the frame announcing the object's ticket, or the
/// transfer failure to report.
pub fn announcement_frame(published: Result<TicketParts, String>) -> (r: Result<Frame, AppError>)
    ensures
        match published {
            Err(e) => r == Err::<Frame, AppError>(AppError::Transfer(e)),
            Ok(p) => {
                let text = blob_ticket_text(p.endpoint_id@, p.hash@, p.raw);
                match r {
                    Ok(f) => text.is_some() && f@ == encode_spec(MessageView::SendFile(text.unwrap())),
                    Err(e) => text.is_none() && e is Transfer,
                }
            },
        },
{
    match published {
        Err(e) => Err(AppError::Transfer(e)),
        Ok(p) => match announce_file(&p) {
            Ok(m) => Ok(encode(m)),
            Err(e) => Err(e),
        },
    }
}

impl Session {
    /// In `PublishUser`: queues the registration and moves on to waiting for
    /// its acknowledgement, whether or not the queue took it; a refusal comes
    /// back as a failure to report. In any other phase nothing happens.
    pub fn publish_user(&mut self, queue: &Sender<OutboundCommand>) -> (r: Option<AppError>)
        ensures
            old(self).state == AppState::PublishUser ==> final(self).state
                == AppState::WaitForRegisterConfirmation && final(self).nickname == old(self).nickname
                && final(self).active_users_list == old(self).active_users_list
                && final(self).pending_file == old(self).pending_file,
            old(self).state != AppState::PublishUser ==> r.is_none() && *final(self) == *old(self),
            match r {
                Some(e) => e is Send,
                None => true,
            },
    {
        match self.register_message() {
            Some(m) => submit(queue, OutboundCommand::Message(m)),
            None => None,
        }
    }

    /// At exit: queues the leave message under the session's name; a refusal
    /// comes back as a failure to report, and is not retried.
    pub fn on_exit(&self, queue: &Sender<OutboundCommand>) -> (r: Option<AppError>)
        ensures
            match r {
                Some(e) => e is Send,
                None => true,
            },
    {
        submit(queue, OutboundCommand::Message(self.disconnect_message()))
    }
}

} // verus!
