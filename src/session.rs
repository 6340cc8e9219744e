use vstd::prelude::*;

use crate::codec::{decode, decode_spec, is_known_tag, DecodeError, Frame};
use crate::events::{AppError, AppEvent, BootstrapError};
use crate::message::{strings_view, MessageView, WebSocketMessage};
use crate::state::AppState;

verus! {

/// A command for the task that writes to the signaling channel.
#[derive(Debug, Clone, PartialEq, Eq)]
pub enum OutboundCommand {
    /// send this message as it is
    Message(WebSocketMessage),
    /// publish the file at this path, then announce its ticket
    PrepareFile(String),
}

/// What the session asks its surroundings to do after an event.
#[derive(Debug, Clone, PartialEq, Eq)]
pub enum Reaction {
    /// tell the user that the relay accepted the registration
    RegisterAccepted,
    /// the roster was replaced: show it again
    RosterUpdated,
    /// hand this ticket to the transfer endpoint to fetch the object
    Resolve(String),
    /// tell the user of this failure
    Report(AppError),
}

/// The state owned by the orchestrator: its phase, its display name, the
/// peers known to be present, and the file queued for transfer.
#[derive(Debug, Clone, PartialEq, Eq)]
pub struct Session {
    pub state: AppState,
    pub nickname: String,
    pub active_users_list: Vec<String>,
    pub pending_file: Option<String>,
}

/// The phase after an event. Pairs not listed leave the phase as it is.
pub open spec fn next_state(s: AppState, ev: AppEvent) -> AppState {
    match ev {
        AppEvent::ReadyToPublishUser => if s == AppState::Connecting {
            AppState::PublishUser
        } else {
            s
        },
        AppEvent::AllSystemsGo | AppEvent::RegisterSuccess => if s
            == AppState::WaitForRegisterConfirmation {
            AppState::Ready
        } else {
            s
        },
        AppEvent::FatalError(e) => if e.spec_is_fatal() {
            AppState::Failed
        } else {
            s
        },
        _ => s,
    }
}

/// The roster after an event: a roster message replaces it whole.
pub open spec fn next_roster(roster: Vec<String>, ev: AppEvent) -> Vec<String> {
    match ev {
        AppEvent::UpdateActiveUsersList(l) => l,
        _ => roster,
    }
}

/// What an event in a given phase asks of the surroundings.
pub open spec fn reaction(s: AppState, ev: AppEvent) -> Option<Reaction> {
    match ev {
        AppEvent::RegisterSuccess => if s == AppState::WaitForRegisterConfirmation {
            Some(Reaction::RegisterAccepted)
        } else {
            None
        },
        AppEvent::UpdateActiveUsersList(_) => Some(Reaction::RosterUpdated),
        AppEvent::IncomingTicket(t) => if s == AppState::Ready {
            Some(Reaction::Resolve(t))
        } else {
            None
        },
        AppEvent::FatalError(e) => Some(Reaction::Report(e)),
        _ => None,
    }
}

/// The display name taken from a generated one, or the fallback.
pub open spec fn chosen_nickname(generated: Option<String>) -> Seq<char> {
    match generated {
        Some(n) => n@,
        None => "Guest"@,
    }
}

/// The display name: the generated one if there is one, else "Guest".
pub fn pick_nickname(generated: Option<String>) -> (r: String)
    ensures
        r@ == chosen_nickname(generated),
{
    match generated {
        Some(n) => n,
        None => String::from_str("Guest"),
    }
}

/// The event that ends bootstrap: both subsystems must be up, otherwise the
/// failure of the signaling connection, or else that of the transfer
/// endpoint, is fatal.
pub open spec fn bootstrap_outcome(signaling: Result<(), String>, transport: Result<(), String>) -> AppEvent {
    match (signaling, transport) {
        (Ok(()), Ok(())) => AppEvent::ReadyToPublishUser,
        (Err(e), _) => AppEvent::FatalError(AppError::Bootstrap(BootstrapError::SignalingConnect(e))),
        (Ok(()), Err(e)) => AppEvent::FatalError(AppError::Bootstrap(BootstrapError::TransportInit(e))),
    }
}

pub fn bootstrap_event(signaling: Result<(), String>, transport: Result<(), String>) -> (r: AppEvent)
    ensures
        r == bootstrap_outcome(signaling, transport),
{
    match signaling {
        Err(e) => AppEvent::FatalError(AppError::Bootstrap(BootstrapError::SignalingConnect(e))),
        Ok(()) => match transport {
            Ok(()) => AppEvent::ReadyToPublishUser,
            Err(e) => AppEvent::FatalError(AppError::Bootstrap(BootstrapError::TransportInit(e))),
        },
    }
}

/// A roster message replaces the roster whole: after two of them, the
/// roster is exactly the second one, whatever it was before.
pub proof fn lemma_roster_full_replacement(roster: Vec<String>, first: Vec<String>, second: Vec<String>)
    ensures
        next_roster(
            next_roster(roster, AppEvent::UpdateActiveUsersList(first)),
            AppEvent::UpdateActiveUsersList(second),
        ) == second,
{
}

/// A second registration acknowledgement, once ready, changes nothing and
/// asks nothing.
pub proof fn lemma_duplicate_ack_is_noop()
    ensures
        next_state(AppState::Ready, AppEvent::RegisterSuccess) == AppState::Ready,
        reaction(AppState::Ready, AppEvent::RegisterSuccess).is_none(),
{
}

/// Bootstrap is all or nothing: if either subsystem fails, the session ends
/// in `Failed`, from any phase; if both come up while connecting, it goes on
/// to registration.
pub proof fn lemma_bootstrap_all_or_nothing(
    s: AppState,
    signaling: Result<(), String>,
    transport: Result<(), String>,
)
    ensures
        (signaling.is_err() || transport.is_err()) ==> next_state(
            s,
            bootstrap_outcome(signaling, transport),
        ) == AppState::Failed,
        (signaling.is_ok() && transport.is_ok() && s == AppState::Connecting) ==> next_state(
            s,
            bootstrap_outcome(signaling, transport),
        ) == AppState::PublishUser,
{
}

/// `Failed` absorbs every event.
pub proof fn lemma_failed_is_absorbing(ev: AppEvent)
    ensures
        next_state(AppState::Failed, ev) == AppState::Failed,
{
}

/// Only a fatal failure leaves `Ready` for another phase.
pub proof fn lemma_ready_left_only_on_fatal(ev: AppEvent)
    ensures
        next_state(AppState::Ready, ev) != AppState::Ready ==> (ev matches AppEvent::FatalError(
            e,
        ) && e.spec_is_fatal()),
{
}

/// A failure that is not fatal (a decode, queue, transfer or relay
/// failure) is reported and leaves the phase as it is.
pub proof fn lemma_non_fatal_failure_keeps_state(s: AppState, e: AppError)
    requires
        !e.spec_is_fatal(),
    ensures
        next_state(s, AppEvent::FatalError(e)) == s,
        reaction(s, AppEvent::FatalError(e)) == Some(Reaction::Report(e)),
{
}

/// Only a bootstrap failure ends the session.
pub proof fn lemma_failed_only_on_fatal(s: AppState, ev: AppEvent)
    requires
        s != AppState::Failed,
        next_state(s, ev) == AppState::Failed,
    ensures
        ev matches AppEvent::FatalError(AppError::Bootstrap(_)),
{
}

/// Whether a name is on a roster.
pub fn roster_contains(roster: &Vec<String>, name: &String) -> (r: bool)
    ensures
        r == strings_view(roster@).contains(name@),
{
    let mut i: usize = 0;
    while i < roster.len()
        invariant
            i <= roster.len(),
            forall|j: int| 0 <= j < i ==> roster@[j]@ != name@,
        decreases roster.len() - i,
    {
        if roster[i] == *name {
            assert(strings_view(roster@)[i as int] == name@);
            return true;
        }
        i = i + 1;
    }
    proof {
        if strings_view(roster@).contains(name@) {
            let k = choose|k: int| 0 <= k < strings_view(roster@).len() && strings_view(roster@)[k] == name@;
            assert(roster@[k]@ == name@);
        }
    }
    false
}

/// The event that one inbound frame gives. Text that is no frame, and a frame
/// that is no message, each give a reported decode failure; messages meant
/// for the relay give nothing.
pub fn process_message(frame: Result<Frame, String>) -> (r: Option<AppEvent>)
    ensures
        match frame {
            Err(e) => r == Some(AppEvent::FatalError(AppError::Decode(DecodeError::Syntax(e)))),
            Ok(f) => match decode_spec(f@) {
                None => match r {
                    Some(AppEvent::FatalError(AppError::Decode(DecodeError::UnknownTag(t)))) => !is_known_tag(f@.tag) && t@ == f@.tag,
                    Some(AppEvent::FatalError(AppError::Decode(DecodeError::BadPayload(t)))) => is_known_tag(f@.tag) && t@ == f@.tag,
                    _ => false,
                },
                Some(MessageView::RegisterSuccess) => r == Some(AppEvent::RegisterSuccess),
                Some(MessageView::ActiveUsersList(l)) => match r {
                    Some(AppEvent::UpdateActiveUsersList(v)) => strings_view(v@) == l,
                    _ => false,
                },
                Some(MessageView::ReceiveFile(t)) => match r {
                    Some(AppEvent::IncomingTicket(x)) => x@ == t,
                    _ => false,
                },
                Some(MessageView::ErrorDeserializingJson(e)) => match r {
                    Some(AppEvent::FatalError(AppError::Server(x))) => x@ == e,
                    _ => false,
                },
                Some(_) => r.is_none(),
            },
        },
{
    match frame {
        Err(e) => Some(AppEvent::FatalError(AppError::Decode(DecodeError::Syntax(e)))),
        Ok(f) => match decode(f) {
            Err(d) => Some(AppEvent::FatalError(AppError::Decode(d))),
            Ok(WebSocketMessage::RegisterSuccess) => Some(AppEvent::RegisterSuccess),
            Ok(WebSocketMessage::ActiveUsersList(l)) => Some(AppEvent::UpdateActiveUsersList(l)),
            Ok(WebSocketMessage::ReceiveFile(t)) => Some(AppEvent::IncomingTicket(t)),
            Ok(WebSocketMessage::ErrorDeserializingJson(e)) => Some(
                AppEvent::FatalError(AppError::Server(e)),
            ),
            Ok(_) => None,
        },
    }
}

impl Session {
    /// A session that has not started.
    pub fn new() -> (r: Session)
        ensures
            r.state == AppState::OnStartup,
            r.nickname@.len() == 0,
            r.active_users_list@.len() == 0,
            r.pending_file.is_none(),
    {
        Session {
            state: AppState::OnStartup,
            nickname: String::new(),
            active_users_list: Vec::new(),
            pending_file: None,
        }
    }

    /// Leaves `OnStartup` for `Connecting` under the chosen display name;
    /// returns whether it did, in which case the caller starts bootstrap.
    pub fn start(&mut self, generated: Option<String>) -> (r: bool)
        ensures
            r == (old(self).state == AppState::OnStartup),
            r ==> final(self).state == AppState::Connecting && final(self).nickname@
                == chosen_nickname(generated) && final(self).active_users_list
                == old(self).active_users_list && final(self).pending_file
                == old(self).pending_file,
            !r ==> *final(self) == *old(self),
    {
        if self.state == AppState::OnStartup {
            self.nickname = pick_nickname(generated);
            self.state = AppState::Connecting;
            true
        } else {
            false
        }
    }

    /// Takes one event off the bus: advances the phase, replaces the roster on
    /// a roster message, and says what the surroundings should do.
    pub fn handle_event(&mut self, ev: AppEvent) -> (r: Option<Reaction>)
        ensures
            final(self).state == next_state(old(self).state, ev),
            final(self).active_users_list == next_roster(old(self).active_users_list, ev),
            final(self).nickname == old(self).nickname,
            final(self).pending_file == old(self).pending_file,
            r == reaction(old(self).state, ev),
    {
        let s = self.state;
        match ev {
            AppEvent::ReadyToPublishUser => {
                if s == AppState::Connecting {
                    self.state = AppState::PublishUser;
                }
                None
            },
            AppEvent::AllSystemsGo => {
                if s == AppState::WaitForRegisterConfirmation {
                    self.state = AppState::Ready;
                }
                None
            },
            AppEvent::RegisterSuccess => {
                if s == AppState::WaitForRegisterConfirmation {
                    self.state = AppState::Ready;
                    Some(Reaction::RegisterAccepted)
                } else {
                    None
                }
            },
            AppEvent::UpdateActiveUsersList(l) => {
                self.active_users_list = l;
                Some(Reaction::RosterUpdated)
            },
            AppEvent::IncomingTicket(t) => {
                if s == AppState::Ready {
                    Some(Reaction::Resolve(t))
                } else {
                    None
                }
            },
            AppEvent::FatalError(e) => {
                if e.is_fatal() {
                    self.state = AppState::Failed;
                }
                Some(Reaction::Report(e))
            },
        }
    }

    /// In `PublishUser`: the registration to send under the session's name,
    /// and the move to waiting for its acknowledgement.
    pub fn register_message(&mut self) -> (r: Option<WebSocketMessage>)
        ensures
            old(self).state == AppState::PublishUser ==> r == Some(
                WebSocketMessage::Register { nickname: old(self).nickname },
            ) && final(self).state == AppState::WaitForRegisterConfirmation && final(self).nickname
                == old(self).nickname && final(self).active_users_list
                == old(self).active_users_list && final(self).pending_file
                == old(self).pending_file,
            old(self).state != AppState::PublishUser ==> r.is_none() && *final(self) == *old(self),
    {
        if self.state == AppState::PublishUser {
            self.state = AppState::WaitForRegisterConfirmation;
            Some(WebSocketMessage::Register { nickname: self.nickname.clone() })
        } else {
            None
        }
    }

    /// Queues a file for transfer, in place of any queued before.
    pub fn select_file_for_transfer(&mut self, path: String)
        ensures
            final(self).pending_file == Some(path),
            final(self).state == old(self).state,
            final(self).nickname == old(self).nickname,
            final(self).active_users_list == old(self).active_users_list,
    {
        self.pending_file = Some(path);
    }

    /// When ready: the request for the current roster.
    pub fn request_roster(&self) -> (r: Option<WebSocketMessage>)
        ensures
            self.state == AppState::Ready ==> r == Some(
                WebSocketMessage::GetActiveUsersList(self.nickname),
            ),
            self.state != AppState::Ready ==> r.is_none(),
    {
        if self.state == AppState::Ready {
            Some(WebSocketMessage::GetActiveUsersList(self.nickname.clone()))
        } else {
            None
        }
    }

    /// When ready, with a file queued and the peer on the roster: the command
    /// to publish that file, which leaves the queue empty. Otherwise nothing
    /// changes.
    pub fn publish_to_peer(&mut self, peer: &String) -> (r: Option<OutboundCommand>)
        ensures
            ({
                let go = old(self).state == AppState::Ready && old(self).pending_file.is_some()
                    && strings_view(old(self).active_users_list@).contains(peer@);
                &&& go ==> r == Some(OutboundCommand::PrepareFile(old(self).pending_file.unwrap()))
                    && final(self).pending_file.is_none() && final(self).state == old(self).state
                    && final(self).nickname == old(self).nickname && final(self).active_users_list
                    == old(self).active_users_list
                &&& !go ==> r.is_none() && *final(self) == *old(self)
            }),
    {
        if self.state == AppState::Ready && self.pending_file.is_some() && roster_contains(
            &self.active_users_list,
            peer,
        ) {
            let path = self.pending_file.take();
            match path {
                Some(p) => Some(OutboundCommand::PrepareFile(p)),
                None => None,
            }
        } else {
            None
        }
    }

    /// The leave message sent when the process exits.
    pub fn disconnect_message(&self) -> (r: WebSocketMessage)
        ensures
            r == WebSocketMessage::DisconnectUser(self.nickname),
    {
        WebSocketMessage::DisconnectUser(self.nickname.clone())
    }
}

} // verus!
