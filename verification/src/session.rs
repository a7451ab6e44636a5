//! The protocol of one client connection: the first message must
//! authenticate the user; afterwards every message goes through the handler
//! chain until the client goes away.
use vstd::prelude::*;
use crate::dispatch::Reply;
use crate::msg::{Msg, TYPE_AUTH};

verus! {

/// Where a connection stands.
pub enum SessionState {
    /// No message has arrived yet.
    AwaitingAuth,
    /// The first message, from `user_id`, is with the authentication handler.
    Authenticating { user_id: u64 },
    /// `user_id` is logged in on this connection.
    Active { user_id: u64 },
    /// The connection is over.
    Closed,
}

/// What happens on a connection.
pub enum SessionEvent {
    /// The next message from the client, or none once the client has gone.
    Inbound(Option<Msg>),
    /// The authentication handler's verdict on the first message.
    AuthAnswered { accepted: bool },
    /// Sending the replies of a message failed.
    DispatchFailed,
}

/// What the connection does next.
pub enum SessionAction {
    /// Hand this first message to the authentication handler.
    Authenticate(Msg),
    /// Send the authentication handler's answer and register the
    /// connection as `user_id`'s.
    Register { user_id: u64 },
    /// Send this error message to the client, then end the connection with
    /// the error "auth failed".
    RejectAuth(Reply),
    /// End the connection with this error.
    Fail(String),
    /// Run this message through the handler chain.
    Dispatch(Msg),
    /// Unregister `user_id`'s connection, record when the user was last
    /// online, and end the connection without error.
    Finish { user_id: u64 },
    /// End the connection with the failure that happened, without cleaning
    /// up.
    Abandon,
    /// Nothing: the event has no meaning in this state.
    Ignore,
}

/// The state that follows `state` on `event`.
pub open spec fn spec_next(state: SessionState, event: &SessionEvent) -> SessionState {
    match state {
        SessionState::AwaitingAuth => match event {
            SessionEvent::Inbound(Some(m)) => if m.typ == TYPE_AUTH {
                SessionState::Authenticating { user_id: m.sender }
            } else {
                SessionState::Closed
            },
            SessionEvent::Inbound(None) => SessionState::Closed,
            _ => state,
        },
        SessionState::Authenticating { user_id } => match event {
            SessionEvent::AuthAnswered { accepted } => if *accepted {
                SessionState::Active { user_id }
            } else {
                SessionState::Closed
            },
            _ => state,
        },
        SessionState::Active { user_id } => match event {
            SessionEvent::Inbound(Some(_)) => state,
            _ => SessionState::Closed,
        },
        SessionState::Closed => SessionState::Closed,
    }
}

/// One connection's protocol state, for the node `my_id`.
pub struct Session {
    pub state: SessionState,
    pub my_id: u32,
}

impl Session {
    /// A connection on which nothing has arrived yet.
    pub fn new(my_id: u32) -> (s: Session)
        ensures
            s.state == SessionState::AwaitingAuth,
            s.my_id == my_id,
    {
        Session { state: SessionState::AwaitingAuth, my_id }
    }

    /// Moves the connection on by one event and says what to do.
    ///
    /// Before authentication: no message at all ends the connection with
    /// "cannot receive auth message"; a first message that is not of the
    /// authentication type ends it with "auth failed"; an authentication
    /// message goes to the authentication handler. An accepted
    /// authentication registers its sender; a refused one sends an
    /// "auth failed" error to the sender (on node 0) and ends the
    /// connection. Once logged in, every message is dispatched, and the
    /// client going away unregisters the user.
    pub fn step(&mut self, event: SessionEvent) -> (action: SessionAction)
        ensures
            final(self).state == spec_next(old(self).state, &event),
            final(self).my_id == old(self).my_id,
            old(self).state is Active && event is Inbound && event->Inbound_0 is Some
                ==> final(self).state == old(self).state,
            old(self).state is Active && !(event is Inbound && event->Inbound_0 is Some)
                ==> final(self).state == SessionState::Closed,
            old(self).state is Closed ==> final(self).state == SessionState::Closed,
            old(self).state is AwaitingAuth && event is Inbound && event->Inbound_0 is Some
                && event->Inbound_0->Some_0.typ == TYPE_AUTH ==> final(self).state == (
            SessionState::Authenticating { user_id: event->Inbound_0->Some_0.sender }),
            old(self).state is AwaitingAuth && event is Inbound && !(event->Inbound_0 is Some
                && event->Inbound_0->Some_0.typ == TYPE_AUTH) ==> final(self).state
                == SessionState::Closed,
            old(self).state is AwaitingAuth && !(event is Inbound) ==> final(self).state == old(
                self,
            ).state,
            old(self).state is Authenticating && event is AuthAnswered && event->accepted
                ==> final(self).state == (SessionState::Active {
                user_id: old(self).state->Authenticating_user_id,
            }),
            old(self).state is Authenticating && event is AuthAnswered && !event->accepted
                ==> final(self).state == SessionState::Closed,
            old(self).state is Authenticating && !(event is AuthAnswered) ==> final(self).state
                == old(self).state,
            action is Dispatch ==> old(self).state is Active && event == SessionEvent::Inbound(
                Some(action->Dispatch_0),
            ),
            action is Register ==> old(self).state is Authenticating && action->Register_user_id
                == old(self).state->Authenticating_user_id,
            action is Finish ==> old(self).state is Active && action->Finish_user_id
                == old(self).state->Active_user_id,
            action is Authenticate ==> old(self).state is AwaitingAuth && event
                == SessionEvent::Inbound(Some(action->Authenticate_0)) && action->Authenticate_0.typ
                == TYPE_AUTH,
            old(self).state is AwaitingAuth ==> match event {
                SessionEvent::Inbound(None) => action matches SessionAction::Fail(t)
                    && t@ == "cannot receive auth message"@,
                SessionEvent::Inbound(Some(m)) => if m.typ == TYPE_AUTH {
                    action is Authenticate
                } else {
                    action matches SessionAction::Fail(t) && t@ == "auth failed"@
                },
                _ => action is Ignore,
            },
            old(self).state is Authenticating ==> match event {
                SessionEvent::AuthAnswered { accepted } => if accepted {
                    action is Register
                } else {
                    action matches SessionAction::RejectAuth(Reply::Error { sender, receiver, node_id, text })
                        && sender == old(self).my_id as u64
                        && receiver == old(self).state->Authenticating_user_id
                        && node_id == 0 && text@ == "auth failed"@
                },
                _ => action is Ignore,
            },
            old(self).state is Active ==> match event {
                SessionEvent::Inbound(Some(_)) => action is Dispatch,
                SessionEvent::Inbound(None) => action is Finish,
                _ => action is Abandon,
            },
            old(self).state is Closed ==> action is Ignore,
    {
        match self.state {
            SessionState::AwaitingAuth => match event {
                SessionEvent::Inbound(Some(m)) => {
                    if m.typ == TYPE_AUTH {
                        self.state = SessionState::Authenticating { user_id: m.sender };
                        SessionAction::Authenticate(m)
                    } else {
                        self.state = SessionState::Closed;
                        SessionAction::Fail("auth failed".to_owned())
                    }
                },
                SessionEvent::Inbound(None) => {
                    self.state = SessionState::Closed;
                    SessionAction::Fail("cannot receive auth message".to_owned())
                },
                _ => SessionAction::Ignore,
            },
            SessionState::Authenticating { user_id } => match event {
                SessionEvent::AuthAnswered { accepted } => {
                    if accepted {
                        self.state = SessionState::Active { user_id };
                        SessionAction::Register { user_id }
                    } else {
                        self.state = SessionState::Closed;
                        SessionAction::RejectAuth(
                            Reply::Error {
                                sender: self.my_id as u64,
                                receiver: user_id,
                                node_id: 0,
                                text: "auth failed".to_owned(),
                            },
                        )
                    }
                },
                _ => SessionAction::Ignore,
            },
            SessionState::Active { user_id } => match event {
                SessionEvent::Inbound(Some(m)) => SessionAction::Dispatch(m),
                SessionEvent::Inbound(None) => {
                    self.state = SessionState::Closed;
                    SessionAction::Finish { user_id }
                },
                _ => {
                    self.state = SessionState::Closed;
                    SessionAction::Abandon
                },
            },
            SessionState::Closed => SessionAction::Ignore,
        }
    }
}

/// The time recorded as a user's last moment online when the connection
/// ends: the end time less the idle timeout that noticed the end.
pub fn last_online_time(now: u64, idle_timeout: u64) -> (t: u64)
    requires
        now >= idle_timeout,
    ensures
        t == now - idle_timeout,
{
    now - idle_timeout
}

/// Once logged in, every message from the client is dispatched and the
/// connection stays logged in as the same user, whatever the message holds.
pub proof fn lemma_messages_keep_session(user_id: u64, m: Msg)
    ensures
        spec_next(SessionState::Active { user_id }, &SessionEvent::Inbound(Some(m))) == (
        SessionState::Active { user_id }),
{
}

/// A logged-in connection ends only on an event that is not a message from
/// the client: the client going away, or a failed dispatch.
pub proof fn lemma_only_leaving_closes(user_id: u64, event: &SessionEvent)
    ensures
        (spec_next(SessionState::Active { user_id }, event) == SessionState::Closed) <==> (
        !(*event is Inbound && event->Inbound_0 is Some)),
{
}

/// Any number of messages in a row keep a logged-in connection logged in as
/// the same user.
pub proof fn lemma_message_run_keeps_session(user_id: u64, msgs: Seq<Msg>, state: SessionState)
    requires
        state == (SessionState::Active { user_id }),
    ensures
        after_messages(state, msgs) == (SessionState::Active { user_id }),
    decreases msgs.len(),
{
    if msgs.len() > 0 {
        lemma_message_run_keeps_session(user_id, msgs.drop_last(), state);
    }
}

/// The state after a run of messages from the client, one after the other.
pub open spec fn after_messages(state: SessionState, msgs: Seq<Msg>) -> SessionState
    decreases msgs.len(),
{
    if msgs.len() == 0 {
        state
    } else {
        spec_next(after_messages(state, msgs.drop_last()), &SessionEvent::Inbound(Some(msgs.last())))
    }
}

/// A closed connection stays closed whatever happens.
pub proof fn lemma_closed_is_final(event: &SessionEvent)
    ensures
        spec_next(SessionState::Closed, event) == SessionState::Closed,
{
}

/// A logged-in connection keeps its user until it closes.
pub proof fn lemma_user_is_stable(user_id: u64, event: &SessionEvent)
    ensures
        spec_next(SessionState::Active { user_id }, event) == (SessionState::Active { user_id })
            || spec_next(SessionState::Active { user_id }, event) == SessionState::Closed,
{
}

/// Only an accepted authentication logs a user in: the state before a
/// logged-in state is the same logged-in state or the authentication of
/// that very user.
pub proof fn lemma_login_needs_auth(state: SessionState, event: &SessionEvent, user_id: u64)
    requires
        spec_next(state, event) == (SessionState::Active { user_id }),
    ensures
        state == (SessionState::Active { user_id }) || (state == (SessionState::Authenticating {
            user_id,
        }) && event == (SessionEvent::AuthAnswered { accepted: true })),
{
}

} // verus!
