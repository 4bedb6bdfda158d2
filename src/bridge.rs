use vstd::prelude::*;

use crate::applet::Message;
use crate::workspace::Workspace;

verus! {

/// A compositor event, reduced to the kinds the panel reacts to.
#[derive(Debug)]
pub enum CompositorEvent {
    /// The full workspace list, replacing the previous one.
    WorkspacesChanged(Vec<Workspace>),
    /// Workspace `id` became active; `focused` tells whether its output has focus.
    WorkspaceActivated { id: u64, focused: bool },
    /// Any other event; it is never an error.
    Other,
}

/// The message a compositor event becomes for the reconciler, if any.
pub open spec fn forwarded(event: CompositorEvent) -> Option<Message> {
    match event {
        CompositorEvent::WorkspacesChanged(l) => Some(Message::WorkspaceUpdate(l)),
        CompositorEvent::WorkspaceActivated { id, focused } => Some(
            Message::WorkspaceActivated { id, focused },
        ),
        CompositorEvent::Other => None,
    }
}

/// Turns a compositor event into the message for the reconciler; events of
/// other kinds are dropped.
pub fn forward(event: CompositorEvent) -> (r: Option<Message>)
    ensures
        r == forwarded(event),
{
    match event {
        CompositorEvent::WorkspacesChanged(l) => Some(Message::WorkspaceUpdate(l)),
        CompositorEvent::WorkspaceActivated { id, focused } => Some(
            Message::WorkspaceActivated { id, focused },
        ),
        CompositorEvent::Other => None,
    }
}

/// The process exit code when the first connection to the compositor fails.
pub const CONNECT_FAILED_EXIT_CODE: i32 = 1;

/// Where the event listener stands.
#[derive(Debug, Clone, Copy, PartialEq, Eq, Structural)]
pub enum ListenerState {
    /// Opening the connection to the compositor.
    Connecting,
    /// Subscribed; reading events.
    Streaming,
    /// The stream ended; nothing more is read or sent.
    Terminated,
}

/// What the listener's outside work reports back.
#[derive(Debug)]
pub enum ListenerInput {
    /// The connection is open.
    Connected,
    /// The connection could not be opened.
    ConnectFailed,
    /// The event stream yielded an event.
    Received(CompositorEvent),
    /// The event stream closed or failed.
    StreamEnded,
}

/// What the listener is to do next.
#[derive(Debug)]
pub enum ListenerAction {
    /// Ask the compositor for its event stream.
    Subscribe,
    /// End the whole process with this code.
    Exit(i32),
    /// Hand this message to the reconciler, waiting until it is taken.
    Forward(Message),
    /// Read the next event.
    Skip,
    /// Leave the loop.
    Stop,
}

/// The listener's next state and action on `input` in `state`.
pub open spec fn listener_next(state: ListenerState, input: ListenerInput) -> (
    ListenerState,
    ListenerAction,
) {
    match (state, input) {
        (ListenerState::Connecting, ListenerInput::Connected) => (
            ListenerState::Streaming,
            ListenerAction::Subscribe,
        ),
        (ListenerState::Connecting, ListenerInput::ConnectFailed) => (
            ListenerState::Terminated,
            ListenerAction::Exit(CONNECT_FAILED_EXIT_CODE),
        ),
        (ListenerState::Streaming, ListenerInput::Received(e)) => match forwarded(e) {
            Some(m) => (ListenerState::Streaming, ListenerAction::Forward(m)),
            None => (ListenerState::Streaming, ListenerAction::Skip),
        },
        (ListenerState::Streaming, ListenerInput::StreamEnded) => (
            ListenerState::Terminated,
            ListenerAction::Stop,
        ),
        (ListenerState::Terminated, _) => (ListenerState::Terminated, ListenerAction::Stop),
        (s, _) => (s, ListenerAction::Skip),
    }
}

/// One decision of the event listener: a failed first connection ends the
/// process, a closed stream ends the loop for good, and while streaming only
/// workspace events are passed on.
pub fn listener_step(state: ListenerState, input: ListenerInput) -> (r: (
    ListenerState,
    ListenerAction,
))
    ensures
        r == listener_next(state, input),
        state == ListenerState::Terminated ==> r.0 == ListenerState::Terminated && r.1 is Stop,
{
    match (state, input) {
        (ListenerState::Connecting, ListenerInput::Connected) => (
            ListenerState::Streaming,
            ListenerAction::Subscribe,
        ),
        (ListenerState::Connecting, ListenerInput::ConnectFailed) => (
            ListenerState::Terminated,
            ListenerAction::Exit(CONNECT_FAILED_EXIT_CODE),
        ),
        (ListenerState::Streaming, ListenerInput::Received(e)) => match forward(e) {
            Some(m) => (ListenerState::Streaming, ListenerAction::Forward(m)),
            None => (ListenerState::Streaming, ListenerAction::Skip),
        },
        (ListenerState::Streaming, ListenerInput::StreamEnded) => (
            ListenerState::Terminated,
            ListenerAction::Stop,
        ),
        (ListenerState::Terminated, _) => (ListenerState::Terminated, ListenerAction::Stop),
        (s, _) => (s, ListenerAction::Skip),
    }
}

/// A request sent to the compositor.
#[derive(Debug, Clone, Copy, PartialEq, Eq, Structural)]
pub enum Command {
    /// Focus the workspace with this id.
    ActivateWorkspace(u64),
}

/// Where the command relay stands.
#[derive(Debug, Clone, Copy, PartialEq, Eq, Structural)]
pub enum RelayState {
    /// Waiting for the next id from the reconciler.
    Waiting,
    /// Opening a connection to send the activation of this id.
    Connecting(u64),
    /// The reconciler's channel is closed.
    Stopped,
}

/// What the relay's outside work reports back.
#[derive(Debug, Clone, Copy, PartialEq, Eq, Structural)]
pub enum RelayInput {
    /// The reconciler asked for workspace `id`.
    Requested(u64),
    /// The connection is open.
    Connected,
    /// The connection could not be opened.
    ConnectFailed,
    /// The reconciler's channel is closed.
    InputClosed,
}

/// What the relay is to do next.
#[derive(Debug, Clone, Copy, PartialEq, Eq, Structural)]
pub enum RelayAction {
    /// Open a connection to the compositor.
    Connect,
    /// Send this command and discard the reply.
    Send(Command),
    /// Wait for the next id.
    Wait,
    /// Leave the loop.
    Stop,
}

/// The relay's next state and action on `input` in `state`.
pub open spec fn relay_next(state: RelayState, input: RelayInput) -> (RelayState, RelayAction) {
    match (state, input) {
        (RelayState::Stopped, _) => (RelayState::Stopped, RelayAction::Stop),
        (_, RelayInput::InputClosed) => (RelayState::Stopped, RelayAction::Stop),
        (RelayState::Waiting, RelayInput::Requested(id)) => (
            RelayState::Connecting(id),
            RelayAction::Connect,
        ),
        (RelayState::Connecting(id), RelayInput::Connected) => (
            RelayState::Waiting,
            RelayAction::Send(Command::ActivateWorkspace(id)),
        ),
        (RelayState::Connecting(_), RelayInput::ConnectFailed) => (
            RelayState::Waiting,
            RelayAction::Wait,
        ),
        (s, _) => (s, RelayAction::Wait),
    }
}

/// One decision of the command relay: each requested id gets a connection of
/// its own and one activation request; when the connection fails that request
/// is dropped and the relay waits for the next id.
pub fn relay_step(state: RelayState, input: RelayInput) -> (r: (RelayState, RelayAction))
    ensures
        r == relay_next(state, input),
{
    match (state, input) {
        (RelayState::Stopped, _) => (RelayState::Stopped, RelayAction::Stop),
        (_, RelayInput::InputClosed) => (RelayState::Stopped, RelayAction::Stop),
        (RelayState::Waiting, RelayInput::Requested(id)) => (
            RelayState::Connecting(id),
            RelayAction::Connect,
        ),
        (RelayState::Connecting(id), RelayInput::Connected) => (
            RelayState::Waiting,
            RelayAction::Send(Command::ActivateWorkspace(id)),
        ),
        (RelayState::Connecting(_), RelayInput::ConnectFailed) => (
            RelayState::Waiting,
            RelayAction::Wait,
        ),
        (s, _) => (s, RelayAction::Wait),
    }
}

} // verus!
