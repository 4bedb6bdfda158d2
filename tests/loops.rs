use niri_workspaces::applet::Message;
use niri_workspaces::bridge::{
    forward, listener_step, relay_step, Command, CompositorEvent, ListenerAction, ListenerInput,
    ListenerState, RelayAction, RelayInput, RelayState, CONNECT_FAILED_EXIT_CODE,
};
use niri_workspaces::workspace::Workspace;

#[test]
fn forward_passes_workspace_list() {
    let l = vec![Workspace::new(4, true, false)];
    match forward(CompositorEvent::WorkspacesChanged(l.clone())) {
        Some(Message::WorkspaceUpdate(got)) => assert_eq!(got, l),
        other => panic!("unexpected {:?}", other),
    }
}

#[test]
fn forward_passes_activation() {
    match forward(CompositorEvent::WorkspaceActivated { id: 6, focused: true }) {
        Some(Message::WorkspaceActivated { id, focused }) => {
            assert_eq!(id, 6);
            assert!(focused);
        }
        other => panic!("unexpected {:?}", other),
    }
}

#[test]
fn forward_drops_other_events() {
    assert!(forward(CompositorEvent::Other).is_none());
}

#[test]
fn listener_subscribes_after_connecting() {
    let (s, a) = listener_step(ListenerState::Connecting, ListenerInput::Connected);
    assert_eq!(s, ListenerState::Streaming);
    assert!(matches!(a, ListenerAction::Subscribe));
}

#[test]
fn listener_exits_with_code_one_when_connect_fails() {
    let (s, a) = listener_step(ListenerState::Connecting, ListenerInput::ConnectFailed);
    assert_eq!(s, ListenerState::Terminated);
    assert_eq!(CONNECT_FAILED_EXIT_CODE, 1);
    assert!(matches!(a, ListenerAction::Exit(1)));
}

#[test]
fn listener_forwards_while_streaming() {
    let ev = CompositorEvent::WorkspaceActivated { id: 2, focused: false };
    let (s, a) = listener_step(ListenerState::Streaming, ListenerInput::Received(ev));
    assert_eq!(s, ListenerState::Streaming);
    assert!(matches!(
        a,
        ListenerAction::Forward(Message::WorkspaceActivated { id: 2, focused: false })
    ));
}

#[test]
fn listener_skips_other_events() {
    let (s, a) = listener_step(
        ListenerState::Streaming,
        ListenerInput::Received(CompositorEvent::Other),
    );
    assert_eq!(s, ListenerState::Streaming);
    assert!(matches!(a, ListenerAction::Skip));
}

#[test]
fn listener_stops_for_good_when_stream_ends() {
    let (s, a) = listener_step(ListenerState::Streaming, ListenerInput::StreamEnded);
    assert_eq!(s, ListenerState::Terminated);
    assert!(matches!(a, ListenerAction::Stop));
    let ev = CompositorEvent::WorkspaceActivated { id: 1, focused: true };
    let (s, a) = listener_step(s, ListenerInput::Received(ev));
    assert_eq!(s, ListenerState::Terminated);
    assert!(matches!(a, ListenerAction::Stop));
}

#[test]
fn relay_sends_one_activation_per_id() {
    let (s, a) = relay_step(RelayState::Waiting, RelayInput::Requested(3));
    assert_eq!((s, a), (RelayState::Connecting(3), RelayAction::Connect));
    let (s, a) = relay_step(s, RelayInput::Connected);
    assert_eq!(
        (s, a),
        (RelayState::Waiting, RelayAction::Send(Command::ActivateWorkspace(3)))
    );
}

#[test]
fn relay_drops_request_when_connect_fails() {
    let (s, a) = relay_step(RelayState::Connecting(5), RelayInput::ConnectFailed);
    assert_eq!((s, a), (RelayState::Waiting, RelayAction::Wait));
    let (s, a) = relay_step(s, RelayInput::Requested(6));
    assert_eq!((s, a), (RelayState::Connecting(6), RelayAction::Connect));
}

#[test]
fn relay_stops_when_channel_closes() {
    let (s, a) = relay_step(RelayState::Waiting, RelayInput::InputClosed);
    assert_eq!((s, a), (RelayState::Stopped, RelayAction::Stop));
    let (s, a) = relay_step(s, RelayInput::Requested(1));
    assert_eq!((s, a), (RelayState::Stopped, RelayAction::Stop));
}
