use niri_workspaces::applet::{Message, WorkspacesApp};
use niri_workspaces::workspace::{sort_by_id, Workspace};
use std::sync::mpsc;

fn ws(id: u64, is_active: bool, is_focused: bool) -> Workspace {
    Workspace::new(id, is_active, is_focused)
}

fn app_with(list: Vec<Workspace>) -> WorkspacesApp {
    let mut app = WorkspacesApp::new();
    assert_eq!(app.update(Message::WorkspaceUpdate(list)), None);
    app
}

fn ids(app: &WorkspacesApp) -> Vec<u64> {
    app.workspaces().iter().map(|w| w.id).collect()
}

fn active_count(app: &WorkspacesApp) -> usize {
    app.workspaces().iter().filter(|w| w.is_active).count()
}

#[test]
fn new_app_is_empty() {
    let app = WorkspacesApp::new();
    assert!(app.workspaces().is_empty());
}

#[test]
fn activation_from_compositor_moves_active_flag() {
    let mut app = app_with(vec![ws(1, true, false), ws(2, false, false)]);
    app.update(Message::WorkspaceActivated { id: 2, focused: true });
    assert_eq!(app.workspaces(), &vec![ws(1, false, false), ws(2, true, true)]);
}

#[test]
fn activation_clears_focus_elsewhere() {
    let mut app = app_with(vec![ws(1, true, true), ws(2, false, false)]);
    app.update(Message::WorkspaceActivated { id: 2, focused: false });
    assert_eq!(app.workspaces(), &vec![ws(1, false, false), ws(2, true, false)]);
}

#[test]
fn user_pick_is_shown_and_sent_once() {
    let (tx, rx) = mpsc::channel();
    let mut app = WorkspacesApp::new();
    assert_eq!(app.update(Message::Ready(tx)), None);
    app.update(Message::WorkspaceUpdate(vec![ws(1, true, false), ws(3, false, false)]));
    assert_eq!(app.update(Message::ActivateWorkspace(3)), Some(3));
    assert_eq!(app.workspaces(), &vec![ws(1, false, false), ws(3, true, false)]);
    assert_eq!(rx.try_recv(), Ok(3));
    assert!(rx.try_recv().is_err());
}

#[test]
fn user_pick_before_handshake_sends_nothing() {
    let mut app = app_with(vec![ws(1, true, false), ws(3, false, false)]);
    assert_eq!(app.update(Message::ActivateWorkspace(3)), None);
    assert_eq!(app.workspaces(), &vec![ws(1, false, false), ws(3, true, false)]);
}

#[test]
fn user_pick_keeps_focus_flags() {
    let mut app = app_with(vec![ws(1, true, true), ws(2, false, false)]);
    app.update(Message::ActivateWorkspace(2));
    assert_eq!(app.workspaces(), &vec![ws(1, false, true), ws(2, true, false)]);
}

#[test]
fn user_pick_of_unknown_id_clears_active() {
    let mut app = app_with(vec![ws(1, true, false), ws(2, false, false)]);
    app.update(Message::ActivateWorkspace(9));
    assert_eq!(active_count(&app), 0);
}

#[test]
fn user_pick_survives_closed_channel() {
    let (tx, rx) = mpsc::channel();
    drop(rx);
    let mut app = WorkspacesApp::new();
    app.update(Message::Ready(tx));
    app.update(Message::WorkspaceUpdate(vec![ws(4, false, false)]));
    assert_eq!(app.update(Message::ActivateWorkspace(4)), Some(4));
    assert_eq!(app.workspaces(), &vec![ws(4, true, false)]);
}

#[test]
fn update_is_sorted_by_id() {
    let app = app_with(vec![ws(5, false, false), ws(1, true, true), ws(3, false, false)]);
    assert_eq!(ids(&app), vec![1, 3, 5]);
    assert_eq!(app.workspaces()[0], ws(1, true, true));
}

#[test]
fn update_of_empty_list() {
    let mut app = app_with(vec![ws(2, true, true)]);
    app.update(Message::WorkspaceUpdate(Vec::new()));
    assert!(app.workspaces().is_empty());
}

#[test]
fn sort_keeps_order_of_equal_ids() {
    let l = vec![ws(2, true, false), ws(1, false, false), ws(2, false, true)];
    assert_eq!(sort_by_id(&l), vec![ws(1, false, false), ws(2, true, false), ws(2, false, true)]);
}

#[test]
fn sort_with_largest_id() {
    let l = vec![ws(u64::MAX, false, false), ws(0, false, false)];
    assert_eq!(sort_by_id(&l), vec![ws(0, false, false), ws(u64::MAX, false, false)]);
}

#[test]
fn unknown_activation_changes_nothing() {
    let before = vec![ws(1, true, false), ws(2, false, false)];
    let mut app = app_with(before.clone());
    app.update(Message::WorkspaceActivated { id: 7, focused: true });
    assert_eq!(app.workspaces(), &before);
}

#[test]
fn last_update_wins_over_earlier_state() {
    let mut a = app_with(vec![ws(8, true, true)]);
    a.update(Message::ActivateWorkspace(8));
    a.update(Message::WorkspaceUpdate(vec![ws(3, false, false), ws(2, true, false)]));
    a.update(Message::WorkspaceActivated { id: 3, focused: true });

    let mut b = WorkspacesApp::new();
    b.update(Message::WorkspaceUpdate(vec![ws(3, false, false), ws(2, true, false)]));
    b.update(Message::WorkspaceActivated { id: 3, focused: true });

    assert_eq!(a.workspaces(), b.workspaces());
    assert_eq!(a.workspaces(), &vec![ws(2, false, false), ws(3, true, true)]);
}

#[test]
fn at_most_one_active_after_mixed_messages() {
    let mut app = app_with(vec![ws(1, false, false), ws(2, true, false), ws(3, false, false)]);
    assert_eq!(active_count(&app), 1);
    app.update(Message::ActivateWorkspace(3));
    assert_eq!(active_count(&app), 1);
    app.update(Message::WorkspaceActivated { id: 1, focused: true });
    assert_eq!(active_count(&app), 1);
    app.update(Message::WorkspaceActivated { id: 42, focused: true });
    assert_eq!(active_count(&app), 1);
    app.update(Message::ActivateWorkspace(2));
    assert_eq!(active_count(&app), 1);
    assert!(app.workspaces()[1].is_active);
}
