use vstd::prelude::*;

use crate::workspace::{activated, has_id, selected, sort_by_id, sorted_by_id, Workspace};
use std::sync::mpsc::Sender;

verus! {

#[verifier::external_type_specification]
#[verifier::external_body]
#[verifier::reject_recursive_types(T)]
pub struct ExSender<T>(std::sync::mpsc::Sender<T>);

/// Relies on std's `Clone` for `Sender`: another handle on the same channel.
/// Nothing about the handle is stated.
pub assume_specification<T>[ <std::sync::mpsc::Sender<T> as Clone>::clone ](
    s: &std::sync::mpsc::Sender<T>,
) -> std::sync::mpsc::Sender<T>;

/// Relies on std::sync::mpsc::Sender::send: queues `id` for the receiving end,
/// and fails only when that end is gone. The outcome is not stated.
#[verifier::external_body]
fn send_id(sender: &Sender<u64>, id: u64) -> (delivered: bool) {
    sender.send(id).is_ok()
}

/// What reaches the reconciler: from the startup handshake, the compositor, or the user.
#[derive(Debug, Clone)]
pub enum Message {
    /// The sending half of the outbound channel, handed over once at startup.
    Ready(Sender<u64>),
    /// A full replacement of the workspace list.
    WorkspaceUpdate(Vec<Workspace>),
    /// The compositor activated workspace `id`.
    WorkspaceActivated { id: u64, focused: bool },
    /// The user asked to switch to workspace `id`.
    ActivateWorkspace(u64),
}

/// The list after `m` is applied to `s`.
pub open spec fn next_list(s: Seq<Workspace>, m: Message) -> Seq<Workspace> {
    match m {
        Message::Ready(_) => s,
        Message::WorkspaceUpdate(l) => sorted_by_id(l@),
        Message::WorkspaceActivated { id, focused } => activated(s, id, focused),
        Message::ActivateWorkspace(id) => selected(s, id),
    }
}

/// The id that applying `m` hands to the outbound channel, given whether the
/// channel is there yet.
pub open spec fn outbound(m: Message, connected: bool) -> Option<u64> {
    match m {
        Message::ActivateWorkspace(id) => if connected {
            Some(id)
        } else {
            None
        },
        _ => None,
    }
}

/// The list after every message of `ms`, in order, starting from `s`.
pub open spec fn replay(s: Seq<Workspace>, ms: Seq<Message>) -> Seq<Workspace>
    decreases ms.len(),
{
    if ms.len() == 0 {
        s
    } else {
        replay(next_list(s, ms[0]), ms.drop_first())
    }
}

/// The applet's state: the authoritative workspace list, and the outbound
/// channel once the startup handshake has delivered it.
pub struct WorkspacesApp {
    workspaces: Vec<Workspace>,
    sender: Option<Sender<u64>>,
}

impl View for WorkspacesApp {
    type V = Seq<Workspace>;

    closed spec fn view(&self) -> Seq<Workspace> {
        self.workspaces@
    }
}

impl WorkspacesApp {
    /// Whether the outbound channel has been handed over.
    pub closed spec fn connected(&self) -> bool {
        self.sender is Some
    }

    pub fn new() -> (r: WorkspacesApp)
        ensures
            r@ == Seq::<Workspace>::empty(),
            !r.connected(),
    {
        WorkspacesApp { workspaces: Vec::new(), sender: None }
    }

    /// The workspaces in display order.
    pub fn workspaces(&self) -> (r: &Vec<Workspace>)
        ensures
            r@ == self@,
    {
        &self.workspaces
    }

    /// The compositor activated `id`: that entry becomes active with the given
    /// focus and every other one neither; an unknown id leaves the list as it is.
    fn workspace_activated(&mut self, id: u64, focused: bool)
        ensures
            final(self)@ == activated(old(self)@, id, focused),
            !has_id(old(self)@, id) ==> final(self)@ == old(self)@,
            final(self).connected() == old(self).connected(),
    {
        let n = self.workspaces.len();
        let mut found = false;
        let mut i: usize = 0;
        while i < n
            invariant
                n == self.workspaces.len(),
                i <= n,
                found == exists|j: int| 0 <= j < i && self.workspaces@[j].id == id,
            decreases n - i,
        {
            if self.workspaces[i].id == id {
                found = true;
            }
            i = i + 1;
        }
        if !found {
            return;
        }
        let ghost before = self.workspaces@;
        let mut i: usize = 0;
        while i < n
            invariant
                n == self.workspaces.len(),
                before.len() == n,
                i <= n,
                has_id(before, id),
                self.sender == old(self).sender,
                forall|j: int| #![auto] 0 <= j < i ==> self.workspaces@[j] == activated(before, id, focused)[j],
                forall|j: int| #![auto] i <= j < n ==> self.workspaces@[j] == before[j],
            decreases n - i,
        {
            let w = self.workspaces[i];
            if w.id == id {
                self.workspaces.set(i, Workspace { id: w.id, is_active: true, is_focused: focused });
            } else {
                self.workspaces.set(i, Workspace { id: w.id, is_active: false, is_focused: false });
            }
            i = i + 1;
        }
        assert(self.workspaces@ =~= activated(before, id, focused));
    }

    /// The user picked `id`: that entry becomes active and every other one
    /// inactive, before the compositor hears of it.
    fn select(&mut self, id: u64)
        ensures
            final(self)@ == selected(old(self)@, id),
            final(self).connected() == old(self).connected(),
    {
        let n = self.workspaces.len();
        let ghost before = self.workspaces@;
        let mut i: usize = 0;
        while i < n
            invariant
                n == self.workspaces.len(),
                before.len() == n,
                before == old(self)@,
                i <= n,
                self.sender == old(self).sender,
                forall|j: int| #![auto] 0 <= j < i ==> self.workspaces@[j] == selected(before, id)[j],
                forall|j: int| #![auto] i <= j < n ==> self.workspaces@[j] == before[j],
            decreases n - i,
        {
            let w = self.workspaces[i];
            self.workspaces.set(i, Workspace { id: w.id, is_active: w.id == id, is_focused: w.is_focused });
            i = i + 1;
        }
        assert(self.workspaces@ =~= selected(before, id));
    }

    /// Applies `message` to the state. A user's pick is shown at once and then
    /// queued on the outbound channel, if there is one; the id queued is returned.
    /// A request the far end no longer takes is dropped silently.
    pub fn update(&mut self, message: Message) -> (queued: Option<u64>)
        ensures
            final(self)@ == next_list(old(self)@, message),
            queued == outbound(message, old(self).connected()),
            final(self).connected() == (old(self).connected() || message is Ready),
    {
        match message {
            Message::WorkspaceUpdate(workspaces) => {
                self.workspaces = sort_by_id(&workspaces);
                None
            },
            Message::WorkspaceActivated { id, focused } => {
                self.workspace_activated(id, focused);
                None
            },
            Message::ActivateWorkspace(id) => {
                self.select(id);
                match &self.sender {
                    Some(sender) => {
                        let _ = send_id(sender, id);
                        Some(id)
                    },
                    None => None,
                }
            },
            Message::Ready(sender) => {
                self.sender = Some(sender);
                None
            },
        }
    }
}

} // verus!
