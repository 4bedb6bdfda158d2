use vstd::prelude::*;

use crate::applet::{next_list, outbound, replay, Message};
use crate::workspace::{
    at_most_one_active, has_id, ids_unique, lemma_sort_keeps_single_active, sorted_by_id, Workspace,
};

verus! {

/// Replaying a run of messages is replaying its first `k`, then the rest.
pub proof fn lemma_replay_split(s: Seq<Workspace>, ms: Seq<Message>, k: int)
    requires
        0 <= k <= ms.len(),
    ensures
        replay(s, ms) == replay(replay(s, ms.take(k)), ms.skip(k)),
    decreases k,
{
    if k == 0 {
        assert(ms.take(0) =~= Seq::<Message>::empty());
        assert(ms.skip(0) =~= ms);
    } else {
        lemma_replay_split(next_list(s, ms[0]), ms.drop_first(), k - 1);
        assert(ms.take(k).drop_first() =~= ms.drop_first().take(k - 1));
        assert(ms.take(k)[0] == ms[0]);
        assert(ms.drop_first().skip(k - 1) =~= ms.skip(k));
    }
}

/// Whatever the list held before, after a run of messages whose last full
/// update is `ms[k]` the list is that update sorted by id, with each later
/// message applied on top of it in order.
pub proof fn lemma_last_update_wins(s: Seq<Workspace>, ms: Seq<Message>, k: int)
    requires
        0 <= k < ms.len(),
        ms[k] is WorkspaceUpdate,
        forall|j: int| k < j < ms.len() ==> !(ms[j] is WorkspaceUpdate),
    ensures
        replay(s, ms) == replay(sorted_by_id(ms[k]->WorkspaceUpdate_0@), ms.skip(k + 1)),
{
    lemma_replay_split(s, ms, k);
    let t = ms.skip(k);
    assert(t[0] == ms[k]);
    assert(t.drop_first() =~= ms.skip(k + 1));
}

/// A compositor activation of an id that the list does not hold leaves the list as it is.
pub proof fn lemma_unknown_activation_is_noop(s: Seq<Workspace>, id: u64, focused: bool)
    requires
        !has_id(s, id),
    ensures
        next_list(s, Message::WorkspaceActivated { id, focused }) == s,
{
}

/// A user's pick of `id` marks that workspace active and every other one
/// inactive in the very step that handles it, keeping ids, order and focus,
/// and the same step queues `id` once the outbound channel is there.
pub proof fn lemma_pick_is_immediate(s: Seq<Workspace>, id: u64, connected: bool)
    ensures
        next_list(s, Message::ActivateWorkspace(id)).len() == s.len(),
        forall|i: int|
            0 <= i < s.len() ==> {
                let w = #[trigger] next_list(s, Message::ActivateWorkspace(id))[i];
                &&& w.is_active == (s[i].id == id)
                &&& w.id == s[i].id
                &&& w.is_focused == s[i].is_focused
            },
        outbound(Message::ActivateWorkspace(id), connected) == (if connected {
            Some(id)
        } else {
            None::<u64>
        }),
{
}

/// Every full update in `ms` lists each id once and has at most one active workspace.
pub open spec fn updates_well_formed(ms: Seq<Message>) -> bool {
    forall|j: int|
        0 <= j < ms.len() && (#[trigger] ms[j]) is WorkspaceUpdate ==> {
            let l = ms[j]->WorkspaceUpdate_0@;
            at_most_one_active(l) && ids_unique(l)
        }
}

proof fn lemma_step_keeps_single_active(s: Seq<Workspace>, m: Message)
    requires
        at_most_one_active(s),
        ids_unique(s),
        m is WorkspaceUpdate ==> at_most_one_active(m->WorkspaceUpdate_0@) && ids_unique(
            m->WorkspaceUpdate_0@,
        ),
    ensures
        at_most_one_active(next_list(s, m)),
        ids_unique(next_list(s, m)),
{
    let t = next_list(s, m);
    match m {
        Message::WorkspaceUpdate(l) => {
            lemma_sort_keeps_single_active(l@);
        },
        Message::WorkspaceActivated { id, focused } => {
            if has_id(s, id) {
                assert forall|i: int, j: int|
                    0 <= i < t.len() && 0 <= j < t.len() && t[i].is_active && t[j].is_active implies i
                    == j by {
                    assert(s[i].id == id && s[j].id == id);
                }
                assert forall|i: int, j: int|
                    0 <= i < t.len() && 0 <= j < t.len() && t[i].id == t[j].id implies i == j by {
                    assert(s[i].id == s[j].id);
                }
            }
        },
        Message::ActivateWorkspace(id) => {
            assert forall|i: int, j: int|
                0 <= i < t.len() && 0 <= j < t.len() && t[i].is_active && t[j].is_active implies i
                == j by {
                assert(s[i].id == id && s[j].id == id);
            }
            assert forall|i: int, j: int|
                0 <= i < t.len() && 0 <= j < t.len() && t[i].id == t[j].id implies i == j by {
                assert(s[i].id == s[j].id);
            }
        },
        Message::Ready(_) => {},
    }
}

proof fn lemma_replay_keeps_single_active(s: Seq<Workspace>, ms: Seq<Message>)
    requires
        at_most_one_active(s),
        ids_unique(s),
        updates_well_formed(ms),
    ensures
        at_most_one_active(replay(s, ms)),
        ids_unique(replay(s, ms)),
    decreases ms.len(),
{
    if ms.len() > 0 {
        assert(ms[0] == ms[0]);
        lemma_step_keeps_single_active(s, ms[0]);
        assert forall|j: int|
            0 <= j < ms.drop_first().len() && (#[trigger] ms.drop_first()[j]) is WorkspaceUpdate implies {
            let l = ms.drop_first()[j]->WorkspaceUpdate_0@;
            at_most_one_active(l) && ids_unique(l)
        } by {
            assert(ms.drop_first()[j] == ms[j + 1]);
        }
        lemma_replay_keeps_single_active(next_list(s, ms[0]), ms.drop_first());
    }
}

/// Starting from the empty list, after any run of compositor events, user
/// picks and handshakes, at most one workspace is active, provided each full
/// update from the compositor lists each id once with at most one active.
pub proof fn lemma_at_most_one_active(ms: Seq<Message>)
    requires
        updates_well_formed(ms),
    ensures
        at_most_one_active(replay(Seq::<Workspace>::empty(), ms)),
{
    lemma_replay_keeps_single_active(Seq::<Workspace>::empty(), ms);
}

} // verus!
