//! The tracked-group lookup: which chats the parser listens to.
//!
//! The lookup is built once at startup from the configured chat ids
//! and the chat descriptors the session layer enumerates; afterwards
//! it only answers membership queries.

use vstd::prelude::*;

verus! {

/// A chat, channel or group the parser tracks.
#[derive(Debug, Clone, PartialEq)]
pub struct TelegramGroup {
    /// The chat's identifier.
    pub telegram_id: i64,
    /// The chat's display name.
    pub name: String,
}

/// Whether `gs` holds an entry with chat id `id`.
pub open spec fn groups_contain(gs: Seq<TelegramGroup>, id: i64) -> bool {
    exists|k: int| 0 <= k < gs.len() && (#[trigger] gs[k]).telegram_id == id
}

/// Whether the chat ids of `gs` are pairwise distinct.
pub open spec fn distinct_ids(gs: Seq<TelegramGroup>) -> bool {
    forall|k1: int, k2: int|
        0 <= k1 < k2 < gs.len() ==> (#[trigger] gs[k1]).telegram_id != (
        #[trigger] gs[k2]).telegram_id
}

/// Read-only lookup of tracked groups by chat id.
#[derive(Debug, Clone, PartialEq)]
pub struct GroupFilter {
    /// The tracked groups; ids are pairwise distinct.
    pub groups: Vec<TelegramGroup>,
}

impl GroupFilter {
    /// Whether a tracked group with this chat id exists.
    pub open spec fn spec_contains(self, chat_id: i64) -> bool {
        groups_contain(self.groups@, chat_id)
    }

    /// Each chat id occurs at most once.
    pub open spec fn wf(self) -> bool {
        distinct_ids(self.groups@)
    }

    /// Build the lookup from the configured chat ids and the chats the
    /// session layer enumerated: a chat is tracked exactly when its id
    /// is configured and a chat with that id was seen; each kept entry
    /// is one of the seen chats.
    pub fn init_tracked_groups(chat_ids: &Vec<i64>, dialogs: Vec<TelegramGroup>) -> (r:
        GroupFilter)
        ensures
            r.wf(),
            forall|id: i64|
                r.spec_contains(id) <==> (chat_ids@.contains(id) && groups_contain(
                    dialogs@,
                    id,
                )),
            forall|k: int|
                0 <= k < r.groups@.len() ==> dialogs@.contains(#[trigger] r.groups@[k]),
    {
        let mut out: Vec<TelegramGroup> = Vec::new();
        let n = dialogs.len();
        let mut i: usize = 0;
        while i < n
            invariant
                i <= n,
                n == dialogs@.len(),
                distinct_ids(out@),
                forall|id: i64|
                    groups_contain(out@, id) <==> (chat_ids@.contains(id) && groups_contain(
                        dialogs@.take(i as int),
                        id,
                    )),
                forall|k: int| 0 <= k < out@.len() ==> dialogs@.contains(#[trigger] out@[k]),
            decreases n - i,
        {
            let id = dialogs[i].telegram_id;
            let is_tracked = contains_id(chat_ids, id);
            let present = has_group_with_id(&out, id);
            let ghost pre = out@;
            if is_tracked && !present {
                let entry = TelegramGroup { telegram_id: id, name: dialogs[i].name.clone() };
                assert(entry == dialogs@[i as int]);
                out.push(entry);
            }
            proof {
                let head = dialogs@.take(i + 1);
                if is_tracked && !present {
                    // the pushed entry keeps ids distinct and lies
                    // among the dialogs
                    assert forall|k1: int, k2: int| 0 <= k1 < k2 < out@.len() implies (
                        #[trigger] out@[k1]).telegram_id != (#[trigger] out@[k2]).telegram_id by {
                        if k2 == pre.len() {
                            if out@[k1].telegram_id == id {
                                assert(groups_contain(pre, id));
                            }
                        }
                    }
                    assert(dialogs@.contains(out@[pre.len() as int])) by {
                        assert(out@[pre.len() as int] == dialogs@[i as int]);
                    }
                }
                // membership after one more dialog: the kept entries
                // answer exactly for configured ids seen so far
                assert forall|id2: i64|
                    groups_contain(out@, id2) <==> (chat_ids@.contains(id2) && groups_contain(
                        head,
                        id2,
                    )) by {
                    if groups_contain(out@, id2) {
                        let k = choose|k: int|
                            0 <= k < out@.len() && (#[trigger] out@[k]).telegram_id == id2;
                        if k < pre.len() {
                            assert(pre[k].telegram_id == id2);
                            assert(groups_contain(pre, id2));
                            let j = choose|j: int|
                                0 <= j < i && (#[trigger] dialogs@.take(
                                    i as int,
                                )[j]).telegram_id == id2;
                            assert(head[j].telegram_id == id2);
                        } else {
                            assert(out@[k] == dialogs@[i as int]);
                            assert(head[i as int].telegram_id == id2);
                        }
                        assert(groups_contain(head, id2));
                    }
                    if chat_ids@.contains(id2) && groups_contain(head, id2) {
                        let k = choose|k: int|
                            0 <= k < head.len() && (#[trigger] head[k]).telegram_id == id2;
                        if k < i {
                            assert(dialogs@.take(i as int)[k].telegram_id == id2);
                            assert(groups_contain(dialogs@.take(i as int), id2));
                            assert(groups_contain(pre, id2));
                            let j = choose|j: int|
                                0 <= j < pre.len() && (#[trigger] pre[j]).telegram_id == id2;
                            assert(out@[j].telegram_id == id2);
                        } else {
                            assert(head[k] == dialogs@[i as int]);
                            assert(id2 == id);
                            if present {
                                let j = choose|j: int|
                                    0 <= j < pre.len() && (#[trigger] pre[j]).telegram_id == id;
                                assert(out@[j].telegram_id == id2);
                            } else {
                                assert(out@[pre.len() as int].telegram_id == id2);
                            }
                        }
                        assert(groups_contain(out@, id2));
                    }
                }
            }
            i = i + 1;
        }
        proof {
            assert(dialogs@.take(n as int) == dialogs@);
        }
        GroupFilter { groups: out }
    }

    /// Whether messages from this chat are tracked.
    pub fn accepts(&self, chat_id: i64) -> (r: bool)
        ensures
            r == self.spec_contains(chat_id),
    {
        has_group_with_id(&self.groups, chat_id)
    }
}

/// Whether `ids` holds `x`.
fn contains_id(ids: &Vec<i64>, x: i64) -> (r: bool)
    ensures
        r == ids@.contains(x),
{
    let n = ids.len();
    let mut i: usize = 0;
    while i < n
        invariant
            i <= n,
            n == ids@.len(),
            forall|k: int| 0 <= k < i ==> ids@[k] != x,
        decreases n - i,
    {
        if ids[i] == x {
            assert(ids@[i as int] == x);
            return true;
        }
        i = i + 1;
    }
    false
}

/// Whether `groups` holds an entry with this chat id.
fn has_group_with_id(groups: &Vec<TelegramGroup>, id: i64) -> (r: bool)
    ensures
        r == groups_contain(groups@, id),
{
    let n = groups.len();
    let mut i: usize = 0;
    while i < n
        invariant
            i <= n,
            n == groups@.len(),
            forall|k: int| 0 <= k < i ==> (#[trigger] groups@[k]).telegram_id != id,
        decreases n - i,
    {
        if groups[i].telegram_id == id {
            assert((groups@[i as int]).telegram_id == id);
            return true;
        }
        i = i + 1;
    }
    false
}

} // verus!
