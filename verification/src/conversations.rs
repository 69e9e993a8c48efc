//! The arena of conversations, keyed by chat identity. A chat's session is
//! created lazily, with the default state, on its first event, and is only
//! ever mutated by dispatching that chat's own events.

use vstd::prelude::*;
use crate::actions::Action;
use crate::bot::{
    handle_callback, handle_message, initial_session, spec_handle_callback, spec_handle_message,
    Session, SessionV,
};

verus! {

/// The index of the first occurrence of `chat` in `ids`, or `ids.len()`.
pub open spec fn idx_of(ids: Seq<i64>, chat: i64) -> int
    decreases ids.len(),
{
    if ids.len() == 0 {
        0
    } else if ids[0] == chat {
        0
    } else {
        1 + idx_of(ids.drop_first(), chat)
    }
}

pub proof fn lemma_idx_of(ids: Seq<i64>, chat: i64)
    ensures
        0 <= idx_of(ids, chat) <= ids.len(),
        idx_of(ids, chat) < ids.len() ==> ids[idx_of(ids, chat)] == chat,
        forall|j: int| 0 <= j < idx_of(ids, chat) ==> ids[j] != chat,
    decreases ids.len(),
{
    if ids.len() > 0 && ids[0] != chat {
        lemma_idx_of(ids.drop_first(), chat);
        assert forall|j: int| 0 <= j < idx_of(ids, chat) implies ids[j] != chat by {
            if j > 0 {
                assert(ids.drop_first()[j - 1] == ids[j]);
            }
        }
    }
}

pub proof fn lemma_idx_of_is(ids: Seq<i64>, chat: i64, k: int)
    requires
        0 <= k <= ids.len(),
        forall|j: int| 0 <= j < k ==> ids[j] != chat,
        k < ids.len() ==> ids[k] == chat,
    ensures
        idx_of(ids, chat) == k,
    decreases ids.len(),
{
    if ids.len() > 0 && ids[0] != chat {
        assert forall|j: int| 0 <= j < k - 1 implies ids.drop_first()[j] != chat by {
            assert(ids.drop_first()[j] == ids[j + 1]);
        }
        lemma_idx_of_is(ids.drop_first(), chat, k - 1);
    }
}

/// Appending a fresh id leaves every earlier id's first occurrence in place.
pub proof fn lemma_idx_of_push(ids: Seq<i64>, x: i64, chat: i64)
    ensures
        idx_of(ids, chat) < ids.len() ==> idx_of(ids.push(x), chat) == idx_of(ids, chat),
        idx_of(ids, chat) == ids.len() && x == chat ==> idx_of(ids.push(x), chat) == ids.len(),
        idx_of(ids, chat) == ids.len() && x != chat ==> idx_of(ids.push(x), chat) == ids.len() + 1,
{
    lemma_idx_of(ids, chat);
    if idx_of(ids, chat) < ids.len() {
        lemma_idx_of_is(ids.push(x), chat, idx_of(ids, chat));
    } else if x == chat {
        lemma_idx_of_is(ids.push(x), chat, ids.len() as int);
    } else {
        lemma_idx_of_is(ids.push(x), chat, ids.len() as int + 1);
    }
}

/// Every chat's conversation, keyed by chat identity.
pub struct Conversations {
    pub ids: Vec<i64>,
    pub sessions: Vec<Session>,
}

impl Conversations {
    /// One session per chat id, ids never repeated.
    pub open spec fn wf(self) -> bool {
        &&& self.ids@.len() == self.sessions@.len()
        &&& forall|i: int, j: int|
            0 <= i < j < self.ids@.len() ==> self.ids@[i] != self.ids@[j]
    }

    pub open spec fn has_chat(self, chat: i64) -> bool {
        idx_of(self.ids@, chat) < self.ids@.len()
    }

    /// The session this chat is at: its stored one, or the default its first
    /// event would create.
    pub open spec fn spec_session(self, chat: i64) -> SessionV {
        if idx_of(self.ids@, chat) < self.ids@.len() {
            self.sessions@[idx_of(self.ids@, chat)]@
        } else {
            initial_session()
        }
    }

    /// An arena with no conversation yet.
    pub fn new() -> (r: Conversations)
        ensures
            r.wf(),
            forall|c: i64| r.spec_session(c) == initial_session(),
            forall|c: i64| !r.has_chat(c),
    {
        Conversations { ids: Vec::new(), sessions: Vec::new() }
    }

    /// The state this chat's conversation is at, without creating it.
    pub fn state_of(&self, chat: i64) -> (r: crate::bot::State)
        requires
            self.wf(),
        ensures
            r == self.spec_session(chat).state,
    {
        let n = self.ids.len();
        let mut k: usize = 0;
        while k < n
            invariant
                self.wf(),
                n == self.ids@.len(),
                k <= n,
                forall|j: int| 0 <= j < k ==> self.ids@[j] != chat,
            decreases n - k,
        {
            if self.ids[k] == chat {
                proof {
                    lemma_idx_of_is(self.ids@, chat, k as int);
                }
                return self.sessions[k].state;
            }
            k += 1;
        }
        proof {
            lemma_idx_of_is(self.ids@, chat, n as int);
        }
        crate::bot::State::Start
    }

    /// The slot of `chat`, created with the default session on first contact.
    fn ensure_slot(&mut self, chat: i64) -> (i: usize)
        requires
            old(self).wf(),
        ensures
            final(self).wf(),
            i < final(self).ids@.len(),
            final(self).ids@.len() == final(self).sessions@.len(),
            final(self).ids@[i as int] == chat,
            i as int == idx_of(final(self).ids@, chat),
            forall|c: i64| final(self).spec_session(c) == old(self).spec_session(c),
            forall|c: i64| c != chat ==> final(self).has_chat(c) == old(self).has_chat(c),
    {
        let n = self.ids.len();
        let mut k: usize = 0;
        while k < n
            invariant
                self.ids@ == old(self).ids@,
                self.sessions@ == old(self).sessions@,
                old(self).wf(),
                n == self.ids@.len(),
                k <= n,
                forall|j: int| 0 <= j < k ==> self.ids@[j] != chat,
            decreases n - k,
        {
            if self.ids[k] == chat {
                proof {
                    lemma_idx_of_is(self.ids@, chat, k as int);
                }
                return k;
            }
            k += 1;
        }
        proof {
            lemma_idx_of_is(self.ids@, chat, n as int);
        }
        let ghost old_ids = self.ids@;
        let ghost old_sessions = self.sessions@;
        self.ids.push(chat);
        self.sessions.push(Session::new());
        proof {
            assert forall|c: i64| self.spec_session(c) == old(self).spec_session(c) by {
                lemma_idx_of_push(old_ids, chat, c);
                lemma_idx_of(old_ids, c);
            }
            assert forall|c: i64| c != chat implies self.has_chat(c) == old(self).has_chat(c) by {
                lemma_idx_of_push(old_ids, chat, c);
                lemma_idx_of(old_ids, c);
            }
            lemma_idx_of_push(old_ids, chat, chat);
        }
        n
    }

    /// Dispatches one message in its chat's conversation and returns the
    /// actions to perform; every other conversation is untouched.
    pub fn handle_message_in(&mut self, chat: i64, text: &str, handle: &str) -> (acts: Vec<
        Action,
    >)
        requires
            old(self).wf(),
        ensures
            final(self).wf(),
            final(self).spec_session(chat) == spec_handle_message(
                old(self).spec_session(chat),
                text@,
                handle@,
            ).0,
            acts.deep_view() == spec_handle_message(
                old(self).spec_session(chat),
                text@,
                handle@,
            ).1,
            forall|c: i64| c != chat ==> final(self).spec_session(c) == old(self).spec_session(c),
    {
        let i = self.ensure_slot(chat);
        let ghost mid = *self;
        let mut taken = Session::new();
        core::mem::swap(&mut self.sessions[i], &mut taken);
        proof {
            assert(taken@ == mid.spec_session(chat));
        }
        let (next, acts) = handle_message(taken, text, handle);
        let ghost stepped = next@;
        let mut next = next;
        core::mem::swap(&mut self.sessions[i], &mut next);
        proof {
            assert(self.sessions@[i as int]@ == stepped);
            assert(self.spec_session(chat) == stepped);
            self.lemma_other_slots_unchanged(mid, i as int, chat);
        }
        acts
    }

    /// Dispatches one callback in its chat's conversation.
    pub fn handle_callback_in(&mut self, chat: i64, payload: &Option<String>) -> (acts: Vec<
        Action,
    >)
        requires
            old(self).wf(),
        ensures
            final(self).wf(),
            final(self).spec_session(chat) == spec_handle_callback(
                old(self).spec_session(chat),
                payload.deep_view(),
            ).0,
            acts.deep_view() == spec_handle_callback(
                old(self).spec_session(chat),
                payload.deep_view(),
            ).1,
            forall|c: i64| c != chat ==> final(self).spec_session(c) == old(self).spec_session(c),
    {
        let i = self.ensure_slot(chat);
        let ghost mid = *self;
        let mut taken = Session::new();
        core::mem::swap(&mut self.sessions[i], &mut taken);
        proof {
            assert(taken@ == mid.spec_session(chat));
        }
        let (next, acts) = handle_callback(taken, payload);
        let ghost stepped = next@;
        let mut next = next;
        core::mem::swap(&mut self.sessions[i], &mut next);
        proof {
            assert(self.sessions@[i as int]@ == stepped);
            assert(self.spec_session(chat) == stepped);
            self.lemma_other_slots_unchanged(mid, i as int, chat);
        }
        acts
    }

    /// After updating only slot `i`, which holds `chat`, every other chat
    /// still reads its old session.
    proof fn lemma_other_slots_unchanged(self, prev: Conversations, i: int, chat: i64)
        requires
            prev.wf(),
            self.ids@ == prev.ids@,
            self.sessions@.len() == prev.sessions@.len(),
            0 <= i < prev.ids@.len(),
            prev.ids@[i] == chat,
            forall|j: int| 0 <= j < prev.sessions@.len() && j != i ==> self.sessions@[j]
                == prev.sessions@[j],
        ensures
            forall|c: i64| c != chat ==> self.spec_session(c) == prev.spec_session(c),
    {
        assert forall|c: i64| c != chat implies self.spec_session(c) == prev.spec_session(c) by {
            lemma_idx_of(prev.ids@, c);
            if idx_of(prev.ids@, c) < prev.ids@.len() {
                assert(prev.ids@[idx_of(prev.ids@, c)] == c);
            }
        }
    }
}

} // verus!
