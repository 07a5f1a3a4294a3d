use vstd::prelude::*;
use crate::listing::{key_views, CursorState, ListCursor, ListPage};

verus! {

/// The cursor of a bulk delete after a page: a truncated page always keeps
/// the run going, from its token when it has a non-empty one and otherwise
/// from the first page again (the keys deleted so far are gone, so the
/// listing reaches the rest); only a page that is not truncated ends it.
pub open spec fn delete_cursor_after(truncated: bool, token: Option<Seq<char>>) -> CursorState {
    if !truncated {
        CursorState::Done
    } else if token is Some && token->0.len() > 0 {
        CursorState::HasCursor(token->0)
    } else {
        CursorState::Start
    }
}

/// What a bulk delete does next.
pub enum DeleteStep {
    /// Fetch the listing page from this continuation token (none: the first).
    ListPage(Option<String>),
    /// Delete the object with this key.
    Delete(String),
    /// Every listed key has been deleted.
    Finished,
}

pub struct DeleteView {
    pub cursor: CursorState,
    /// The keys of the current page.
    pub pending: Seq<Seq<char>>,
    /// How many keys of the current page are deleted.
    pub next: nat,
    /// Every key listed so far.
    pub listed: Seq<Seq<char>>,
    /// Every key deleted so far, in order.
    pub deleted: Seq<Seq<char>>,
}

impl DeleteView {
    pub open spec fn wf(self) -> bool {
        &&& self.next <= self.pending.len()
        &&& self.listed == self.deleted + self.pending.skip(self.next as int)
    }
}

/// A bulk delete of a directory: pages through the listing and deletes each
/// listed key, one at a time and in listing order. The caller performs each
/// step; a failed delete ends the run with that failure.
pub struct DeleteAllRun {
    cursor: ListCursor,
    pending: Vec<String>,
    next: usize,
    listed: Ghost<Seq<Seq<char>>>,
    deleted: Ghost<Seq<Seq<char>>>,
}

impl View for DeleteAllRun {
    type V = DeleteView;

    closed spec fn view(&self) -> DeleteView {
        DeleteView {
            cursor: self.cursor@,
            pending: key_views(self.pending@),
            next: self.next as nat,
            listed: self.listed@,
            deleted: self.deleted@,
        }
    }
}

impl DeleteAllRun {
    pub fn new() -> (r: DeleteAllRun)
        ensures
            r@.wf(),
            r@.cursor == CursorState::Start,
            r@.pending == Seq::<Seq<char>>::empty(),
            r@.listed == Seq::<Seq<char>>::empty(),
            r@.deleted == Seq::<Seq<char>>::empty(),
    {
        let r = DeleteAllRun {
            cursor: ListCursor::Start,
            pending: Vec::new(),
            next: 0,
            listed: Ghost(Seq::empty()),
            deleted: Ghost(Seq::empty()),
        };
        assert(key_views(r.pending@) =~= Seq::<Seq<char>>::empty());
        r
    }

    pub fn next_step(&self) -> (r: DeleteStep)
        requires
            self@.wf(),
        ensures
            self@.next < self@.pending.len() ==> r is Delete && r->Delete_0@
                == self@.pending[self@.next as int],
            self@.next == self@.pending.len() && self@.cursor is Start ==> r
                == DeleteStep::ListPage(None),
            self@.next == self@.pending.len() && self@.cursor is HasCursor ==> r is ListPage
                && r->ListPage_0 is Some && r->ListPage_0->0@ == self@.cursor->HasCursor_0,
            self@.next == self@.pending.len() && self@.cursor is Done ==> r is Finished,
            r is Finished ==> self@.deleted == self@.listed,
    {
        assert(key_views(self.pending@).len() == self.pending@.len());
        if self.next < self.pending.len() {
            DeleteStep::Delete(self.pending[self.next].clone())
        } else {
            proof {
                assert(self@.pending.skip(self@.next as int) =~= Seq::<Seq<char>>::empty());
                assert(self@.listed =~= self@.deleted);
            }
            match &self.cursor {
                ListCursor::Start => DeleteStep::ListPage(None),
                ListCursor::HasCursor(t) => DeleteStep::ListPage(Some(t.clone())),
                ListCursor::Done => DeleteStep::Finished,
            }
        }
    }

    /// Takes in the page fetched for a `ListPage` step.
    pub fn page_listed(&mut self, page: ListPage)
        requires
            old(self)@.wf(),
            old(self)@.next == old(self)@.pending.len(),
            !(old(self)@.cursor is Done),
        ensures
            final(self)@.wf(),
            final(self)@.cursor == delete_cursor_after(page@.truncated, page@.token),
            final(self)@.pending == page@.keys,
            final(self)@.next == 0,
            final(self)@.listed == old(self)@.listed + page@.keys,
            final(self)@.deleted == old(self)@.deleted,
    {
        let ghost pv = page@;
        proof {
            assert(old(self)@.pending.skip(old(self)@.next as int) =~= Seq::<Seq<char>>::empty());
        }
        let ListPage { keys, is_truncated, next_token } = page;
        self.pending = keys;
        self.next = 0;
        self.listed = Ghost(self.listed@ + pv.keys);
        self.cursor = if !is_truncated {
            ListCursor::Done
        } else {
            match next_token {
                Some(t) => {
                    if t.unicode_len() > 0 {
                        ListCursor::HasCursor(t)
                    } else {
                        ListCursor::Start
                    }
                },
                None => ListCursor::Start,
            }
        };
        proof {
            assert(self@.pending.skip(0) =~= self@.pending);
        }
    }

    /// Records that the key of a `Delete` step has been deleted.
    pub fn key_deleted(&mut self)
        requires
            old(self)@.wf(),
            old(self)@.next < old(self)@.pending.len(),
        ensures
            final(self)@.wf(),
            final(self)@.cursor == old(self)@.cursor,
            final(self)@.pending == old(self)@.pending,
            final(self)@.next == old(self)@.next + 1,
            final(self)@.listed == old(self)@.listed,
            final(self)@.deleted == old(self)@.deleted.push(
                old(self)@.pending[old(self)@.next as int],
            ),
    {
        let ghost v = self@;
        assert(key_views(self.pending@).len() == self.pending@.len());
        let n = self.pending.len();
        assert(self.next < n);
        self.deleted = Ghost(self.deleted@.push(v.pending[v.next as int]));
        self.next = self.next + 1;
        proof {
            assert(v.pending.skip(v.next as int) =~= seq![v.pending[v.next as int]]
                + v.pending.skip(v.next + 1 as int));
            assert(self@.listed =~= self@.deleted + self@.pending.skip(self@.next as int));
        }
    }
}

/// The keys of a store that lie under `prefix`.
pub open spec fn keys_under(store: Set<Seq<char>>, prefix: Seq<char>) -> Set<Seq<char>> {
    store.filter(|k: Seq<char>| prefix.is_prefix_of(k))
}

/// Once a bulk delete has deleted every key of a complete listing of the
/// directory, nothing is left under its prefix.
pub proof fn lemma_delete_all_empties(
    store: Set<Seq<char>>,
    prefix: Seq<char>,
    listed: Seq<Seq<char>>,
    deleted: Seq<Seq<char>>,
)
    requires
        listed.to_set() == keys_under(store, prefix),
        deleted == listed,
    ensures
        keys_under(store.difference(deleted.to_set()), prefix) == Set::<Seq<char>>::empty(),
{
    assert(keys_under(store.difference(deleted.to_set()), prefix) =~= Set::<Seq<char>>::empty());
}

} // verus!
