use vstd::prelude::*;
use crate::text::same_text;

verus! {

/// The abstract state of a paginated enumeration.
pub enum CursorState {
    Start,
    HasCursor(Seq<char>),
    Done,
}

/// Where a paginated enumeration stands: before the first page, holding the
/// continuation token of the next page, or finished.
pub enum ListCursor {
    Start,
    HasCursor(String),
    Done,
}

impl View for ListCursor {
    type V = CursorState;

    open spec fn view(&self) -> CursorState {
        match self {
            ListCursor::Start => CursorState::Start,
            ListCursor::HasCursor(t) => CursorState::HasCursor(t@),
            ListCursor::Done => CursorState::Done,
        }
    }
}

pub open spec fn opt_view(o: Option<String>) -> Option<Seq<char>> {
    match o {
        Some(s) => Some(s@),
        None => None,
    }
}

/// The cursor of a listing after a page, given the cursor the page was
/// fetched from: the enumeration goes on only when the page says it was
/// truncated and hands over a non-empty token that differs from the one just
/// used (a repeated token would fetch the same page forever).
pub open spec fn cursor_after(prev: CursorState, truncated: bool, token: Option<Seq<char>>) -> CursorState {
    if truncated && token is Some && token->0.len() > 0 && !(prev is HasCursor
        && prev->HasCursor_0 == token->0) {
        CursorState::HasCursor(token->0)
    } else {
        CursorState::Done
    }
}

pub open spec fn key_views(v: Seq<String>) -> Seq<Seq<char>> {
    v.map_values(|s: String| s@)
}

/// The keys of the listed objects that carry one, in listing order.
pub open spec fn present_keys(objs: Seq<Option<String>>) -> Seq<Seq<char>>
    decreases objs.len(),
{
    if objs.len() == 0 {
        seq![]
    } else {
        let rest = present_keys(objs.drop_last());
        match objs.last() {
            Some(k) => rest.push(k@),
            None => rest,
        }
    }
}

/// One page of a listing response.
pub struct ListPage {
    pub keys: Vec<String>,
    pub is_truncated: bool,
    pub next_token: Option<String>,
}

pub struct PageView {
    pub keys: Seq<Seq<char>>,
    pub truncated: bool,
    pub token: Option<Seq<char>>,
}

impl View for ListPage {
    type V = PageView;

    open spec fn view(&self) -> PageView {
        PageView {
            keys: key_views(self.keys@),
            truncated: self.is_truncated,
            token: opt_view(self.next_token),
        }
    }
}

impl ListPage {
    /// Builds a page from the raw fields of a listing response: the key of
    /// each listed object (objects without one are skipped), the truncation
    /// flag (absent means not truncated) and the continuation token.
    pub fn from_response(
        objects: Vec<Option<String>>,
        is_truncated: Option<bool>,
        next_token: Option<String>,
    ) -> (r: ListPage)
        ensures
            r@.keys == present_keys(objects@),
            r@.truncated == (is_truncated == Some(true)),
            r@.token == opt_view(next_token),
    {
        let mut keys: Vec<String> = Vec::new();
        let mut i: usize = 0;
        while i < objects.len()
            invariant
                i <= objects@.len(),
                key_views(keys@) == present_keys(objects@.subrange(0, i as int)),
            decreases objects@.len() - i,
        {
            proof {
                assert(objects@.subrange(0, i + 1).drop_last() =~= objects@.subrange(0, i as int));
            }
            match &objects[i] {
                Some(k) => {
                    keys.push(k.clone());
                    assert(key_views(keys@) =~= present_keys(objects@.subrange(0, i + 1)));
                },
                None => {},
            }
            i = i + 1;
        }
        assert(objects@.subrange(0, objects@.len() as int) =~= objects@);
        let truncated = match is_truncated {
            Some(b) => b,
            None => false,
        };
        ListPage { keys, is_truncated: truncated, next_token }
    }
}

/// The abstract state of a listing in progress: the keys gathered so far and
/// the cursor.
pub struct ListingView {
    pub keys: Seq<Seq<char>>,
    pub cursor: CursorState,
}

/// The listing state after taking in one page.
pub open spec fn absorbed(l: ListingView, p: PageView) -> ListingView {
    ListingView { keys: l.keys + p.keys, cursor: cursor_after(l.cursor, p.truncated, p.token) }
}

/// Gathers the keys under a prefix across pages, following continuation
/// tokens until a page is not truncated, has no token to continue from, or
/// repeats the token it was fetched with. The caller fetches the page that
/// `next_request` names and hands it to `absorb`.
pub struct KeyListing {
    keys: Vec<String>,
    cursor: ListCursor,
}

impl View for KeyListing {
    type V = ListingView;

    closed spec fn view(&self) -> ListingView {
        ListingView { keys: key_views(self.keys@), cursor: self.cursor@ }
    }
}

impl KeyListing {
    pub fn new() -> (r: KeyListing)
        ensures
            r@.keys == Seq::<Seq<char>>::empty(),
            r@.cursor == CursorState::Start,
    {
        KeyListing { keys: Vec::new(), cursor: ListCursor::Start }
    }

    /// The page to fetch next: `None` when the listing is finished, otherwise
    /// the continuation token to send (none for the first page).
    pub fn next_request(&self) -> (r: Option<Option<String>>)
        ensures
            r is None <==> self@.cursor is Done,
            self@.cursor is Start ==> r == Some(None::<String>),
            self@.cursor is HasCursor ==> (r is Some && r->0 is Some && r->0->0@
                == self@.cursor->HasCursor_0),
    {
        match &self.cursor {
            ListCursor::Start => Some(None),
            ListCursor::HasCursor(t) => Some(Some(t.clone())),
            ListCursor::Done => None,
        }
    }

    pub fn is_finished(&self) -> (r: bool)
        ensures
            r == (self@.cursor is Done),
    {
        match &self.cursor {
            ListCursor::Done => true,
            _ => false,
        }
    }

    /// Takes in the page fetched for `next_request`.
    pub fn absorb(&mut self, page: ListPage)
        requires
            !(old(self)@.cursor is Done),
        ensures
            final(self)@ == absorbed(old(self)@, page@),
    {
        let ghost pv = page@;
        let ListPage { keys: mut page_keys, is_truncated, next_token } = page;
        let ghost before = self.keys@;
        self.keys.append(&mut page_keys);
        assert(key_views(self.keys@) =~= key_views(before) + pv.keys);
        let repeated = match (&self.cursor, &next_token) {
            (ListCursor::HasCursor(prev), Some(t)) => same_text(prev.as_str(), t.as_str()),
            _ => false,
        };
        self.cursor = match next_token {
            Some(t) => {
                if is_truncated && t.unicode_len() > 0 && !repeated {
                    ListCursor::HasCursor(t)
                } else {
                    ListCursor::Done
                }
            },
            None => ListCursor::Done,
        };
    }

    /// The keys gathered so far, in listing order.
    pub fn into_keys(self) -> (r: Vec<String>)
        ensures
            key_views(r@) == self@.keys,
    {
        self.keys
    }
}

/// The listing state after taking in each page in turn.
pub open spec fn absorb_all(l: ListingView, pages: Seq<PageView>) -> ListingView
    decreases pages.len(),
{
    if pages.len() == 0 {
        l
    } else {
        absorb_all(absorbed(l, pages[0]), pages.drop_first())
    }
}

/// The keys of the pages, concatenated in order.
pub open spec fn page_keys(pages: Seq<PageView>) -> Seq<Seq<char>>
    decreases pages.len(),
{
    if pages.len() == 0 {
        seq![]
    } else {
        pages[0].keys + page_keys(pages.drop_first())
    }
}

pub open spec fn fresh_listing() -> ListingView {
    ListingView { keys: seq![], cursor: CursorState::Start }
}

/// A listing gathers exactly the keys of its pages, in page order.
pub proof fn lemma_absorb_all_keys(l: ListingView, pages: Seq<PageView>)
    ensures
        absorb_all(l, pages).keys == l.keys + page_keys(pages),
    decreases pages.len(),
{
    if pages.len() == 0 {
        assert(l.keys + page_keys(pages) =~= l.keys);
    } else {
        lemma_absorb_all_keys(absorbed(l, pages[0]), pages.drop_first());
        assert(l.keys + pages[0].keys + page_keys(pages.drop_first()) =~= l.keys + (pages[0].keys
            + page_keys(pages.drop_first())));
    }
}

/// Pagination is transparent: keys split over any number of pages are
/// gathered into the same keys, in the same order, as one page holding them
/// all, and so into the same set.
pub proof fn lemma_pagination_transparent(pages: Seq<PageView>, keys: Seq<Seq<char>>)
    requires
        page_keys(pages) == keys,
    ensures
        absorb_all(fresh_listing(), pages).keys == absorb_all(
            fresh_listing(),
            seq![PageView { keys, truncated: false, token: None }],
        ).keys,
        absorb_all(fresh_listing(), pages).keys.to_set() == absorb_all(
            fresh_listing(),
            seq![PageView { keys, truncated: false, token: None }],
        ).keys.to_set(),
{
    let single = seq![PageView { keys, truncated: false, token: None }];
    lemma_absorb_all_keys(fresh_listing(), pages);
    lemma_absorb_all_keys(fresh_listing(), single);
    assert(single.drop_first() =~= Seq::<PageView>::empty());
    assert(page_keys(single.drop_first()) =~= Seq::<Seq<char>>::empty());
    assert(page_keys(single) =~= keys);
    assert(fresh_listing().keys + keys =~= keys);
}

} // verus!
