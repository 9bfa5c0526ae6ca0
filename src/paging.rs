use vstd::prelude::*;

verus! {

/// One page of a cursor-paginated answer: its items in order, the cursor
/// that follows it, and whether the server says more pages follow.
pub struct Page<T> {
    pub items: Vec<T>,
    pub end_cursor: Option<String>,
    pub has_next_page: bool,
}

/// The cursor of a page, as text.
pub open spec fn cursor_view(c: Option<String>) -> Option<Seq<char>> {
    match c {
        Some(s) => Some(s@),
        None => None,
    }
}

/// What a paginated fetch has seen so far: the items gathered, the cursor for
/// the next request, whether it has stopped, and the cursor each answered
/// request was sent with, in order.
pub struct PagerState<T> {
    pub items: Seq<T>,
    pub cursor: Option<Seq<char>>,
    pub done: bool,
    pub sent: Seq<Option<Seq<char>>>,
}

/// A fetch that has made no request yet.
pub open spec fn initial_state<T>() -> PagerState<T> {
    PagerState { items: Seq::empty(), cursor: None, done: false, sent: Seq::empty() }
}

/// A page stops the fetch when it says no more pages follow, or gives no
/// cursor to ask for them with.
pub open spec fn page_stops<T>(p: Page<T>) -> bool {
    !p.has_next_page || p.end_cursor is None
}

/// The state after the answer to one request.
pub open spec fn absorb_spec<T>(s: PagerState<T>, p: Page<T>) -> PagerState<T> {
    PagerState {
        items: s.items + p.items@,
        cursor: cursor_view(p.end_cursor),
        done: page_stops(p),
        sent: s.sent.push(s.cursor),
    }
}

/// The state after a server answers the requests, one after another, with
/// the given pages, until the fetch stops or the pages run out.
pub open spec fn run<T>(s: PagerState<T>, pages: Seq<Page<T>>) -> PagerState<T>
    decreases pages.len(),
{
    if s.done || pages.len() == 0 {
        s
    } else {
        run(absorb_spec(s, pages[0]), pages.drop_first())
    }
}

/// The items of the pages, one page after another.
pub open spec fn concat_items<T>(pages: Seq<Page<T>>) -> Seq<T>
    decreases pages.len(),
{
    if pages.len() == 0 {
        Seq::empty()
    } else {
        pages[0].items@ + concat_items(pages.drop_first())
    }
}

/// The cursors that the requests after the first are sent with: that of
/// each page but the last.
pub open spec fn follow_cursors<T>(pages: Seq<Page<T>>) -> Seq<Option<Seq<char>>>
    decreases pages.len(),
{
    if pages.len() <= 1 {
        Seq::empty()
    } else {
        seq![cursor_view(pages[0].end_cursor)] + follow_cursors(pages.drop_first())
    }
}

/// The driver of a paginated fetch: it says which cursor to send next, takes
/// each answer, and stops on the first page that ends the stream.
pub struct Pager<T> {
    items: Vec<T>,
    cursor: Option<String>,
    done: bool,
    sent: Ghost<Seq<Option<Seq<char>>>>,
}

impl<T> Pager<T> {
    pub closed spec fn view(&self) -> PagerState<T> {
        PagerState {
            items: self.items@,
            cursor: cursor_view(self.cursor),
            done: self.done,
            sent: self.sent@,
        }
    }

    pub fn new() -> (r: Pager<T>)
        ensures
            r.view() == initial_state::<T>(),
    {
        Pager { items: Vec::new(), cursor: None, done: false, sent: Ghost(Seq::empty()) }
    }

    /// Whether the fetch has stopped.
    pub fn is_done(&self) -> (r: bool)
        ensures
            r == self.view().done,
    {
        self.done
    }

    /// The cursor the next request is sent with.
    pub fn cursor(&self) -> (r: Option<String>)
        ensures
            cursor_view(r) == self.view().cursor,
    {
        match &self.cursor {
            Some(c) => Some(c.clone()),
            None => None,
        }
    }

    /// Takes the answer to the request sent with the current cursor.
    pub fn absorb(&mut self, page: Page<T>)
        requires
            !old(self).view().done,
        ensures
            final(self).view() == absorb_spec(old(self).view(), page),
    {
        let ghost p = page;
        let ghost before = self.view();
        let Page { items, end_cursor, has_next_page } = page;
        let mut items = items;
        self.items.append(&mut items);
        self.done = !has_next_page || end_cursor.is_none();
        self.cursor = end_cursor;
        self.sent = Ghost(before.sent.push(before.cursor));
        assert(self.view() == absorb_spec(before, p));
    }

    /// The items gathered, in the order they came.
    pub fn into_items(self) -> (r: Vec<T>)
        ensures
            r@ == self.view().items,
    {
        self.items
    }
}

/// A fetch that has not stopped, answered with pages of which all but the
/// n-th say more follow and give a cursor, and the n-th ends the stream,
/// makes exactly n requests, whatever pages come after: the first with its
/// current cursor, each next one with the cursor of the page before. It
/// gathers the items of those n pages, in order.
pub proof fn lemma_run_stops<T>(s: PagerState<T>, pages: Seq<Page<T>>, n: nat)
    requires
        !s.done,
        1 <= n <= pages.len(),
        forall|k: int| 0 <= k < n - 1 ==> !page_stops(#[trigger] pages[k]),
        page_stops(pages[n - 1]),
    ensures
        run(s, pages) == (PagerState {
            items: s.items + concat_items(pages.take(n as int)),
            cursor: cursor_view(pages[n - 1].end_cursor),
            done: true,
            sent: s.sent.push(s.cursor) + follow_cursors(pages.take(n as int)),
        }),
    decreases n,
{
    let s1 = absorb_spec(s, pages[0]);
    let rest = pages.drop_first();
    let first = pages.take(n as int);
    assert(first.drop_first() =~= rest.take(n - 1));
    assert(first[0] == pages[0]);
    if n == 1 {
        assert(run(s1, rest) == s1);
        assert(first.drop_first() =~= Seq::<Page<T>>::empty());
        assert(concat_items(first.drop_first()) =~= Seq::<T>::empty());
        assert(concat_items(first) =~= pages[0].items@);
        assert(follow_cursors(first) =~= Seq::<Option<Seq<char>>>::empty());
        assert(s1.items =~= s.items + concat_items(first));
        assert(s1.sent =~= s.sent.push(s.cursor) + follow_cursors(first));
    } else {
        assert(!page_stops(pages[0]));
        assert forall|k: int| 0 <= k < n - 1 - 1 implies !page_stops(#[trigger] rest[k]) by {
            assert(rest[k] == pages[k + 1]);
        }
        lemma_run_stops(s1, rest, (n - 1) as nat);
        assert(rest[n - 2] == pages[n - 1]);
        assert(s1.items + concat_items(rest.take(n - 1)) =~= s.items + concat_items(first));
        assert(follow_cursors(first) =~= seq![cursor_view(pages[0].end_cursor)] + follow_cursors(rest.take(n - 1)));
        assert(s1.sent.push(s1.cursor) + follow_cursors(rest.take(n - 1)) =~= s.sent.push(s.cursor) + follow_cursors(first));
    }
}

/// From a new fetch, pages of which the first n - 1 each say more follow and
/// give a cursor while the n-th says none follow, or gives no cursor, lead to
/// exactly n requests: the first with no cursor, each next one with the
/// cursor of the page before. The fetch then holds the n pages' items in
/// request order.
pub proof fn lemma_pagination_terminates<T>(pages: Seq<Page<T>>, n: nat)
    requires
        1 <= n <= pages.len(),
        forall|k: int| 0 <= k < n - 1 ==> !page_stops(#[trigger] pages[k]),
        page_stops(pages[n - 1]),
    ensures
        run(initial_state::<T>(), pages).done,
        run(initial_state::<T>(), pages).sent.len() == n,
        run(initial_state::<T>(), pages).sent == seq![None::<Seq<char>>] + follow_cursors(pages.take(n as int)),
        run(initial_state::<T>(), pages).items == concat_items(pages.take(n as int)),
{
    lemma_run_stops(initial_state::<T>(), pages, n);
    let s0 = initial_state::<T>();
    assert(s0.items + concat_items(pages.take(n as int)) =~= concat_items(pages.take(n as int)));
    assert(s0.sent.push(s0.cursor) =~= seq![None::<Seq<char>>]);
    lemma_follow_len(pages.take(n as int));
}

proof fn lemma_follow_len<T>(pages: Seq<Page<T>>)
    requires
        pages.len() >= 1,
    ensures
        follow_cursors(pages).len() == pages.len() - 1,
    decreases pages.len(),
{
    if pages.len() > 1 {
        lemma_follow_len(pages.drop_first());
    }
}

} // verus!
