use vstd::prelude::*;

verus! {

/// One answer of a paginated fetch: the items in the order the source gave
/// them, whether more remain, and the continuation token for the next call.
pub struct Page<X> {
    pub items: Vec<X>,
    pub more: bool,
    pub next: Option<String>,
}

#[derive(PartialEq, Eq, Structural, Clone, Copy, Debug)]
pub enum PagerStatus {
    /// Another fetch is owed.
    Open,
    /// The last page said that nothing remains.
    Exhausted,
    /// A fetch failed, or a page asked for more without giving a cursor.
    Failed,
}

/// Whether a page with these flags asks for another fetch that can be made.
pub open spec fn continues(more: bool, next: Option<Seq<char>>) -> bool {
    more && next is Some
}

pub open spec fn opt_view(o: Option<String>) -> Option<Seq<char>> {
    match o {
        Some(s) => Some(s@),
        None => None,
    }
}

/// The paginator's state after one more page with these flags.
pub open spec fn advance(
    st: (PagerStatus, Option<Seq<char>>, nat),
    more: bool,
    next: Option<Seq<char>>,
) -> (PagerStatus, Option<Seq<char>>, nat) {
    if !more {
        (PagerStatus::Exhausted, st.1, st.2 + 1)
    } else if next is Some {
        (PagerStatus::Open, next, st.2 + 1)
    } else {
        (PagerStatus::Failed, st.1, st.2 + 1)
    }
}

/// The state of a fresh paginator after it was handed `pages` (their
/// `more` flag and cursor) in order.
pub open spec fn pager_after(pages: Seq<(bool, Option<Seq<char>>)>) -> (
    PagerStatus,
    Option<Seq<char>>,
    nat,
)
    decreases pages.len(),
{
    if pages.len() == 0 {
        (PagerStatus::Open, None, 0)
    } else {
        let last = pages.last();
        advance(pager_after(pages.drop_last()), last.0, last.1)
    }
}

/// Cursor state of one paginated listing. It is only ever advanced by the
/// pages of its own listing, so a cursor never crosses from one listing to
/// another.
pub struct Pager {
    status: PagerStatus,
    cursor: Option<String>,
    calls: Ghost<nat>,
}

impl View for Pager {
    /// Status, the cursor to resume from, and the number of fetches made.
    type V = (PagerStatus, Option<Seq<char>>, nat);

    closed spec fn view(&self) -> (PagerStatus, Option<Seq<char>>, nat) {
        (self.status, opt_view(self.cursor), self.calls@)
    }
}

impl Pager {
    pub fn new() -> (r: Pager)
        ensures
            r@ == (PagerStatus::Open, None::<Seq<char>>, 0nat),
    {
        Pager { status: PagerStatus::Open, cursor: None, calls: Ghost(0) }
    }

    pub fn status(&self) -> (r: PagerStatus)
        ensures
            r == self@.0,
    {
        self.status
    }

    /// The cursor to hand to the next fetch (`None`: start from the
    /// beginning), or nothing when no fetch is owed.
    pub fn request(&self) -> (r: Option<Option<String>>)
        ensures
            r is Some <==> self@.0 == PagerStatus::Open,
            r is Some ==> opt_view(r->0) == self@.1,
    {
        if self.status == PagerStatus::Open {
            match &self.cursor {
                Some(c) => Some(Some(c.clone())),
                None => Some(None),
            }
        } else {
            None
        }
    }

    /// Takes the answer to the fetch that `request` asked for and hands its
    /// items on, unchanged and in order.
    pub fn accept<X>(&mut self, page: Page<X>) -> (r: Vec<X>)
        requires
            old(self)@.0 == PagerStatus::Open,
        ensures
            final(self)@ == advance(old(self)@, page.more, opt_view(page.next)),
            r@ == page.items@,
    {
        self.calls = Ghost(self.calls@ + 1);
        if !page.more {
            self.status = PagerStatus::Exhausted;
        } else {
            match page.next {
                Some(c) => {
                    self.cursor = Some(c);
                },
                None => {
                    self.status = PagerStatus::Failed;
                },
            }
        }
        page.items
    }

    /// Records that the fetch that `request` asked for failed: the listing
    /// ends there.
    pub fn fail(&mut self)
        requires
            old(self)@.0 == PagerStatus::Open,
        ensures
            final(self)@ == (PagerStatus::Failed, old(self)@.1, old(self)@.2 + 1),
    {
        self.calls = Ghost(self.calls@ + 1);
        self.status = PagerStatus::Failed;
    }
}

/// A listing whose pages all ask for more, with a cursor, except the last,
/// which says that nothing remains, is fetched exactly once per page: after
/// every page but the last another fetch is owed, and after the last none is.
pub proof fn lemma_pages_drained(pages: Seq<(bool, Option<Seq<char>>)>)
    requires
        pages.len() >= 1,
        forall|i: int| 0 <= i < pages.len() - 1 ==> continues(#[trigger] pages[i].0, pages[i].1),
        !pages.last().0,
    ensures
        pager_after(pages).0 == PagerStatus::Exhausted,
        pager_after(pages).2 == pages.len(),
        forall|k: int|
            0 <= k < pages.len() ==> (#[trigger] pager_after(pages.subrange(0, k))).0
                == PagerStatus::Open && pager_after(pages.subrange(0, k)).2 == k,
    decreases pages.len(),
{
    assert forall|k: int| 0 <= k < pages.len() implies (#[trigger] pager_after(
        pages.subrange(0, k),
    )).0 == PagerStatus::Open && pager_after(pages.subrange(0, k)).2 == k by {
        lemma_prefix_open(pages, k);
    }
    lemma_prefix_open(pages, pages.len() - 1);
    assert(pages.drop_last() =~= pages.subrange(0, pages.len() - 1));
}

proof fn lemma_prefix_open(pages: Seq<(bool, Option<Seq<char>>)>, k: int)
    requires
        0 <= k < pages.len(),
        forall|i: int| 0 <= i < pages.len() - 1 ==> continues(#[trigger] pages[i].0, pages[i].1),
    ensures
        pager_after(pages.subrange(0, k)).0 == PagerStatus::Open,
        pager_after(pages.subrange(0, k)).2 == k,
    decreases k,
{
    if k > 0 {
        lemma_prefix_open(pages, k - 1);
        let pre = pages.subrange(0, k);
        assert(pre.drop_last() =~= pages.subrange(0, k - 1));
        assert(pre.last() == pages[k - 1]);
        assert(continues(pages[k - 1].0, pages[k - 1].1));
    }
}

} // verus!
