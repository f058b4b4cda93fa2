use vstd::prelude::*;
use crate::pager::{Page, Pager, PagerStatus, advance, opt_view};
use crate::mirror::{Namespace, key_of, entity_key};

verus! {

/// An item of a listing: its identity and its payload, which is carried
/// through untouched.
pub struct Listed<X> {
    pub id: String,
    pub body: X,
}

#[derive(PartialEq, Eq, Structural, Clone, Copy, Debug)]
pub enum OutcomeKind {
    /// Written with its complete child sequence.
    Written,
    /// The first child fetch failed: written without children.
    WrittenWithoutChildren,
    /// A later child fetch failed, or a child page was malformed: not written.
    ExpansionFailed,
    /// The write itself failed.
    WriteFailed,
}

pub open spec fn is_warning(k: OutcomeKind) -> bool {
    k != OutcomeKind::Written
}

/// What became of one entity of a collection.
pub struct Outcome {
    pub id: String,
    pub kind: OutcomeKind,
}

/// What the caller is to do next for the collection being walked.
pub enum Step<E, B> {
    /// Fetch the next page of the collection's entity listing.
    ListEntities { cursor: Option<String> },
    /// Fetch the next page of this entity's children.
    FetchChildren { entity: String, cursor: Option<String> },
    /// Persist this entity under `key`; `children` is absent when the first
    /// child fetch failed.
    WriteEntity { key: String, body: E, children: Option<Vec<B>> },
    /// The walk is over: call `finish`.
    Done,
}

/// Which answer the walk waits for.
#[derive(PartialEq, Eq, Structural, Clone, Copy, Debug)]
pub enum Awaiting {
    Nothing,
    Listing,
    Children,
    Write,
}

pub open spec fn ids_of<X>(s: Seq<Listed<X>>) -> Seq<Seq<char>> {
    s.map_values(|l: Listed<X>| l.id@)
}

pub open spec fn outcome_ids(s: Seq<Outcome>) -> Seq<Seq<char>> {
    s.map_values(|o: Outcome| o.id@)
}

/// The pages of a listing joined in the order they came.
pub open spec fn joined<X>(pages: Seq<Seq<X>>) -> Seq<X>
    decreases pages.len(),
{
    if pages.len() == 0 {
        Seq::empty()
    } else {
        joined(pages.drop_last()) + pages.last()
    }
}

/// The summary of one collection's walk.
pub struct CollectionReport {
    pub collection: String,
    /// Every page of the entity listing was fetched.
    pub listing_complete: bool,
    /// One outcome per listed entity, in listing order.
    pub outcomes: Vec<Outcome>,
}

/// Listing walker of one collection. It pages through the entity listing,
/// and takes each listed entity in turn through its own child expansion and
/// its write before it asks for the next listing page.
pub struct CollectionWalk<E, B> {
    collection: String,
    listing: Pager,
    pending: Vec<Listed<E>>,
    stub: Option<Listed<E>>,
    children: Vec<B>,
    child_pager: Pager,
    /// A child page of the entity in expansion has arrived.
    child_started: bool,
    writing: Option<String>,
    writing_kind: OutcomeKind,
    awaiting: Awaiting,
    outcomes: Vec<Outcome>,
    /// Identities of all entities the listing has yielded, in order.
    listed: Ghost<Seq<Seq<char>>>,
    /// The child pages of the entity in expansion.
    child_pages: Ghost<Seq<Seq<B>>>,
    /// The entity whose child page gave the child cursor.
    cursor_owner: Ghost<Option<Seq<char>>>,
}

impl<E, B> CollectionWalk<E, B> {
    pub closed spec fn collection(&self) -> Seq<char> {
        self.collection@
    }

    pub closed spec fn awaiting(&self) -> Awaiting {
        self.awaiting
    }

    pub closed spec fn listing(&self) -> (PagerStatus, Option<Seq<char>>, nat) {
        self.listing@
    }

    pub closed spec fn expansion(&self) -> (PagerStatus, Option<Seq<char>>, nat) {
        self.child_pager@
    }

    pub closed spec fn listed(&self) -> Seq<Seq<char>> {
        self.listed@
    }

    pub closed spec fn outcomes(&self) -> Seq<Outcome> {
        self.outcomes@
    }

    pub open spec fn pending(&self) -> Seq<Seq<char>> {
        ids_of(self.pending_items())
    }

    /// The entity in expansion, if any.
    pub open spec fn expanding(&self) -> Option<Seq<char>> {
        match self.in_hand() {
            Some(s) => Some(s.id@),
            None => None,
        }
    }

    /// The entity being written, if any.
    pub closed spec fn in_write(&self) -> Option<Seq<char>> {
        match self.writing {
            Some(w) => Some(w@),
            None => None,
        }
    }

    /// The entity in expansion, with its payload.
    pub closed spec fn in_hand(&self) -> Option<Listed<E>> {
        self.stub
    }

    /// The listed entities that wait their turn, with their payloads.
    pub closed spec fn pending_items(&self) -> Seq<Listed<E>> {
        self.pending@
    }

    /// The outcome that the write in progress records if it succeeds.
    pub closed spec fn write_kind(&self) -> OutcomeKind {
        self.writing_kind
    }

    pub closed spec fn child_pages(&self) -> Seq<Seq<B>> {
        self.child_pages@
    }

    pub closed spec fn cursor_owner(&self) -> Option<Seq<char>> {
        self.cursor_owner@
    }

    pub open spec fn current(&self) -> Seq<Seq<char>> {
        match self.expanding() {
            Some(id) => seq![id],
            None => match self.in_write() {
                Some(id) => seq![id],
                None => Seq::empty(),
            },
        }
    }

    /// Nothing is left to do: no entity in hand and no listing page owed.
    pub open spec fn is_done(&self) -> bool {
        &&& self.awaiting() == Awaiting::Nothing
        &&& self.expanding() is None
        &&& self.pending().len() == 0
        &&& self.listing().0 != PagerStatus::Open
    }

    pub closed spec fn wf(&self) -> bool {
        &&& self.awaiting == Awaiting::Listing ==> {
            &&& self.stub is None
            &&& self.writing is None
            &&& self.pending@.len() == 0
            &&& self.listing@.0 == PagerStatus::Open
        }
        &&& self.awaiting == Awaiting::Children ==> {
            &&& self.stub is Some
            &&& self.writing is None
            &&& self.child_pager@.0 == PagerStatus::Open
        }
        &&& self.awaiting == Awaiting::Write ==> self.writing is Some && self.stub is None
        &&& self.awaiting == Awaiting::Nothing ==> self.writing is None
        &&& self.writing is Some ==> self.awaiting == Awaiting::Write
        &&& self.writing is Some ==> self.writing_kind == OutcomeKind::Written
            || self.writing_kind == OutcomeKind::WrittenWithoutChildren
        &&& self.stub is Some ==> {
            &&& self.children@ == joined(self.child_pages@)
            &&& self.child_started == (self.child_pages@.len() > 0)
            &&& self.child_pager@.0 != PagerStatus::Failed ==> self.child_pages@.len()
                == self.child_pager@.2
            &&& self.child_pager@.0 == PagerStatus::Failed ==> self.child_pager@.2 == 1
                && self.child_pages@.len() == 0
            &&& self.child_pager@.1 is Some ==> self.cursor_owner@ == Some(
                self.stub->0.id@,
            )
        }
        &&& outcome_ids(self.outcomes@) + self.current() + ids_of(self.pending@) == self.listed@
    }

    /// A walk of the collection `collection` that has fetched nothing yet.
    pub fn new(collection: String) -> (r: Self)
        ensures
            r.wf(),
            r.collection() == collection@,
            r.awaiting() == Awaiting::Nothing,
            r.listing() == (PagerStatus::Open, None::<Seq<char>>, 0nat),
            r.listed() == Seq::<Seq<char>>::empty(),
            r.outcomes() == Seq::<Outcome>::empty(),
            r.pending() == Seq::<Seq<char>>::empty(),
            r.expanding() is None,
    {
        let r = CollectionWalk {
            collection,
            listing: Pager::new(),
            pending: Vec::new(),
            stub: None,
            children: Vec::new(),
            child_pager: Pager::new(),
            child_started: false,
            writing: None,
            writing_kind: OutcomeKind::Written,
            awaiting: Awaiting::Nothing,
            outcomes: Vec::new(),
            listed: Ghost(Seq::empty()),
            child_pages: Ghost(Seq::empty()),
            cursor_owner: Ghost(None),
        };
        assert(outcome_ids(r.outcomes@) =~= Seq::empty());
        assert(ids_of(r.pending@) =~= Seq::empty());
        r
    }

    /// Which answer the walk waits for.
    pub fn waiting_for(&self) -> (r: Awaiting)
        ensures
            r == self.awaiting(),
    {
        self.awaiting
    }

    /// Decides what to do next. An entity in hand is finished first (its
    /// children, then its write); then the next listed entity is taken up,
    /// with a child cursor of its own; only when every listed entity has been
    /// handled is the next listing page asked for.
    pub fn next_step(&mut self) -> (r: Step<E, B>)
        requires
            old(self).wf(),
            old(self).awaiting() == Awaiting::Nothing,
        ensures
            final(self).wf(),
            final(self).collection() == old(self).collection(),
            final(self).listed() == old(self).listed(),
            final(self).outcomes() == old(self).outcomes(),
            final(self).listing() == old(self).listing(),
            (r is Done) <==> old(self).is_done(),
            r is Done ==> final(self).is_done(),
            old(self).expanding() is Some ==> if old(self).expansion().0 == PagerStatus::Open {
                r is FetchChildren
            } else {
                r is WriteEntity
            },
            old(self).expanding() is None && old(self).pending().len() > 0 ==> r is FetchChildren,
            old(self).expanding() is None && old(self).pending().len() == 0 && old(
                self,
            ).listing().0 == PagerStatus::Open ==> r is ListEntities,
            r matches Step::ListEntities { cursor } ==> {
                &&& old(self).expanding() is None
                &&& old(self).pending().len() == 0
                &&& old(self).listing().0 == PagerStatus::Open
                &&& opt_view(cursor) == old(self).listing().1
                &&& final(self).awaiting() == Awaiting::Listing
                &&& final(self).pending() == old(self).pending()
            },
            r matches Step::FetchChildren { entity, cursor } ==> {
                &&& final(self).awaiting() == Awaiting::Children
                &&& final(self).expanding() == Some(entity@)
                &&& opt_view(cursor) == final(self).expansion().1
                &&& cursor is Some ==> final(self).cursor_owner() == Some(entity@)
                &&& old(self).expanding() is None ==> {
                    &&& cursor is None
                    &&& final(self).expansion() == (PagerStatus::Open, None::<Seq<char>>, 0nat)
                    &&& old(self).pending().len() > 0
                    &&& entity@ == old(self).pending()[0]
                    &&& final(self).pending() == old(self).pending().drop_first()
                    &&& final(self).in_hand() == Some(old(self).pending_items()[0])
                    &&& final(self).child_pages() == Seq::<Seq<B>>::empty()
                    &&& final(self).pending_items() == old(self).pending_items().drop_first()
                }
                &&& old(self).expanding() is Some ==> {
                    &&& old(self).expanding() == Some(entity@)
                    &&& final(self).expansion() == old(self).expansion()
                    &&& final(self).pending() == old(self).pending()
                    &&& final(self).in_hand() == old(self).in_hand()
                    &&& final(self).child_pages() == old(self).child_pages()
                    &&& final(self).pending_items() == old(self).pending_items()
                }
            },
            r matches Step::WriteEntity { key, body, children } ==> {
                &&& old(self).expanding() is Some
                &&& final(self).awaiting() == Awaiting::Write
                &&& final(self).expanding() is None
                &&& final(self).in_write() == old(self).expanding()
                &&& key@ == key_of(Namespace::Entities, old(self).expanding()->0)
                &&& body == old(self).in_hand()->0.body
                &&& final(self).pending() == old(self).pending()
                &&& final(self).pending_items() == old(self).pending_items()
                &&& (children is Some) == (old(self).expansion().0 == PagerStatus::Exhausted)
                &&& final(self).write_kind() == if children is Some {
                    OutcomeKind::Written
                } else {
                    OutcomeKind::WrittenWithoutChildren
                }
                &&& children matches Some(c) ==> c@ == joined(old(self).child_pages())
            },
    {
        if self.stub.is_none() {
            if self.pending.len() > 0 {
                let next = self.pending.remove(0);
                let id = next.id.clone();
                proof {
                    assert(ids_of(self.pending@) =~= ids_of(old(self).pending@).drop_first());
                    assert(ids_of(old(self).pending@) =~= seq![next.id@] + ids_of(
                        self.pending@,
                    ));
                }
                self.stub = Some(next);
                self.children = Vec::new();
                self.child_pager = Pager::new();
                self.child_started = false;
                self.child_pages = Ghost(Seq::empty());
                self.cursor_owner = Ghost(None);
                self.awaiting = Awaiting::Children;
                proof {
                    assert(self.current() == seq![id@]);
                    assert(old(self).current() =~= Seq::<Seq<char>>::empty());
                    assert(outcome_ids(self.outcomes@) + self.current() + ids_of(self.pending@)
                        =~= self.listed@);
                    assert(joined(self.child_pages@) =~= Seq::<B>::empty());
                }
                return Step::FetchChildren { entity: id, cursor: None };
            } else {
                match self.listing.request() {
                    Some(cursor) => {
                        self.awaiting = Awaiting::Listing;
                        return Step::ListEntities { cursor };
                    },
                    None => {
                        return Step::Done;
                    },
                }
            }
        }
        match self.child_pager.request() {
            Some(cursor) => {
                let entity = match &self.stub {
                    Some(s) => s.id.clone(),
                    None => String::new(),
                };
                self.awaiting = Awaiting::Children;
                Step::FetchChildren { entity, cursor }
            },
            None => {
                let complete = self.child_pager.status() == PagerStatus::Exhausted;
                let stub = self.stub.take();
                let mut gathered: Vec<B> = Vec::new();
                std::mem::swap(&mut gathered, &mut self.children);
                match stub {
                    Some(s) => {
                        let key = entity_key(&s.id);
                        self.writing_kind = if complete {
                            OutcomeKind::Written
                        } else {
                            OutcomeKind::WrittenWithoutChildren
                        };
                        self.writing = Some(s.id);
                        self.awaiting = Awaiting::Write;
                        let children = if complete {
                            Some(gathered)
                        } else {
                            None
                        };
                        Step::WriteEntity { key, body: s.body, children }
                    },
                    None => Step::Done,
                }
            },
        }
    }

    /// Takes a page of the entity listing. Its entities are handled, in the
    /// order given, before another page is fetched.
    pub fn accept_listing(&mut self, page: Page<Listed<E>>)
        requires
            old(self).wf(),
            old(self).awaiting() == Awaiting::Listing,
        ensures
            final(self).wf(),
            final(self).collection() == old(self).collection(),
            final(self).awaiting() == Awaiting::Nothing,
            final(self).listing() == advance(old(self).listing(), page.more, opt_view(page.next)),
            final(self).pending() == ids_of(page.items@),
            final(self).pending_items() == page.items@,
            final(self).listed() == old(self).listed() + ids_of(page.items@),
            final(self).outcomes() == old(self).outcomes(),
            final(self).expanding() is None,
    {
        let items = self.listing.accept(page);
        self.pending = items;
        self.listed = Ghost(self.listed@ + ids_of(self.pending@));
        self.awaiting = Awaiting::Nothing;
        proof {
            assert(old(self).current() =~= Seq::<Seq<char>>::empty());
            assert(ids_of(old(self).pending@) =~= Seq::<Seq<char>>::empty());
            assert(outcome_ids(self.outcomes@) + self.current() + ids_of(self.pending@)
                =~= self.listed@);
        }
    }

    /// Records that a page of the entity listing could not be fetched. The
    /// rest of the collection is unknown, so the walk ends: nothing past the
    /// pages already taken is handled.
    pub fn listing_failed(&mut self)
        requires
            old(self).wf(),
            old(self).awaiting() == Awaiting::Listing,
        ensures
            final(self).wf(),
            final(self).collection() == old(self).collection(),
            final(self).listing() == (PagerStatus::Failed, old(self).listing().1, old(
                self,
            ).listing().2 + 1),
            final(self).listed() == old(self).listed(),
            final(self).outcomes() == old(self).outcomes(),
            final(self).is_done(),
    {
        self.listing.fail();
        self.awaiting = Awaiting::Nothing;
    }

    /// Takes a page of the children of the entity in expansion, appended
    /// after those already gathered. A page that asks for more without a
    /// cursor leaves the expansion incomplete: the entity is then recorded
    /// as failed and not written.
    pub fn accept_children(&mut self, page: Page<B>)
        requires
            old(self).wf(),
            old(self).awaiting() == Awaiting::Children,
        ensures
            final(self).wf(),
            final(self).collection() == old(self).collection(),
            final(self).awaiting() == Awaiting::Nothing,
            final(self).listing() == old(self).listing(),
            final(self).listed() == old(self).listed(),
            final(self).pending_items() == old(self).pending_items(),
            ({
                let st = advance(old(self).expansion(), page.more, opt_view(page.next));
                if st.0 == PagerStatus::Failed {
                    &&& final(self).expanding() is None
                    &&& final(self).outcomes().len() == old(self).outcomes().len() + 1
                    &&& final(self).outcomes().drop_last() == old(self).outcomes()
                    &&& final(self).outcomes().last().id@ == old(self).expanding()->0
                    &&& final(self).outcomes().last().kind == OutcomeKind::ExpansionFailed
                } else {
                    &&& final(self).in_hand() == old(self).in_hand()
                    &&& final(self).expansion() == st
                    &&& final(self).child_pages() == old(self).child_pages().push(page.items@)
                    &&& final(self).outcomes() == old(self).outcomes()
                    &&& st.1 is Some ==> final(self).cursor_owner() == old(self).expanding()
                }
            }),
    {
        let ghost items = page.items@;
        self.child_started = true;
        let mut got = self.child_pager.accept(page);
        self.children.append(&mut got);
        self.child_pages = Ghost(self.child_pages@.push(items));
        proof {
            assert(self.child_pages@.drop_last() =~= old(self).child_pages@);
        }
        match &self.stub {
            Some(s) => {
                self.cursor_owner = Ghost(Some(s.id@));
            },
            None => {},
        }
        self.awaiting = Awaiting::Nothing;
        if self.child_pager.status() == PagerStatus::Failed {
            self.drop_expansion();
        }
    }

    /// Records that a child fetch of the entity in expansion failed. On the
    /// first fetch the entity is still written, without children; on a later
    /// one it is recorded as failed and not written.
    pub fn children_failed(&mut self)
        requires
            old(self).wf(),
            old(self).awaiting() == Awaiting::Children,
        ensures
            final(self).wf(),
            final(self).collection() == old(self).collection(),
            final(self).awaiting() == Awaiting::Nothing,
            final(self).listing() == old(self).listing(),
            final(self).listed() == old(self).listed(),
            final(self).pending_items() == old(self).pending_items(),
            old(self).expansion().2 == 0 ==> {
                &&& final(self).in_hand() == old(self).in_hand()
                &&& final(self).expansion().0 == PagerStatus::Failed
                &&& final(self).outcomes() == old(self).outcomes()
            },
            old(self).expansion().2 > 0 ==> {
                &&& final(self).expanding() is None
                &&& final(self).outcomes().len() == old(self).outcomes().len() + 1
                &&& final(self).outcomes().drop_last() == old(self).outcomes()
                &&& final(self).outcomes().last().id@ == old(self).expanding()->0
                &&& final(self).outcomes().last().kind == OutcomeKind::ExpansionFailed
            },
    {
        let first = !self.child_started;
        self.child_pager.fail();
        self.awaiting = Awaiting::Nothing;
        if !first {
            self.drop_expansion();
        }
    }

    /// Gives up the entity in expansion and records it as failed.
    fn drop_expansion(&mut self)
        requires
            old(self).stub is Some,
            old(self).writing is None,
            outcome_ids(old(self).outcomes@) + seq![old(self).stub->0.id@] + ids_of(
                old(self).pending@,
            ) == old(self).listed@,
        ensures
            final(self).stub is None,
            final(self).writing is None,
            final(self).outcomes@ == old(self).outcomes@.push(final(self).outcomes@.last()),
            final(self).outcomes@.last().id@ == old(self).stub->0.id@,
            final(self).outcomes@.last().kind == OutcomeKind::ExpansionFailed,
            outcome_ids(final(self).outcomes@) + ids_of(final(self).pending@)
                == final(self).listed@,
            final(self).collection == old(self).collection,
            final(self).listing == old(self).listing,
            final(self).pending == old(self).pending,
            final(self).listed == old(self).listed,
            final(self).awaiting == old(self).awaiting,
    {
        let stub = self.stub.take();
        match stub {
            Some(s) => {
                self.outcomes.push(Outcome { id: s.id, kind: OutcomeKind::ExpansionFailed });
            },
            None => {},
        }
        self.children = Vec::new();
        proof {
            assert(outcome_ids(self.outcomes@) =~= outcome_ids(old(self).outcomes@) + seq![
                old(self).stub->0.id@,
            ]);
        }
    }

    /// Records how the write of the entity in hand went.
    pub fn write_done(&mut self, ok: bool)
        requires
            old(self).wf(),
            old(self).awaiting() == Awaiting::Write,
        ensures
            final(self).wf(),
            final(self).collection() == old(self).collection(),
            final(self).awaiting() == Awaiting::Nothing,
            final(self).listing() == old(self).listing(),
            final(self).listed() == old(self).listed(),
            final(self).pending_items() == old(self).pending_items(),
            final(self).expanding() is None,
            final(self).outcomes().len() == old(self).outcomes().len() + 1,
            final(self).outcomes().drop_last() == old(self).outcomes(),
            final(self).outcomes().last().id@ == old(self).in_write()->0,
            !ok ==> final(self).outcomes().last().kind == OutcomeKind::WriteFailed,
            ok ==> final(self).outcomes().last().kind == old(self).write_kind(),
    {
        let id = self.writing.take();
        let kind = if ok {
            self.writing_kind
        } else {
            OutcomeKind::WriteFailed
        };
        match id {
            Some(id) => {
                self.outcomes.push(Outcome { id, kind });
            },
            None => {},
        }
        self.awaiting = Awaiting::Nothing;
        proof {
            assert(self.outcomes@.drop_last() =~= old(self).outcomes@);
            assert(outcome_ids(self.outcomes@) =~= outcome_ids(old(self).outcomes@) + seq![
                old(self).writing->0@,
            ]);
            assert(outcome_ids(self.outcomes@) + self.current() + ids_of(self.pending@)
                =~= self.listed@);
        }
    }

    /// Ends the walk. The report holds one outcome for each listed entity,
    /// in listing order, and says whether the listing was walked to its end.
    pub fn finish(self) -> (r: CollectionReport)
        requires
            self.wf(),
            self.is_done(),
        ensures
            r.collection@ == self.collection(),
            r.outcomes@ == self.outcomes(),
            outcome_ids(r.outcomes@) == self.listed(),
            r.listing_complete == (self.listing().0 == PagerStatus::Exhausted),
    {
        proof {
            assert(self.current() =~= Seq::<Seq<char>>::empty());
            assert(outcome_ids(self.outcomes@) =~= outcome_ids(self.outcomes@) + self.current()
                + ids_of(self.pending@));
        }
        CollectionReport {
            collection: self.collection,
            listing_complete: self.listing.status() == PagerStatus::Exhausted,
            outcomes: self.outcomes,
        }
    }
}

/// How a collection's walk ended.
#[derive(PartialEq, Eq, Structural, Clone, Copy, Debug)]
pub enum CollectionStatus {
    /// Listing walked to its end, every entity written in full.
    Success,
    /// Listing walked to its end; some entities carry a warning.
    SuccessWithWarnings,
    /// The listing broke off: the collection's remaining entities are unknown.
    Failed,
}

pub open spec fn has_warning(s: Seq<Outcome>) -> bool {
    exists|i: int| 0 <= i < s.len() && #[trigger] is_warning(s[i].kind)
}

/// Identities of the entities whose outcome is a warning, in order.
pub open spec fn warned(s: Seq<Outcome>) -> Seq<Seq<char>>
    decreases s.len(),
{
    if s.len() == 0 {
        Seq::empty()
    } else if is_warning(s.last().kind) {
        warned(s.drop_last()).push(s.last().id@)
    } else {
        warned(s.drop_last())
    }
}

impl CollectionReport {
    pub open spec fn status_spec(&self) -> CollectionStatus {
        if !self.listing_complete {
            CollectionStatus::Failed
        } else if has_warning(self.outcomes@) {
            CollectionStatus::SuccessWithWarnings
        } else {
            CollectionStatus::Success
        }
    }

    pub fn status(&self) -> (r: CollectionStatus)
        ensures
            r == self.status_spec(),
    {
        if !self.listing_complete {
            return CollectionStatus::Failed;
        }
        let mut i: usize = 0;
        while i < self.outcomes.len()
            invariant
                self.listing_complete,
                i <= self.outcomes@.len(),
                forall|j: int| 0 <= j < i ==> !is_warning(#[trigger] self.outcomes@[j].kind),
            decreases self.outcomes@.len() - i,
        {
            if self.outcomes[i].kind != OutcomeKind::Written {
                assert(is_warning(self.outcomes@[i as int].kind));
                return CollectionStatus::SuccessWithWarnings;
            }
            i = i + 1;
        }
        CollectionStatus::Success
    }

    /// The identities of the entities that carry a warning, in listing order.
    pub fn warnings(&self) -> (r: Vec<String>)
        ensures
            r@.map_values(|s: String| s@) == warned(self.outcomes@),
    {
        let mut r: Vec<String> = Vec::new();
        let mut i: usize = 0;
        while i < self.outcomes.len()
            invariant
                i <= self.outcomes@.len(),
                r@.map_values(|s: String| s@) == warned(self.outcomes@.subrange(0, i as int)),
            decreases self.outcomes@.len() - i,
        {
            let ghost before = r@;
            let o = &self.outcomes[i];
            proof {
                let sub = self.outcomes@.subrange(0, i as int + 1);
                assert(sub.drop_last() =~= self.outcomes@.subrange(0, i as int));
                assert(sub.last() == self.outcomes@[i as int]);
            }
            if o.kind != OutcomeKind::Written {
                r.push(o.id.clone());
                proof {
                    assert(r@.map_values(|s: String| s@) =~= before.map_values(|s: String| s@).push(
                        o.id@,
                    ));
                }
            }
            i = i + 1;
        }
        proof {
            assert(self.outcomes@.subrange(0, self.outcomes@.len() as int) =~= self.outcomes@);
        }
        r
    }

    /// Number of entities written, with or without their children.
    pub fn written_count(&self) -> (r: usize)
        ensures
            r == count_written(self.outcomes@),
    {
        let mut n: usize = 0;
        let mut i: usize = 0;
        while i < self.outcomes.len()
            invariant
                i <= self.outcomes@.len(),
                n == count_written(self.outcomes@.subrange(0, i as int)),
                n <= i,
            decreases self.outcomes@.len() - i,
        {
            proof {
                let sub = self.outcomes@.subrange(0, i as int + 1);
                assert(sub.drop_last() =~= self.outcomes@.subrange(0, i as int));
            }
            let k = self.outcomes[i].kind;
            if k == OutcomeKind::Written || k == OutcomeKind::WrittenWithoutChildren {
                n = n + 1;
            }
            i = i + 1;
        }
        proof {
            assert(self.outcomes@.subrange(0, self.outcomes@.len() as int) =~= self.outcomes@);
        }
        n
    }
}

pub open spec fn is_written(k: OutcomeKind) -> bool {
    k == OutcomeKind::Written || k == OutcomeKind::WrittenWithoutChildren
}

/// Number of outcomes that left a document in the mirror.
pub open spec fn count_written(s: Seq<Outcome>) -> nat
    decreases s.len(),
{
    if s.len() == 0 {
        0
    } else {
        count_written(s.drop_last()) + if is_written(s.last().kind) {
            1nat
        } else {
            0nat
        }
    }
}

/// At every step of a walk, each entity the listing has yielded so far is
/// in exactly one place, in listing order: it has an outcome, or it is the
/// entity in hand, or it waits its turn. A finished walk therefore holds
/// exactly one outcome per listed entity.
pub proof fn lemma_walk_coverage<E, B>(w: &CollectionWalk<E, B>)
    requires
        w.wf(),
    ensures
        outcome_ids(w.outcomes()) + w.current() + w.pending() == w.listed(),
        w.is_done() ==> outcome_ids(w.outcomes()) == w.listed(),
{
    if w.is_done() {
        assert(w.current() =~= Seq::<Seq<char>>::empty());
        assert(outcome_ids(w.outcomes()) =~= outcome_ids(w.outcomes()) + w.current()
            + w.pending());
    }
}

/// A child cursor held by a walk was handed out by a child page of the
/// entity now in expansion, never by a sibling's.
pub proof fn lemma_cursor_isolation<E, B>(w: &CollectionWalk<E, B>)
    requires
        w.wf(),
        w.expanding() is Some,
        w.expansion().1 is Some,
    ensures
        w.cursor_owner() == w.expanding(),
{
}

/// One entity's failure is contained: when the listing was walked to its
/// end, a warning on any entity makes the collection a success with
/// warnings, and that entity's identity is among the warnings.
pub proof fn lemma_failure_contained(r: CollectionReport, i: int)
    requires
        r.listing_complete,
        0 <= i < r.outcomes@.len(),
        is_warning(r.outcomes@[i].kind),
    ensures
        r.status_spec() == CollectionStatus::SuccessWithWarnings,
        warned(r.outcomes@).contains(r.outcomes@[i].id@),
{
    lemma_warned_contains(r.outcomes@, i);
}

proof fn lemma_warned_contains(s: Seq<Outcome>, i: int)
    requires
        0 <= i < s.len(),
        is_warning(s[i].kind),
    ensures
        warned(s).contains(s[i].id@),
    decreases s.len(),
{
    if i == s.len() - 1 {
        assert(warned(s).last() == s[i].id@);
        assert(warned(s)[warned(s).len() - 1] == s[i].id@);
    } else {
        lemma_warned_contains(s.drop_last(), i);
        let j = choose|j: int| 0 <= j < warned(s.drop_last()).len() && warned(s.drop_last())[j]
            == s[i].id@;
        if is_warning(s.last().kind) {
            assert(warned(s)[j] == s[i].id@);
        }
    }
}

} // verus!
