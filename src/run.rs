use vstd::prelude::*;
use crate::pager::{Page, Pager, PagerStatus, advance, opt_view};
use crate::mirror::{Namespace, key_of, collection_key};
use crate::walk::{Listed, CollectionReport, CollectionStatus, ids_of};

verus! {

/// What the caller is to do next for the whole run.
pub enum RunStep<D> {
    /// Fetch the next page of the collection search.
    SearchCollections { cursor: Option<String> },
    /// Persist this collection's descriptor under `key`, walk the collection
    /// with a fresh `CollectionWalk`, and hand both results to `record`.
    WalkCollection { id: String, key: String, body: D },
    /// The run is over: call `finish`.
    Done,
}

/// What became of one discovered collection.
pub struct CollectionEntry {
    /// The descriptor document was written.
    pub descriptor_written: bool,
    pub report: CollectionReport,
}

/// The final account of a run.
pub struct RunReport {
    /// Every page of the collection search was fetched.
    pub discovery_complete: bool,
    /// One entry per discovered collection, in discovery order.
    pub collections: Vec<CollectionEntry>,
}

pub open spec fn entry_ids(s: Seq<CollectionEntry>) -> Seq<Seq<char>> {
    s.map_values(|e: CollectionEntry| e.report.collection@)
}

#[derive(PartialEq, Eq, Structural, Clone, Copy, Debug)]
pub enum RunAwaiting {
    Nothing,
    Search,
    Walk,
}

/// Traversal driver: it discovers every collection first, then has each one
/// walked once, in discovery order.
pub struct Run<D> {
    search: Pager,
    queue: Vec<Listed<D>>,
    current: Option<String>,
    awaiting: RunAwaiting,
    entries: Vec<CollectionEntry>,
    /// Identities of all discovered collections, in order.
    found: Ghost<Seq<Seq<char>>>,
}

impl<D> Run<D> {
    pub closed spec fn awaiting(&self) -> RunAwaiting {
        self.awaiting
    }

    pub closed spec fn search(&self) -> (PagerStatus, Option<Seq<char>>, nat) {
        self.search@
    }

    pub closed spec fn found(&self) -> Seq<Seq<char>> {
        self.found@
    }

    pub open spec fn queued(&self) -> Seq<Seq<char>> {
        ids_of(self.queued_items())
    }

    /// The discovered collections that wait their turn, with their payloads.
    pub closed spec fn queued_items(&self) -> Seq<Listed<D>> {
        self.queue@
    }

    pub closed spec fn entries(&self) -> Seq<CollectionEntry> {
        self.entries@
    }

    /// The collection being walked, if any.
    pub closed spec fn walking(&self) -> Option<Seq<char>> {
        match self.current {
            Some(c) => Some(c@),
            None => None,
        }
    }

    pub open spec fn current(&self) -> Seq<Seq<char>> {
        match self.walking() {
            Some(id) => seq![id],
            None => Seq::empty(),
        }
    }

    pub open spec fn is_done(&self) -> bool {
        &&& self.awaiting() == RunAwaiting::Nothing
        &&& self.search().0 != PagerStatus::Open
        &&& (self.search().0 == PagerStatus::Exhausted ==> self.queued().len() == 0)
    }

    pub closed spec fn wf(&self) -> bool {
        &&& self.awaiting == RunAwaiting::Search ==> self.search@.0 == PagerStatus::Open
        &&& (self.awaiting == RunAwaiting::Walk) == (self.current is Some)
        &&& self.search@.0 != PagerStatus::Exhausted ==> self.entries@.len() == 0
            && self.current is None
        &&& entry_ids(self.entries@) + self.current() + ids_of(self.queue@) == self.found@
    }

    pub fn new() -> (r: Self)
        ensures
            r.wf(),
            r.awaiting() == RunAwaiting::Nothing,
            r.search() == (PagerStatus::Open, None::<Seq<char>>, 0nat),
            r.found() == Seq::<Seq<char>>::empty(),
            r.entries() == Seq::<CollectionEntry>::empty(),
    {
        let r = Run {
            search: Pager::new(),
            queue: Vec::new(),
            current: None,
            awaiting: RunAwaiting::Nothing,
            entries: Vec::new(),
            found: Ghost(Seq::empty()),
        };
        assert(entry_ids(r.entries@) =~= Seq::empty());
        assert(ids_of(r.queue@) =~= Seq::empty());
        r
    }

    /// Which answer the run waits for.
    pub fn waiting_for(&self) -> (r: RunAwaiting)
        ensures
            r == self.awaiting(),
    {
        self.awaiting
    }

    /// Decides what to do next: finish the search; then, if it completed,
    /// walk the discovered collections one by one. A search that failed ends
    /// the run before any collection is walked.
    pub fn next_step(&mut self) -> (r: RunStep<D>)
        requires
            old(self).wf(),
            old(self).awaiting() == RunAwaiting::Nothing,
        ensures
            final(self).wf(),
            final(self).found() == old(self).found(),
            final(self).entries() == old(self).entries(),
            final(self).search() == old(self).search(),
            (r is Done) <==> old(self).is_done(),
            r is Done ==> final(self).is_done(),
            old(self).search().0 == PagerStatus::Open ==> r is SearchCollections,
            old(self).search().0 == PagerStatus::Exhausted && old(self).queued().len() > 0
                ==> r is WalkCollection,
            r matches RunStep::SearchCollections { cursor } ==> {
                &&& old(self).search().0 == PagerStatus::Open
                &&& opt_view(cursor) == old(self).search().1
                &&& final(self).awaiting() == RunAwaiting::Search
            },
            r matches RunStep::WalkCollection { id, key, body } ==> {
                &&& old(self).search().0 == PagerStatus::Exhausted
                &&& old(self).queued().len() > 0
                &&& id@ == old(self).queued()[0]
                &&& key@ == key_of(Namespace::Collections, id@)
                &&& body == old(self).queued_items()[0].body
                &&& final(self).queued() == old(self).queued().drop_first()
                &&& final(self).queued_items() == old(self).queued_items().drop_first()
                &&& final(self).awaiting() == RunAwaiting::Walk
                &&& final(self).walking() == Some(id@)
            },
    {
        match self.search.request() {
            Some(cursor) => {
                self.awaiting = RunAwaiting::Search;
                return RunStep::SearchCollections { cursor };
            },
            None => {},
        }
        if self.search.status() == PagerStatus::Failed || self.queue.len() == 0 {
            return RunStep::Done;
        }
        let next = self.queue.remove(0);
        proof {
            assert(ids_of(self.queue@) =~= ids_of(old(self).queue@).drop_first());
            assert(ids_of(old(self).queue@) =~= seq![next.id@] + ids_of(self.queue@));
        }
        let key = collection_key(&next.id);
        let id = next.id.clone();
        self.current = Some(next.id);
        self.awaiting = RunAwaiting::Walk;
        proof {
            assert(entry_ids(self.entries@) + self.current() + ids_of(self.queue@) =~= self.found@);
        }
        RunStep::WalkCollection { id, key, body: next.body }
    }

    /// Takes a page of the collection search.
    pub fn accept_search(&mut self, page: Page<Listed<D>>)
        requires
            old(self).wf(),
            old(self).awaiting() == RunAwaiting::Search,
        ensures
            final(self).wf(),
            final(self).awaiting() == RunAwaiting::Nothing,
            final(self).search() == advance(old(self).search(), page.more, opt_view(page.next)),
            final(self).found() == old(self).found() + ids_of(page.items@),
            final(self).queued() == old(self).queued() + ids_of(page.items@),
            final(self).queued_items() == old(self).queued_items() + page.items@,
            final(self).entries() == old(self).entries(),
    {
        let ghost added = ids_of(page.items@);
        let mut items = self.search.accept(page);
        let ghost before = self.queue@;
        self.queue.append(&mut items);
        self.found = Ghost(self.found@ + added);
        self.awaiting = RunAwaiting::Nothing;
        proof {
            assert(ids_of(self.queue@) =~= ids_of(before) + added);
            assert(old(self).current() =~= Seq::<Seq<char>>::empty());
            assert(entry_ids(self.entries@) =~= Seq::<Seq<char>>::empty());
            assert(entry_ids(self.entries@) + self.current() + ids_of(self.queue@) =~= self.found@);
        }
    }

    /// Records that a page of the collection search could not be fetched:
    /// the run ends without walking anything.
    pub fn search_failed(&mut self)
        requires
            old(self).wf(),
            old(self).awaiting() == RunAwaiting::Search,
        ensures
            final(self).wf(),
            final(self).search().0 == PagerStatus::Failed,
            final(self).found() == old(self).found(),
            final(self).entries() == old(self).entries(),
            final(self).is_done(),
    {
        self.search.fail();
        self.awaiting = RunAwaiting::Nothing;
    }

    /// Whether `id` is the collection being walked.
    pub fn is_walking(&self, id: &String) -> (r: bool)
        ensures
            r == (self.walking() == Some(id@)),
    {
        match &self.current {
            Some(c) => *c == *id,
            None => false,
        }
    }

    /// Records the walk of the current collection and whether its
    /// descriptor was written. Neither ends the run: the next collection is
    /// walked in any case.
    pub fn record(&mut self, descriptor_written: bool, report: CollectionReport)
        requires
            old(self).wf(),
            old(self).awaiting() == RunAwaiting::Walk,
            old(self).walking() == Some(report.collection@),
        ensures
            final(self).wf(),
            final(self).awaiting() == RunAwaiting::Nothing,
            final(self).search() == old(self).search(),
            final(self).found() == old(self).found(),
            final(self).queued() == old(self).queued(),
            final(self).queued_items() == old(self).queued_items(),
            final(self).entries() == old(self).entries().push(
                CollectionEntry { descriptor_written, report },
            ),
    {
        self.entries.push(CollectionEntry { descriptor_written, report });
        self.current = None;
        self.awaiting = RunAwaiting::Nothing;
        proof {
            assert(entry_ids(self.entries@) =~= entry_ids(old(self).entries@) + old(
                self,
            ).current());
            assert(entry_ids(self.entries@) + self.current() + ids_of(self.queue@) =~= self.found@);
        }
    }

    /// Ends the run. When the search completed, every discovered collection
    /// has exactly one entry, in discovery order.
    pub fn finish(self) -> (r: RunReport)
        requires
            self.wf(),
            self.is_done(),
        ensures
            r.discovery_complete == (self.search().0 == PagerStatus::Exhausted),
            r.collections@ == self.entries(),
            r.discovery_complete ==> entry_ids(r.collections@) == self.found(),
            !r.discovery_complete ==> r.collections@.len() == 0,
    {
        proof {
            if self.search@.0 == PagerStatus::Exhausted {
                assert(entry_ids(self.entries@) =~= entry_ids(self.entries@) + self.current()
                    + ids_of(self.queue@));
            }
        }
        RunReport {
            discovery_complete: self.search.status() == PagerStatus::Exhausted,
            collections: self.entries,
        }
    }
}

impl RunReport {
    /// The run succeeded: discovery completed and every collection's listing
    /// was walked to its end. Entity warnings do not count against it.
    pub open spec fn success_spec(&self) -> bool {
        &&& self.discovery_complete
        &&& forall|i: int|
            0 <= i < self.collections@.len() ==> (#[trigger] self.collections@[i]).report.listing_complete
    }

    pub fn success(&self) -> (r: bool)
        ensures
            r == self.success_spec(),
    {
        if !self.discovery_complete {
            return false;
        }
        let mut i: usize = 0;
        while i < self.collections.len()
            invariant
                self.discovery_complete,
                i <= self.collections@.len(),
                forall|j: int| 0 <= j < i ==> (#[trigger] self.collections@[j]).report.listing_complete,
            decreases self.collections@.len() - i,
        {
            if !self.collections[i].report.listing_complete {
                return false;
            }
            i = i + 1;
        }
        true
    }

    /// Process exit status: zero exactly when the run succeeded.
    pub fn exit_code(&self) -> (r: i32)
        ensures
            r == (if self.success_spec() {
                0i32
            } else {
                1i32
            }),
    {
        if self.success() {
            0
        } else {
            1
        }
    }
}

/// At every step of a run, each discovered collection is in exactly one
/// place, in discovery order: it has an entry, or it is being walked, or it
/// waits its turn. No collection is walked twice or skipped.
pub proof fn lemma_run_coverage<D>(r: &Run<D>)
    requires
        r.wf(),
    ensures
        entry_ids(r.entries()) + r.current() + r.queued() == r.found(),
{
}

/// A collection whose listing broke off is reported failed and makes the
/// run unsuccessful, whatever its entities' outcomes.
pub proof fn lemma_listing_failure(r: RunReport, i: int)
    requires
        0 <= i < r.collections@.len(),
        !r.collections@[i].report.listing_complete,
    ensures
        r.collections@[i].report.status_spec() == CollectionStatus::Failed,
        !r.success_spec(),
{
}

} // verus!
