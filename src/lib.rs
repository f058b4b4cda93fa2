//! Decision core of a resumable mirror of a paginated, hierarchical remote
//! source: collections hold entities, entities hold child nodes. Every fetch
//! and every write is performed by the caller; the types here decide what to
//! fetch or write next and keep the record of what happened.
mod mirror;
mod pager;
mod run;
mod walk;

pub use mirror::{
    collection_key, destination_key, entity_key, key_of, lemma_keys_collision_free, Namespace,
};
pub use pager::{continues, lemma_pages_drained, pager_after, Page, Pager, PagerStatus};
pub use run::{
    lemma_listing_failure, lemma_run_coverage, CollectionEntry, Run, RunAwaiting, RunReport,
    RunStep,
};
pub use walk::{
    lemma_cursor_isolation, lemma_failure_contained, lemma_walk_coverage, Awaiting,
    CollectionReport, CollectionStatus, CollectionWalk, Listed, Outcome, OutcomeKind, Step,
};
