use notion_mirror::{
    collection_key, destination_key, entity_key, Awaiting, CollectionStatus, CollectionWalk,
    Listed, Namespace, OutcomeKind, Page, Pager, PagerStatus, Run, RunAwaiting, RunReport,
    RunStep, Step,
};
use std::collections::HashMap;

/// An in-memory source. Cursors are written `<context>#<page>`, so that a
/// fetch can tell which listing handed out the cursor it is given.
#[derive(Default)]
struct Fixture {
    collections: Vec<Vec<String>>,
    listings: HashMap<String, Vec<Vec<String>>>,
    children: HashMap<String, Vec<Vec<String>>>,
    fail_search_page: Option<usize>,
    fail_listing_page: Option<(String, usize)>,
    fail_child_page: Option<(String, usize)>,
    fail_write: Option<String>,
    fail_descriptor: Option<String>,
}

#[derive(Default)]
struct Record {
    writes: Vec<(String, String)>,
    search_calls: usize,
    listing_calls: HashMap<String, usize>,
    child_calls: HashMap<String, usize>,
}

fn s(x: &str) -> String {
    x.to_string()
}

fn pages(p: &[&[&str]]) -> Vec<Vec<String>> {
    p.iter().map(|pg| pg.iter().map(|x| s(x)).collect()).collect()
}

fn page_index(context: &str, cursor: &Option<String>) -> usize {
    match cursor {
        None => 0,
        Some(c) => {
            let (owner, n) = c.split_once('#').expect("cursor shape");
            assert_eq!(owner, context, "cursor of another listing context");
            n.parse().unwrap()
        }
    }
}

fn answer(context: &str, all: &[Vec<String>], i: usize) -> (Vec<String>, bool, Option<String>) {
    let items = all.get(i).cloned().unwrap_or_default();
    let more = i + 1 < all.len();
    let next = if more { Some(format!("{}#{}", context, i + 1)) } else { None };
    (items, more, next)
}

fn walk_collection(fx: &Fixture, rec: &mut Record, id: &str) -> notion_mirror::CollectionReport {
    let empty: Vec<Vec<String>> = Vec::new();
    let mut walk: CollectionWalk<String, String> = CollectionWalk::new(s(id));
    loop {
        assert_eq!(walk.waiting_for(), Awaiting::Nothing);
        match walk.next_step() {
            Step::ListEntities { cursor } => {
                let i = page_index(id, &cursor);
                *rec.listing_calls.entry(s(id)).or_default() += 1;
                if fx.fail_listing_page == Some((s(id), i)) {
                    walk.listing_failed();
                    continue;
                }
                let all = fx.listings.get(id).unwrap_or(&empty);
                let (items, more, next) = answer(id, all, i);
                let items = items
                    .into_iter()
                    .map(|e| Listed { id: e.clone(), body: format!("page {}", e) })
                    .collect();
                walk.accept_listing(Page { items, more, next });
            }
            Step::FetchChildren { entity, cursor } => {
                let i = page_index(&entity, &cursor);
                *rec.child_calls.entry(entity.clone()).or_default() += 1;
                if fx.fail_child_page == Some((entity.clone(), i)) {
                    walk.children_failed();
                    continue;
                }
                let all = fx.children.get(&entity).unwrap_or(&empty);
                let (items, more, next) = answer(&entity, all, i);
                walk.accept_children(Page { items, more, next });
            }
            Step::WriteEntity { key, body, children } => {
                let fail = fx.fail_write.as_ref().map_or(false, |f| key.contains(f.as_str()));
                if !fail {
                    rec.writes.push((key, format!("{}|{:?}", body, children)));
                }
                walk.write_done(!fail);
            }
            Step::Done => return walk.finish(),
        }
    }
}

fn run(fx: &Fixture) -> (Record, RunReport) {
    let mut rec = Record::default();
    let mut r: Run<String> = Run::new();
    loop {
        assert_eq!(r.waiting_for(), RunAwaiting::Nothing);
        match r.next_step() {
            RunStep::SearchCollections { cursor } => {
                let i = page_index("search", &cursor);
                rec.search_calls += 1;
                if fx.fail_search_page == Some(i) {
                    r.search_failed();
                    continue;
                }
                let (items, more, next) = answer("search", &fx.collections, i);
                let items = items
                    .into_iter()
                    .map(|c| Listed { id: c.clone(), body: format!("database {}", c) })
                    .collect();
                r.accept_search(Page { items, more, next });
            }
            RunStep::WalkCollection { id, key, body } => {
                let ok = fx.fail_descriptor.as_deref() != Some(id.as_str());
                if ok {
                    rec.writes.push((key, body));
                }
                let report = walk_collection(fx, &mut rec, &id);
                assert!(r.is_walking(&report.collection));
                r.record(ok, report);
            }
            RunStep::Done => return (rec, r.finish()),
        }
    }
}

fn entity_writes(rec: &Record) -> Vec<String> {
    rec.writes.iter().filter(|(k, _)| k.starts_with("pages/")).map(|(k, _)| k.clone()).collect()
}

#[test]
fn keys_are_namespaced_by_identity() {
    assert_eq!(collection_key(&s("db1")), "databases/db1.json");
    assert_eq!(entity_key(&s("p-7")), "pages/p-7.json");
    assert_eq!(destination_key(Namespace::Entities, &s("")), "pages/.json");
    assert_ne!(collection_key(&s("x")), entity_key(&s("x")));
}

#[test]
fn pager_single_page_terminates() {
    let mut p = Pager::new();
    assert_eq!(p.request(), Some(None));
    let items = p.accept(Page { items: vec![1, 2, 3], more: false, next: None });
    assert_eq!(items, vec![1, 2, 3]);
    assert_eq!(p.status(), PagerStatus::Exhausted);
    assert_eq!(p.request(), None);
}

#[test]
fn pager_threads_cursors_in_order() {
    let n = 4;
    let mut p = Pager::new();
    let mut calls = 0;
    let mut got = Vec::new();
    while let Some(cursor) = p.request() {
        let expected = if calls == 0 { None } else { Some(format!("c{}", calls)) };
        assert_eq!(cursor, expected);
        calls += 1;
        let more = calls <= n;
        let next = if more { Some(format!("c{}", calls)) } else { None };
        got.extend(p.accept(Page { items: vec![calls * 10, calls * 10 + 1], more, next }));
    }
    assert_eq!(calls, n + 1);
    assert_eq!(got, vec![10, 11, 20, 21, 30, 31, 40, 41, 50, 51]);
}

#[test]
fn pager_more_without_cursor_fails() {
    let mut p = Pager::new();
    p.accept(Page { items: vec!['a'], more: true, next: None });
    assert_eq!(p.status(), PagerStatus::Failed);
    assert_eq!(p.request(), None);
}

#[test]
fn pager_fetch_failure_ends_listing() {
    let mut p = Pager::new();
    p.accept(Page { items: vec![1u8], more: true, next: Some(s("n")) });
    assert_eq!(p.request(), Some(Some(s("n"))));
    p.fail();
    assert_eq!(p.status(), PagerStatus::Failed);
    assert_eq!(p.request(), None);
}

#[test]
fn every_listed_entity_is_written_once() {
    let mut fx = Fixture::default();
    fx.collections = pages(&[&["db"]]);
    fx.listings.insert(s("db"), pages(&[&["a", "b"], &["c", "d"], &["e", "f"]]));
    let (rec, report) = run(&fx);
    assert_eq!(rec.search_calls, 1);
    assert_eq!(rec.listing_calls[&s("db")], 3);
    assert_eq!(
        entity_writes(&rec),
        vec!["pages/a.json", "pages/b.json", "pages/c.json", "pages/d.json", "pages/e.json", "pages/f.json"]
    );
    assert_eq!(report.collections.len(), 1);
    assert_eq!(report.collections[0].report.written_count(), 6);
    assert_eq!(report.collections[0].report.status(), CollectionStatus::Success);
    assert!(report.success());
    assert_eq!(report.exit_code(), 0);
}

#[test]
fn every_collection_is_walked_once_in_order() {
    let mut fx = Fixture::default();
    fx.collections = pages(&[&["d1", "d2"], &["d3"]]);
    fx.listings.insert(s("d1"), pages(&[&["a"]]));
    fx.listings.insert(s("d3"), pages(&[&["b"], &["c"]]));
    let (rec, report) = run(&fx);
    assert_eq!(rec.search_calls, 2);
    let ids: Vec<&str> = report.collections.iter().map(|e| e.report.collection.as_str()).collect();
    assert_eq!(ids, vec!["d1", "d2", "d3"]);
    assert_eq!(rec.listing_calls.values().sum::<usize>(), 4);
    assert_eq!(entity_writes(&rec), vec!["pages/a.json", "pages/b.json", "pages/c.json"]);
    let descriptors: Vec<&String> =
        rec.writes.iter().filter(|(k, _)| k.starts_with("databases/")).map(|(k, _)| k).collect();
    assert_eq!(descriptors, vec!["databases/d1.json", "databases/d2.json", "databases/d3.json"]);
}

#[test]
fn later_child_failure_is_contained() {
    let mut fx = Fixture::default();
    fx.collections = pages(&[&["db"]]);
    fx.listings.insert(s("db"), pages(&[&["e1", "e2", "e3"]]));
    fx.children.insert(s("e2"), pages(&[&["x"], &["y"]]));
    fx.fail_child_page = Some((s("e2"), 1));
    let (rec, report) = run(&fx);
    assert_eq!(entity_writes(&rec), vec!["pages/e1.json", "pages/e3.json"]);
    let c = &report.collections[0].report;
    assert_eq!(c.status(), CollectionStatus::SuccessWithWarnings);
    assert_eq!(c.warnings(), vec![s("e2")]);
    assert_eq!(c.outcomes[1].kind, OutcomeKind::ExpansionFailed);
    assert!(report.success());
    assert_eq!(report.exit_code(), 0);
}

#[test]
fn first_child_failure_writes_without_children() {
    let mut fx = Fixture::default();
    fx.collections = pages(&[&["db"]]);
    fx.listings.insert(s("db"), pages(&[&["e1", "e2", "e3"]]));
    fx.children.insert(s("e2"), pages(&[&["x"]]));
    fx.fail_child_page = Some((s("e2"), 0));
    let (rec, report) = run(&fx);
    assert_eq!(entity_writes(&rec), vec!["pages/e1.json", "pages/e2.json", "pages/e3.json"]);
    let doc = &rec.writes.iter().find(|(k, _)| k == "pages/e2.json").unwrap().1;
    assert_eq!(doc, "page e2|None");
    let c = &report.collections[0].report;
    assert_eq!(c.outcomes[1].kind, OutcomeKind::WrittenWithoutChildren);
    assert_eq!(c.status(), CollectionStatus::SuccessWithWarnings);
    assert_eq!(c.warnings(), vec![s("e2")]);
}

#[test]
fn listing_failure_is_fatal_to_its_collection_only() {
    let mut fx = Fixture::default();
    fx.collections = pages(&[&["bad", "good"]]);
    fx.listings.insert(s("bad"), pages(&[&["a", "b"], &["c", "d"]]));
    fx.listings.insert(s("good"), pages(&[&["e"]]));
    fx.fail_listing_page = Some((s("bad"), 1));
    let (rec, report) = run(&fx);
    assert_eq!(entity_writes(&rec), vec!["pages/a.json", "pages/b.json", "pages/e.json"]);
    assert_eq!(report.collections[0].report.status(), CollectionStatus::Failed);
    assert_eq!(report.collections[1].report.status(), CollectionStatus::Success);
    assert!(!report.success());
    assert_eq!(report.exit_code(), 1);
}

#[test]
fn search_failure_ends_run() {
    let mut fx = Fixture::default();
    fx.collections = pages(&[&["d1"], &["d2"]]);
    fx.fail_search_page = Some(1);
    let (rec, report) = run(&fx);
    assert!(rec.writes.is_empty());
    assert!(!report.discovery_complete);
    assert!(report.collections.is_empty());
    assert_eq!(report.exit_code(), 1);
}

#[test]
fn write_failures_are_warnings() {
    let mut fx = Fixture::default();
    fx.collections = pages(&[&["db"]]);
    fx.listings.insert(s("db"), pages(&[&["a", "b"]]));
    fx.fail_write = Some(s("pages/a"));
    fx.fail_descriptor = Some(s("db"));
    let (rec, report) = run(&fx);
    assert_eq!(entity_writes(&rec), vec!["pages/b.json"]);
    let e = &report.collections[0];
    assert!(!e.descriptor_written);
    assert_eq!(e.report.outcomes[0].kind, OutcomeKind::WriteFailed);
    assert_eq!(e.report.warnings(), vec![s("a")]);
    assert_eq!(e.report.written_count(), 1);
    assert!(report.success());
}

#[test]
fn malformed_child_page_fails_entity() {
    let mut walk: CollectionWalk<u8, u8> = CollectionWalk::new(s("db"));
    assert!(matches!(walk.next_step(), Step::ListEntities { cursor: None }));
    walk.accept_listing(Page { items: vec![Listed { id: s("p"), body: 0 }], more: false, next: None });
    assert!(matches!(walk.next_step(), Step::FetchChildren { cursor: None, .. }));
    walk.accept_children(Page { items: vec![1, 2], more: true, next: None });
    assert!(matches!(walk.next_step(), Step::Done));
    let report = walk.finish();
    assert_eq!(report.outcomes[0].kind, OutcomeKind::ExpansionFailed);
    assert!(report.listing_complete);
}

#[test]
fn traversal_is_idempotent() {
    let mut fx = Fixture::default();
    fx.collections = pages(&[&["d1", "d2"]]);
    fx.listings.insert(s("d1"), pages(&[&["a", "b"], &["c"]]));
    fx.listings.insert(s("d2"), pages(&[&["d"]]));
    fx.children.insert(s("b"), pages(&[&["x", "y"], &["z"]]));
    let (first, _) = run(&fx);
    let (second, _) = run(&fx);
    assert_eq!(first.writes, second.writes);
    let keys: Vec<&String> = first.writes.iter().map(|(k, _)| k).collect();
    let mut unique = keys.clone();
    unique.sort();
    unique.dedup();
    assert_eq!(unique.len(), keys.len());
}

#[test]
fn sibling_cursors_never_cross() {
    let mut fx = Fixture::default();
    fx.collections = pages(&[&["db"]]);
    fx.listings.insert(s("db"), pages(&[&["a", "b"], &["c"]]));
    fx.children.insert(s("a"), pages(&[&["a1"], &["a2"], &["a3"]]));
    fx.children.insert(s("b"), pages(&[&["b1"], &["b2"]]));
    fx.children.insert(s("c"), pages(&[&["c1"], &["c2"]]));
    let (rec, report) = run(&fx);
    assert_eq!(rec.child_calls[&s("a")], 3);
    assert_eq!(rec.child_calls[&s("b")], 2);
    assert_eq!(rec.child_calls[&s("c")], 2);
    assert_eq!(report.collections[0].report.status(), CollectionStatus::Success);
}

#[test]
fn two_entities_one_with_paged_children() {
    let mut fx = Fixture::default();
    fx.collections = pages(&[&["db"]]);
    fx.listings.insert(s("db"), pages(&[&["A", "B"]]));
    fx.children.insert(s("B"), pages(&[&["b1", "b2"], &["b3"]]));
    let (rec, report) = run(&fx);
    let descriptors = rec.writes.iter().filter(|(k, _)| k.starts_with("databases/")).count();
    assert_eq!(descriptors, 1);
    assert_eq!(entity_writes(&rec), vec!["pages/A.json", "pages/B.json"]);
    let b = &rec.writes.iter().find(|(k, _)| k == "pages/B.json").unwrap().1;
    assert_eq!(b, "page B|Some([\"b1\", \"b2\", \"b3\"])");
    let a = &rec.writes.iter().find(|(k, _)| k == "pages/A.json").unwrap().1;
    assert_eq!(a, "page A|Some([])");
    let c = &report.collections[0].report;
    assert!(c.warnings().is_empty());
    assert_eq!(c.status(), CollectionStatus::Success);
    assert!(report.success());
}
