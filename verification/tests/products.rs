use atsisbroken::browser::connector::ConnectorKind;
use atsisbroken::browser::products::{
    Authorship, Excerpt, ExcerptKind, Product, ProductGraph, ProductId, ProductKind, ProductStats,
};
use std::collections::BTreeMap;

fn sample_product() -> Product {
    Product {
        id: ProductId::new("github:cochranblock:atsisbroken"),
        source: ConnectorKind::GitHub,
        kind: ProductKind::Repo,
        title: "atsisbroken".into(),
        url: "https://github.com/cochranblock/atsisbroken".into(),
        published: "2026-04-01T00:00:00Z".into(),
        updated: "2026-05-09T12:00:00Z".into(),
        excerpts: vec![Excerpt {
            text: "ATS is broken.".into(),
            byte_offset: 14,
            byte_length: 14,
            kind: ExcerptKind::Intro,
        }],
        topics: vec!["rust".into(), "ats".into()],
        stats: ProductStats { popularity: 42, ..Default::default() },
        authorship: Authorship::Sole,
        metadata: BTreeMap::new(),
    }
}

#[test]
fn upsert_new_product_appends() {
    let mut g = ProductGraph::default();
    g.upsert(sample_product());
    assert_eq!(g.products.len(), 1);
}

#[test]
fn upsert_existing_product_replaces() {
    let mut g = ProductGraph::default();
    g.upsert(sample_product());
    let mut updated = sample_product();
    updated.title = "atsisbroken (updated)".into();
    g.upsert(updated);
    assert_eq!(g.products.len(), 1);
    assert_eq!(g.products[0].title, "atsisbroken (updated)");
}

#[test]
fn from_source_filters_by_connector() {
    let mut g = ProductGraph::default();
    g.upsert(sample_product());
    let mut so = sample_product();
    so.id = ProductId::new("stackoverflow:user/123:answer/456");
    so.source = ConnectorKind::StackOverflow;
    g.upsert(so);
    let github_count = g.from_source(ConnectorKind::GitHub).len();
    let so_count = g.from_source(ConnectorKind::StackOverflow).len();
    assert_eq!(github_count, 1);
    assert_eq!(so_count, 1);
}

#[test]
fn record_sync_and_lookup_round_trip() {
    let mut g = ProductGraph::default();
    g.record_sync(ConnectorKind::GitHub, "2026-05-09T13:00:00Z");
    assert_eq!(g.last_sync(ConnectorKind::GitHub), Some("2026-05-09T13:00:00Z"));
    assert_eq!(g.last_sync(ConnectorKind::StackOverflow), None);
}

#[test]
fn record_sync_overwrites_the_earlier_time() {
    let mut g = ProductGraph::default();
    g.record_sync(ConnectorKind::GitHub, "2026-05-09T13:00:00Z");
    g.record_sync(ConnectorKind::GitHub, "2026-05-10T08:00:00Z");
    assert_eq!(g.last_sync(ConnectorKind::GitHub), Some("2026-05-10T08:00:00Z"));
    assert_eq!(g.last_synced.len(), 1);
}

#[test]
fn upserting_twice_changes_nothing_more() {
    let mut a = ProductGraph::default();
    a.upsert(sample_product());
    let mut b = a.clone();
    b.upsert(sample_product());
    assert_eq!(a, b);
}

#[test]
fn from_source_keeps_graph_order() {
    let mut g = ProductGraph::default();
    for i in 0..3 {
        let mut p = sample_product();
        p.id = ProductId::new(&format!("github:x:{i}"));
        g.upsert(p);
    }
    let ids: Vec<&str> = g.from_source(ConnectorKind::GitHub).iter().map(|p| p.id.0.as_str()).collect();
    assert_eq!(ids, vec!["github:x:0", "github:x:1", "github:x:2"]);
}

#[test]
fn record_sync_leaves_other_connectors_alone() {
    let mut g = ProductGraph::default();
    g.record_sync(ConnectorKind::GitLab, "2026-05-01T00:00:00Z");
    g.record_sync(ConnectorKind::GitHub, "2026-05-09T13:00:00Z");
    g.record_sync(ConnectorKind::GitHub, "2026-05-10T08:00:00Z");
    assert_eq!(g.last_sync(ConnectorKind::GitLab), Some("2026-05-01T00:00:00Z"));
    assert_eq!(g.last_sync(ConnectorKind::GitHub), Some("2026-05-10T08:00:00Z"));
    assert_eq!(g.last_sync(ConnectorKind::Codeberg), None);
}
