use wiseowl_brain::adapters::{FoundationContextSource, SessionContextSource};
use wiseowl_brain::context::{BrainBudget, GroundedContextBuilder};
use wiseowl_brain::foundation::{FoundationKey, FoundationMemory, FoundationRecord};
use wiseowl_brain::grounded::{
    AuthIdentity, BrainContextSource, ContextSourceKind, FactFreshness, FactKind,
};

fn identity(uid: u64, session: u64) -> AuthIdentity {
    AuthIdentity { caller_pid: 10, caller_uid: uid, session_id: session }
}

fn memory(n: usize) -> FoundationMemory {
    let keys = [
        FoundationKey::AssistantName,
        FoundationKey::InternalCodename,
        FoundationKey::SunlightOsIdentity,
    ];
    FoundationMemory {
        schema_version: 1,
        tokenizer_id: 1,
        tokenizer_version: 1,
        tokenizer_fingerprint: [0; 32],
        records: (0..n)
            .map(|i| FoundationRecord {
                key: keys[i % 3],
                value: format!("value {}", i),
                token_offset: 0,
                token_count: 0,
            })
            .collect(),
        tokens: Vec::new(),
        integrity_hash: [0; 32],
    }
}

#[test]
fn default_budget_values() {
    let b = BrainBudget::default();
    assert_eq!(b.max_facts, 56);
    assert_eq!(b.max_total_bytes, 3072);
    assert_eq!(b.max_source_latency_ms, 50);
    assert_eq!(b.max_total_latency_ms, 200);
    assert_eq!(b.facts_remaining, 56);
}

#[test]
fn session_source_reports_user_and_session() {
    let facts = SessionContextSource.collect(&BrainBudget::default(), &identity(1000, 42));
    assert_eq!(facts.len(), 2);
    assert_eq!(facts[0].kind, FactKind::UserId);
    assert_eq!(facts[0].value, "1000");
    assert_eq!(facts[0].freshness, FactFreshness::CurrentSession);
    assert_eq!(facts[1].kind, FactKind::SessionId);
    assert_eq!(facts[1].value, "42");
    let only_user = SessionContextSource.collect(&BrainBudget::default(), &identity(0, 0));
    assert_eq!(only_user.len(), 1);
    assert_eq!(only_user[0].value, "0");
    let big = SessionContextSource.collect(&BrainBudget::default(), &identity(u64::MAX, 0));
    assert_eq!(big[0].value, "18446744073709551615");
}

#[test]
fn foundation_source_respects_fact_limit() {
    let m = memory(5);
    let source = FoundationContextSource { foundation: Some(&m) };
    assert!(source.is_available());
    assert_eq!(source.source_kind(), ContextSourceKind::Foundation);
    let mut budget = BrainBudget::default();
    budget.max_facts = 3;
    let facts = source.collect(&budget, &identity(1, 1));
    assert_eq!(facts.len(), 3);
    assert_eq!(facts[1].kind, FactKind::AssistantCodename);
    assert_eq!(facts[1].value, "value 1");
    assert_eq!(facts[0].freshness, FactFreshness::Persisted);
    let none = FoundationContextSource { foundation: None };
    assert!(!none.is_available());
    assert!(none.collect(&budget, &identity(1, 1)).is_empty());
}

#[test]
fn builder_tracks_sources_and_budget() {
    let mut builder = GroundedContextBuilder::new(identity(1000, 42));
    let facts = builder.gather_from(&SessionContextSource);
    assert_eq!(facts.len(), 2);
    assert!(builder.sources_consulted().has(ContextSourceKind::Session));
    assert!(builder.sources_succeeded().has(ContextSourceKind::Session));
    assert!(!builder.sources_degraded().has(ContextSourceKind::Session));
    let none = FoundationContextSource { foundation: None };
    let facts = builder.gather_from(&none);
    assert!(facts.is_empty());
    assert!(builder.sources_consulted().has(ContextSourceKind::Foundation));
    assert!(builder.sources_degraded().has(ContextSourceKind::Foundation));
    assert!(!builder.sources_succeeded().has(ContextSourceKind::Foundation));
    assert_eq!(builder.identity().caller_uid, 1000);
}

#[test]
fn exhausted_budget_degrades_sources() {
    let m = memory(60);
    let source = FoundationContextSource { foundation: Some(&m) };
    let mut builder = GroundedContextBuilder::new(identity(1, 1));
    let first = builder.gather_from(&source);
    assert_eq!(first.len(), 56);
    let second = builder.gather_from(&SessionContextSource);
    assert!(second.is_empty());
    assert!(builder.sources_degraded().has(ContextSourceKind::Session));
    assert!(builder.sources_consulted().has(ContextSourceKind::Session));
}

use wiseowl_brain::adapters::{IndexContextSource, WiseOwlStatusContextSource};

#[test]
fn memorydb_status_facts_follow_health() {
    let unqueried = WiseOwlStatusContextSource::query_native();
    assert!(!unqueried.queried);
    assert!(unqueried.collect(&BrainBudget::default(), &identity(1, 1)).is_empty());
    let missing = WiseOwlStatusContextSource::from_replies(false, None, None);
    assert!(missing.queried && missing.degraded && !missing.available);
    let facts = missing.collect(&BrainBudget::default(), &identity(1, 1));
    assert_eq!(facts.len(), 1);
    assert_eq!(facts[0].kind, FactKind::MemoryDbAvailable);
    assert_eq!(facts[0].value, "0");
    let healthy = WiseOwlStatusContextSource::from_replies(true, Some([1, 2]), Some([7, 0, 12]));
    assert!(healthy.healthy && !healthy.degraded && healthy.is_available());
    let facts = healthy.collect(&BrainBudget::default(), &identity(1, 1));
    assert_eq!(facts.len(), 4);
    assert_eq!(facts[1].kind, FactKind::MemoryDbHealthy);
    assert_eq!(facts[1].confidence, 100);
    assert_eq!(facts[2].value, "7");
    assert_eq!(facts[3].value, "12");
    let starting = WiseOwlStatusContextSource::from_replies(true, Some([1, 1]), None);
    assert!(!starting.healthy && starting.degraded && !starting.is_available());
    let mut budget = BrainBudget::default();
    budget.max_facts = 2;
    let facts = starting.collect(&budget, &identity(1, 1));
    assert_eq!(facts.len(), 2);
    assert_eq!(facts[1].confidence, 40);
    assert_eq!(facts[1].value, "0");
}

#[test]
fn index_status_facts_follow_readiness() {
    let ready = IndexContextSource::from_replies(true, Some([1, 0, 0, 0]), Some([0, 30, 0, 0, 4, 9]));
    assert!(ready.ready && ready.available);
    assert_eq!(ready.generation, 9);
    let facts = ready.collect(&BrainBudget::default(), &identity(1, 1));
    let kinds: Vec<FactKind> = facts.iter().map(|f| f.kind).collect();
    assert_eq!(
        kinds,
        vec![
            FactKind::IndexAvailable,
            FactKind::IndexReady,
            FactKind::IndexedSourceCount,
            FactKind::IndexedDocCount,
            FactKind::IndexGeneration
        ]
    );
    assert_eq!(facts[2].value, "4");
    assert_eq!(facts[3].value, "30");
    let warming = IndexContextSource::from_replies(true, Some([0, 0, 0, 5]), None);
    assert!(!warming.ready && warming.degraded);
    assert_eq!(warming.generation, 5);
    let facts = warming.collect(&BrainBudget::default(), &identity(1, 1));
    let kinds: Vec<FactKind> = facts.iter().map(|f| f.kind).collect();
    assert_eq!(kinds, vec![FactKind::IndexAvailable, FactKind::IndexReady, FactKind::IndexGeneration]);
    let gone = IndexContextSource::from_replies(true, None, None);
    assert!(gone.queried && gone.degraded && !gone.available);
    assert!(IndexContextSource::query_native().collect(&BrainBudget::default(), &identity(1, 1)).is_empty());
}
