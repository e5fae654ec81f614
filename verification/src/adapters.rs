//! Context sources: the caller's session and the foundation memory.
use vstd::prelude::*;
use vstd::utf8::{
    decode_utf8, encode_utf8, encode_utf8_decode_utf8, encode_utf8_valid_utf8, is_ascii_chars,
    is_ascii_chars_encode_utf8,
};

use crate::context::BrainBudget;
use crate::foundation::{utf8_text, FoundationMemory, FoundationRecord};
use crate::grounded::{AuthIdentity, BrainContextSource, ContextSourceKind, FactFreshness, FactKind, GroundedFact};
use crate::runtime_context::RuntimeContextSnapshot;

verus! {

/// The decimal digits of a number, most significant first.
pub open spec fn decimal_text(n: nat) -> Seq<char>
    decreases n,
{
    if n < 10 {
        seq![(48 + n) as char]
    } else {
        decimal_text(n / 10).push((48 + n % 10) as char)
    }
}

spec fn decimal_bytes(n: nat) -> Seq<u8>
    decreases n,
{
    if n < 10 {
        seq![(48 + n) as u8]
    } else {
        decimal_bytes(n / 10).push((48 + n % 10) as u8)
    }
}

proof fn lemma_decimal_ascii(n: nat)
    ensures
        is_ascii_chars(decimal_text(n)),
        decimal_bytes(n).len() == decimal_text(n).len(),
        forall|i: int| 0 <= i < decimal_text(n).len() ==> decimal_bytes(n)[i] == (#[trigger] decimal_text(n)[i]) as u8,
    decreases n,
{
    if n >= 10 {
        lemma_decimal_ascii(n / 10);
        let t = decimal_text(n);
        let p = decimal_text(n / 10);
        assert forall|i: int| 0 <= i < t.len() implies '\0' <= #[trigger] t[i] <= '\u{7f}' by {
            if i < p.len() {
                assert(t[i] == p[i]);
            }
        }
        assert forall|i: int| 0 <= i < t.len() implies decimal_bytes(n)[i] == (#[trigger] t[i]) as u8 by {
            if i < p.len() {
                assert(t[i] == p[i]);
                assert(decimal_bytes(n)[i] == decimal_bytes(n / 10)[i]);
            }
        }
    }
}

fn push_decimal(out: &mut Vec<u8>, v: u64)
    ensures
        final(out)@ == old(out)@ + decimal_bytes(v as nat),
    decreases v,
{
    if v >= 10 {
        push_decimal(out, v / 10);
    }
    let d: u8 = (v % 10) as u8;
    out.push(48 + d);
    proof {
        if v >= 10 {
            assert(out@ =~= old(out)@ + decimal_bytes(v as nat));
        } else {
            assert(out@ =~= old(out)@ + decimal_bytes(v as nat));
        }
    }
}

/// The decimal text of a number.
fn fact_u64(v: u64) -> (s: String)
    ensures
        s@ == decimal_text(v as nat),
{
    let mut bytes: Vec<u8> = Vec::new();
    push_decimal(&mut bytes, v);
    proof {
        lemma_decimal_ascii(v as nat);
        is_ascii_chars_encode_utf8(decimal_text(v as nat));
        assert(bytes@ =~= encode_utf8(decimal_text(v as nat)));
        encode_utf8_valid_utf8(decimal_text(v as nat));
        encode_utf8_decode_utf8(decimal_text(v as nat));
    }
    match utf8_text(bytes.as_slice()) {
        Some(s) => {
            proof {
                encode_utf8_decode_utf8(s@);
            }
            s
        },
        None => {
            proof {
                assert(false);
            }
            String::new()
        },
    }
}

/// The facts of the caller's session: its user, and its session when there is one.
pub struct SessionContextSource;

/// The session facts of an identity.
pub open spec fn session_facts(identity: AuthIdentity) -> Seq<(FactKind, Seq<char>)> {
    if identity.session_id != 0 {
        seq![
            (FactKind::UserId, decimal_text(identity.caller_uid as nat)),
            (FactKind::SessionId, decimal_text(identity.session_id as nat)),
        ]
    } else {
        seq![(FactKind::UserId, decimal_text(identity.caller_uid as nat))]
    }
}

/// A fact of this source: what it is, as this source reports it.
pub open spec fn fact_is(f: GroundedFact, kind: FactKind, source: ContextSourceKind, freshness: FactFreshness, confidence: u8, value: Seq<char>) -> bool {
    &&& f.kind == kind
    &&& f.source == source
    &&& f.freshness == freshness
    &&& f.confidence == confidence
    &&& f.value@ == value
}

impl BrainContextSource for SessionContextSource {
    open spec fn spec_kind(&self) -> ContextSourceKind {
        ContextSourceKind::Session
    }

    open spec fn spec_available(&self) -> bool {
        true
    }

    /// The caller's user and session, current for this session.
    open spec fn spec_yields(&self, budget: BrainBudget, identity: AuthIdentity, facts: Seq<GroundedFact>) -> bool {
        &&& facts.len() == session_facts(identity).len()
        &&& forall|i: int|
            0 <= i < facts.len() ==> fact_is(
                #[trigger] facts[i],
                session_facts(identity)[i].0,
                ContextSourceKind::Session,
                FactFreshness::CurrentSession,
                100,
                session_facts(identity)[i].1,
            )
    }

    fn source_kind(&self) -> (k: ContextSourceKind)
        ensures
            k == ContextSourceKind::Session,
    {
        ContextSourceKind::Session
    }

    fn is_available(&self) -> (r: bool)
        ensures
            r,
    {
        true
    }

    /// The caller's user and session, current for this session.
    fn collect(&self, _budget: &BrainBudget, identity: &AuthIdentity) -> (facts: Vec<GroundedFact>)
        ensures
            facts@.len() == session_facts(*identity).len(),
            forall|i: int|
                0 <= i < facts@.len() ==> fact_is(
                    #[trigger] facts@[i],
                    session_facts(*identity)[i].0,
                    ContextSourceKind::Session,
                    FactFreshness::CurrentSession,
                    100,
                    session_facts(*identity)[i].1,
                ),
    {
        let mut facts: Vec<GroundedFact> = Vec::new();
        facts.push(
            GroundedFact {
                kind: FactKind::UserId,
                source: ContextSourceKind::Session,
                freshness: FactFreshness::CurrentSession,
                confidence: 100,
                value: fact_u64(identity.caller_uid),
            },
        );
        if identity.session_id != 0 {
            facts.push(
                GroundedFact {
                    kind: FactKind::SessionId,
                    source: ContextSourceKind::Session,
                    freshness: FactFreshness::CurrentSession,
                    confidence: 100,
                    value: fact_u64(identity.session_id),
                },
            );
        }
        facts
    }
}

/// The foundation facts, persisted, in record order.
pub struct FoundationContextSource<'a> {
    pub foundation: Option<&'a FoundationMemory>,
}

impl<'a> BrainContextSource for FoundationContextSource<'a> {
    open spec fn spec_kind(&self) -> ContextSourceKind {
        ContextSourceKind::Foundation
    }

    open spec fn spec_available(&self) -> bool {
        self.foundation is Some
    }

    /// Up to the budget's fact limit of the foundation records, each as the
    /// fact its key supplies.
    open spec fn spec_yields(&self, budget: BrainBudget, identity: AuthIdentity, facts: Seq<GroundedFact>) -> bool {
        match self.foundation {
            None => facts.len() == 0,
            Some(m) => {
                &&& facts.len() == (if m.records@.len() < budget.max_facts {
                    m.records@.len()
                } else {
                    budget.max_facts as nat
                })
                &&& forall|i: int|
                    0 <= i < facts.len() ==> fact_is(
                        #[trigger] facts[i],
                        m.records@[i].key.spec_fact_kind(),
                        ContextSourceKind::Foundation,
                        FactFreshness::Persisted,
                        100,
                        m.records@[i].value@,
                    )
            },
        }
    }

    fn source_kind(&self) -> (k: ContextSourceKind)
        ensures
            k == ContextSourceKind::Foundation,
    {
        ContextSourceKind::Foundation
    }

    fn is_available(&self) -> (r: bool)
        ensures
            r == self.foundation is Some,
    {
        self.foundation.is_some()
    }

    /// Up to the budget's fact limit of the foundation records, each as the
    /// fact its key supplies.
    fn collect(&self, budget: &BrainBudget, _identity: &AuthIdentity) -> (facts: Vec<GroundedFact>)
        ensures
            match self.foundation {
                None => facts@.len() == 0,
                Some(m) => {
                    &&& facts@.len() == (if m.records@.len() < budget.max_facts {
                        m.records@.len()
                    } else {
                        budget.max_facts as nat
                    })
                    &&& forall|i: int|
                        0 <= i < facts@.len() ==> fact_is(
                            #[trigger] facts@[i],
                            m.records@[i].key.spec_fact_kind(),
                            ContextSourceKind::Foundation,
                            FactFreshness::Persisted,
                            100,
                            m.records@[i].value@,
                        )
                },
            },
    {
        let foundation = match self.foundation {
            Some(m) => m,
            None => return Vec::new(),
        };
        let max = budget.max_facts as usize;
        let mut facts: Vec<GroundedFact> = Vec::new();
        let mut i: usize = 0;
        while i < foundation.records.len() && facts.len() < max
            invariant
                0 <= i <= foundation.records@.len(),
                facts@.len() == i,
                i <= max,
                max == budget.max_facts,
                forall|k: int|
                    0 <= k < i ==> fact_is(
                        #[trigger] facts@[k],
                        foundation.records@[k].key.spec_fact_kind(),
                        ContextSourceKind::Foundation,
                        FactFreshness::Persisted,
                        100,
                        foundation.records@[k].value@,
                    ),
            decreases foundation.records@.len() - i,
        {
            let record: &FoundationRecord = &foundation.records[i];
            facts.push(
                GroundedFact {
                    kind: record.key.fact_kind(),
                    source: ContextSourceKind::Foundation,
                    freshness: FactFreshness::Persisted,
                    confidence: 100,
                    value: record.value.clone(),
                },
            );
            i = i + 1;
        }
        facts
    }
}

/// A fact value "1" or "0".
pub open spec fn flag_text(b: bool) -> Seq<char> {
    if b {
        "1"@
    } else {
        "0"@
    }
}

fn fact_flag(b: bool) -> (s: String)
    ensures
        s@ == flag_text(b),
{
    if b {
        "1".to_owned()
    } else {
        "0".to_owned()
    }
}

/// A candidate fact: kind, confidence and text, or nothing.
pub type FactSpec = (FactKind, u8, Seq<char>);

/// Facts a source yields when its candidates are taken in order, skipping
/// the absent ones, until the budget's fact limit.
pub open spec fn take_facts(candidates: Seq<Option<FactSpec>>, max: nat) -> Seq<FactSpec>
    decreases candidates.len(),
{
    if candidates.len() == 0 {
        Seq::empty()
    } else {
        let rest = take_facts(candidates.drop_last(), max);
        match candidates.last() {
            Some(f) => if rest.len() < max {
                rest.push(f)
            } else {
                rest
            },
            None => rest,
        }
    }
}

/// The facts are the candidates taken within the limit, each from `source`
/// with `freshness`.
pub open spec fn facts_match(
    facts: Seq<GroundedFact>,
    candidates: Seq<Option<FactSpec>>,
    max: nat,
    source: ContextSourceKind,
    freshness: FactFreshness,
) -> bool {
    let want = take_facts(candidates, max);
    &&& facts.len() == want.len()
    &&& forall|i: int|
        0 <= i < facts.len() ==> fact_is(#[trigger] facts[i], want[i].0, source, freshness, want[i].1, want[i].2)
}

/// Appends one candidate fact, when present and within the limit.
fn offer(
    facts: &mut Vec<GroundedFact>,
    max: usize,
    present: bool,
    kind: FactKind,
    source: ContextSourceKind,
    freshness: FactFreshness,
    confidence: u8,
    value: String,
    Ghost(candidates): Ghost<Seq<Option<FactSpec>>>,
)
    requires
        facts_match(old(facts)@, candidates, max as nat, source, freshness),
    ensures
        facts_match(
            final(facts)@,
            candidates.push(
                if present {
                    Some((kind, confidence, value@))
                } else {
                    None
                },
            ),
            max as nat,
            source,
            freshness,
        ),
{
    let ghost c2 = candidates.push(
        if present {
            Some((kind, confidence, value@))
        } else {
            None
        },
    );
    proof {
        assert(c2.drop_last() =~= candidates);
    }
    if present && facts.len() < max {
        facts.push(GroundedFact { kind, source, freshness, confidence, value });
        proof {
            let want = take_facts(c2, max as nat);
            assert forall|i: int| 0 <= i < facts@.len() implies fact_is(
                #[trigger] facts@[i],
                want[i].0,
                source,
                freshness,
                want[i].1,
                want[i].2,
            ) by {
                if i < facts@.len() - 1 {
                    assert(facts@[i] == old(facts)@[i]);
                }
            }
        }
    }
}

/// MemoryDB status only: no document is ever retrieved.
pub struct WiseOwlStatusContextSource {
    pub available: bool,
    pub healthy: bool,
    pub generation: u64,
    pub record_count: u64,
    pub queried: bool,
    pub degraded: bool,
}

impl Default for WiseOwlStatusContextSource {
    fn default() -> (s: Self)
        ensures
            !s.available && !s.healthy && s.generation == 0 && s.record_count == 0 && !s.queried && s.degraded,
    {
        WiseOwlStatusContextSource {
            available: false,
            healthy: false,
            generation: 0,
            record_count: 0,
            queried: false,
            degraded: true,
        }
    }
}

impl WiseOwlStatusContextSource {
    /// The status without a MemoryDB service to ask: never queried.
    pub fn query_native() -> (s: Self)
        ensures
            !s.available && !s.healthy && s.generation == 0 && s.record_count == 0 && !s.queried && s.degraded,
    {
        Self::default()
    }

    /// The status from MemoryDB's replies: `health` and `stats` hold the
    /// reply words of the health and statistics calls, when the service was
    /// found and answered with its reply label. Healthy means a nonzero
    /// first word and the ready state (2) in the second.
    pub fn from_replies(found: bool, health: Option<[u64; 2]>, stats: Option<[u64; 3]>) -> (s: Self)
        ensures
            !found ==> s.queried && s.degraded && !s.available && !s.healthy && s.generation == 0
                && s.record_count == 0,
            found && health is None ==> s.queried && s.degraded && !s.available && !s.healthy && s.generation
                == 0 && s.record_count == 0,
            found ==> (health matches Some(h) ==> {
                &&& s.queried && s.available
                &&& s.healthy == (h[0] != 0 && h[1] == 2)
                &&& s.degraded == !s.healthy
                &&& s.generation == (match stats {
                    Some(w) => w[0],
                    None => 0,
                })
                &&& s.record_count == (match stats {
                    Some(w) => w[2],
                    None => 0,
                })
            }),
    {
        let mut out = Self::default();
        out.queried = true;
        if !found {
            out.degraded = true;
            return out;
        }
        match health {
            Some(h) => {
                out.available = true;
                out.healthy = h[0] != 0 && h[1] == 2;
                out.degraded = !out.healthy;
            },
            None => {
                out.degraded = true;
                return out;
            },
        }
        if let Some(w) = stats {
            out.generation = w[0];
            out.record_count = w[2];
        }
        out
    }

    /// The candidate facts of this status, in order.
    pub open spec fn candidates(&self) -> Seq<Option<FactSpec>> {
        seq![
            Some((FactKind::MemoryDbAvailable, 100u8, flag_text(self.available))),
            if self.available {
                Some(
                    (
                        FactKind::MemoryDbHealthy,
                        if self.healthy {
                            100u8
                        } else {
                            40u8
                        },
                        flag_text(self.healthy),
                    ),
                )
            } else {
                None
            },
            if self.available {
                Some((FactKind::MemoryDbGeneration, 100u8, decimal_text(self.generation as nat)))
            } else {
                None
            },
            if self.available {
                Some((FactKind::MemoryDbRecordCount, 100u8, decimal_text(self.record_count as nat)))
            } else {
                None
            },
        ]
    }
}

impl BrainContextSource for WiseOwlStatusContextSource {
    open spec fn spec_kind(&self) -> ContextSourceKind {
        ContextSourceKind::WiseOwlStatus
    }

    open spec fn spec_available(&self) -> bool {
        self.available && !self.degraded
    }

    /// Nothing unless queried; otherwise its candidate facts, in order, within
    /// the fact limit.
    open spec fn spec_yields(&self, budget: BrainBudget, identity: AuthIdentity, facts: Seq<GroundedFact>) -> bool {
        &&& !self.queried ==> facts.len() == 0
        &&& self.queried ==> facts_match(
            facts,
            self.candidates(),
            budget.max_facts as nat,
            ContextSourceKind::WiseOwlStatus,
            FactFreshness::ServiceSnapshot,
        )
    }

    fn source_kind(&self) -> (k: ContextSourceKind)
        ensures
            k == ContextSourceKind::WiseOwlStatus,
    {
        ContextSourceKind::WiseOwlStatus
    }

    fn is_available(&self) -> (r: bool)
        ensures
            r == (self.available && !self.degraded),
    {
        self.available && !self.degraded
    }

    /// Nothing unless queried; otherwise availability, and when available
    /// health, generation and record count, within the fact limit.
    fn collect(&self, budget: &BrainBudget, _identity: &AuthIdentity) -> (facts: Vec<GroundedFact>)
        ensures
            !self.queried ==> facts@.len() == 0,
            self.queried ==> facts_match(
                facts@,
                self.candidates(),
                budget.max_facts as nat,
                ContextSourceKind::WiseOwlStatus,
                FactFreshness::ServiceSnapshot,
            ),
    {
        let mut facts: Vec<GroundedFact> = Vec::new();
        if !self.queried {
            return facts;
        }
        let max = budget.max_facts as usize;
        let src = ContextSourceKind::WiseOwlStatus;
        let fresh = FactFreshness::ServiceSnapshot;
        let ghost c0 = Seq::<Option<FactSpec>>::empty();
        offer(&mut facts, max, true, FactKind::MemoryDbAvailable, src, fresh, 100, fact_flag(self.available), Ghost(c0));
        let ghost c1 = c0.push(Some((FactKind::MemoryDbAvailable, 100u8, flag_text(self.available))));
        let confidence: u8 = if self.healthy {
            100
        } else {
            40
        };
        offer(&mut facts, max, self.available, FactKind::MemoryDbHealthy, src, fresh, confidence, fact_flag(self.healthy), Ghost(c1));
        let ghost c2 = c1.push(self.candidates()[1]);
        offer(&mut facts, max, self.available, FactKind::MemoryDbGeneration, src, fresh, 100, fact_u64(self.generation), Ghost(c2));
        let ghost c3 = c2.push(self.candidates()[2]);
        offer(&mut facts, max, self.available, FactKind::MemoryDbRecordCount, src, fresh, 100, fact_u64(self.record_count), Ghost(c3));
        proof {
            assert(c3.push(self.candidates()[3]) =~= self.candidates());
        }
        facts
    }
}

/// Index status only: no document text is ever retrieved.
pub struct IndexContextSource {
    pub available: bool,
    pub ready: bool,
    pub sources_tracked: u64,
    pub files_indexed: u64,
    pub generation: u64,
    pub queried: bool,
    pub degraded: bool,
}

impl Default for IndexContextSource {
    fn default() -> (s: Self)
        ensures
            !s.available && !s.ready && s.sources_tracked == 0 && s.files_indexed == 0 && s.generation == 0
                && !s.queried && s.degraded,
    {
        IndexContextSource {
            available: false,
            ready: false,
            sources_tracked: 0,
            files_indexed: 0,
            generation: 0,
            queried: false,
            degraded: true,
        }
    }
}

impl IndexContextSource {
    /// The status without an index service to ask: never queried.
    pub fn query_native() -> (s: Self)
        ensures
            !s.available && !s.ready && s.sources_tracked == 0 && s.files_indexed == 0 && s.generation == 0
                && !s.queried && s.degraded,
    {
        Self::default()
    }

    /// The status from the index's replies: `health` and `stats` hold the
    /// reply words of the health call and of the first statistics page, when
    /// the service was found and answered with its reply label.
    pub fn from_replies(found: bool, health: Option<[u64; 4]>, stats: Option<[u64; 6]>) -> (s: Self)
        ensures
            !found || health is None ==> s.queried && s.degraded && !s.available && !s.ready
                && s.sources_tracked == 0 && s.files_indexed == 0 && s.generation == 0,
            found ==> (health matches Some(h) ==> {
                &&& s.queried && s.available
                &&& s.ready == (h[0] != 0)
                &&& s.degraded == !s.ready
                &&& s.files_indexed == (match stats {
                    Some(w) => w[1],
                    None => 0,
                })
                &&& s.sources_tracked == (match stats {
                    Some(w) => w[4],
                    None => 0,
                })
                &&& s.generation == (if h[3] == 0 {
                    match stats {
                        Some(w) => w[5],
                        None => 0,
                    }
                } else {
                    h[3]
                })
            }),
    {
        let mut out = Self::default();
        out.queried = true;
        if !found {
            out.degraded = true;
            return out;
        }
        match health {
            Some(h) => {
                out.available = true;
                out.ready = h[0] != 0;
                out.generation = h[3];
                out.degraded = !out.ready;
            },
            None => {
                out.degraded = true;
                return out;
            },
        }
        if let Some(w) = stats {
            out.files_indexed = w[1];
            out.sources_tracked = w[4];
            if out.generation == 0 {
                out.generation = w[5];
            }
        }
        out
    }

    /// The candidate facts of this status, in order.
    pub open spec fn candidates(&self) -> Seq<Option<FactSpec>> {
        seq![
            Some((FactKind::IndexAvailable, 100u8, flag_text(self.available))),
            if self.available {
                Some(
                    (
                        FactKind::IndexReady,
                        if self.ready {
                            100u8
                        } else {
                            40u8
                        },
                        flag_text(self.ready),
                    ),
                )
            } else {
                None
            },
            if self.available && self.ready && self.sources_tracked > 0 {
                Some((FactKind::IndexedSourceCount, 100u8, decimal_text(self.sources_tracked as nat)))
            } else {
                None
            },
            if self.available && self.files_indexed > 0 {
                Some((FactKind::IndexedDocCount, 100u8, decimal_text(self.files_indexed as nat)))
            } else {
                None
            },
            if self.available {
                Some((FactKind::IndexGeneration, 100u8, decimal_text(self.generation as nat)))
            } else {
                None
            },
        ]
    }
}

impl BrainContextSource for IndexContextSource {
    open spec fn spec_kind(&self) -> ContextSourceKind {
        ContextSourceKind::Index
    }

    open spec fn spec_available(&self) -> bool {
        self.available
    }

    /// Nothing unless queried; otherwise its candidate facts, in order, within
    /// the fact limit.
    open spec fn spec_yields(&self, budget: BrainBudget, identity: AuthIdentity, facts: Seq<GroundedFact>) -> bool {
        &&& !self.queried ==> facts.len() == 0
        &&& self.queried ==> facts_match(
            facts,
            self.candidates(),
            budget.max_facts as nat,
            ContextSourceKind::Index,
            FactFreshness::ServiceSnapshot,
        )
    }

    fn source_kind(&self) -> (k: ContextSourceKind)
        ensures
            k == ContextSourceKind::Index,
    {
        ContextSourceKind::Index
    }

    fn is_available(&self) -> (r: bool)
        ensures
            r == self.available,
    {
        self.available
    }

    /// Nothing unless queried; otherwise availability, and when available
    /// readiness, source and document counts, and generation, within the
    /// fact limit.
    fn collect(&self, budget: &BrainBudget, _identity: &AuthIdentity) -> (facts: Vec<GroundedFact>)
        ensures
            !self.queried ==> facts@.len() == 0,
            self.queried ==> facts_match(
                facts@,
                self.candidates(),
                budget.max_facts as nat,
                ContextSourceKind::Index,
                FactFreshness::ServiceSnapshot,
            ),
    {
        let mut facts: Vec<GroundedFact> = Vec::new();
        if !self.queried {
            return facts;
        }
        let max = budget.max_facts as usize;
        let src = ContextSourceKind::Index;
        let fresh = FactFreshness::ServiceSnapshot;
        let ghost c0 = Seq::<Option<FactSpec>>::empty();
        offer(&mut facts, max, true, FactKind::IndexAvailable, src, fresh, 100, fact_flag(self.available), Ghost(c0));
        let ghost c1 = c0.push(self.candidates()[0]);
        let confidence: u8 = if self.ready {
            100
        } else {
            40
        };
        offer(&mut facts, max, self.available, FactKind::IndexReady, src, fresh, confidence, fact_flag(self.ready), Ghost(c1));
        let ghost c2 = c1.push(self.candidates()[1]);
        offer(
            &mut facts,
            max,
            self.available && self.ready && self.sources_tracked > 0,
            FactKind::IndexedSourceCount,
            src,
            fresh,
            100,
            fact_u64(self.sources_tracked),
            Ghost(c2),
        );
        let ghost c3 = c2.push(self.candidates()[2]);
        offer(
            &mut facts,
            max,
            self.available && self.files_indexed > 0,
            FactKind::IndexedDocCount,
            src,
            fresh,
            100,
            fact_u64(self.files_indexed),
            Ghost(c3),
        );
        let ghost c4 = c3.push(self.candidates()[3]);
        offer(&mut facts, max, self.available, FactKind::IndexGeneration, src, fresh, 100, fact_u64(self.generation), Ghost(c4));
        proof {
            assert(c4.push(self.candidates()[4]) =~= self.candidates());
        }
        facts
    }
}


/// A candidate runtime fact: kind, freshness and text.
pub type RuntimeFactSpec = (FactKind, FactFreshness, Seq<char>);

/// The runtime facts taken from the candidates in order, skipping the
/// absent ones, until the fact limit.
pub open spec fn take_runtime(candidates: Seq<Option<RuntimeFactSpec>>, max: nat) -> Seq<RuntimeFactSpec>
    decreases candidates.len(),
{
    if candidates.len() == 0 {
        Seq::empty()
    } else {
        let rest = take_runtime(candidates.drop_last(), max);
        match candidates.last() {
            Some(f) => if rest.len() < max {
                rest.push(f)
            } else {
                rest
            },
            None => rest,
        }
    }
}

/// Never more runtime facts than the limit, and never more than candidates.
pub proof fn lemma_take_runtime_bounded(candidates: Seq<Option<RuntimeFactSpec>>, max: nat)
    ensures
        take_runtime(candidates, max).len() <= max,
        take_runtime(candidates, max).len() <= candidates.len(),
    decreases candidates.len(),
{
    if candidates.len() > 0 {
        lemma_take_runtime_bounded(candidates.drop_last(), max);
    }
}

/// The facts are the runtime candidates taken within the limit, each from
/// the runtime source with full confidence.
pub open spec fn runtime_facts_match(facts: Seq<GroundedFact>, candidates: Seq<Option<RuntimeFactSpec>>, max: nat) -> bool {
    let want = take_runtime(candidates, max);
    &&& facts.len() == want.len()
    &&& forall|i: int|
        0 <= i < facts.len() ==> fact_is(
            #[trigger] facts[i],
            want[i].0,
            ContextSourceKind::Runtime,
            want[i].1,
            100,
            want[i].2,
        )
}

/// A text value is a candidate when present and, where `nonempty` is
/// asked, not empty.
pub open spec fn text_candidate(kind: FactKind, freshness: FactFreshness, value: Option<String>, nonempty: bool) -> Option<RuntimeFactSpec> {
    match value {
        Some(v) => if !nonempty || v@.len() > 0 {
            Some((kind, freshness, v@))
        } else {
            None
        },
        None => None,
    }
}

/// A number is a candidate, in decimal, when present.
pub open spec fn number_candidate(kind: FactKind, freshness: FactFreshness, value: Option<u64>) -> Option<RuntimeFactSpec> {
    match value {
        Some(n) => Some((kind, freshness, decimal_text(n as nat))),
        None => None,
    }
}

/// A flag is a candidate, as "1" or "0", when present.
pub open spec fn flag_candidate(kind: FactKind, freshness: FactFreshness, value: Option<bool>) -> Option<RuntimeFactSpec> {
    match value {
        Some(b) => Some((kind, freshness, flag_text(b))),
        None => None,
    }
}

pub open spec fn widen(v: Option<u32>) -> Option<u64> {
    match v {
        Some(n) => Some(n as u64),
        None => None,
    }
}

/// The screen size "WxH", when both sides are known.
pub open spec fn dims_candidate(width: Option<u32>, height: Option<u32>) -> Option<RuntimeFactSpec> {
    match (width, height) {
        (Some(w), Some(h)) => Some(
            (
                FactKind::ScreenDims,
                FactFreshness::ServiceSnapshot,
                decimal_text(w as nat) + seq!['x'] + decimal_text(h as nat),
            ),
        ),
        _ => None,
    }
}

/// Appends the `k`-th runtime candidate, when present and within the limit.
fn offer_runtime(
    facts: &mut Vec<GroundedFact>,
    max: usize,
    candidate: Option<(FactKind, FactFreshness, String)>,
    Ghost(all): Ghost<Seq<Option<RuntimeFactSpec>>>,
    Ghost(k): Ghost<int>,
)
    requires
        0 <= k < all.len(),
        runtime_facts_match(old(facts)@, all.take(k), max as nat),
        all[k] == (match candidate {
            Some(c) => Some((c.0, c.1, c.2@)),
            None => None::<RuntimeFactSpec>,
        }),
    ensures
        runtime_facts_match(final(facts)@, all.take(k + 1), max as nat),
{
    let ghost c2 = all.take(k + 1);
    proof {
        assert(c2.drop_last() =~= all.take(k));
        assert(c2.last() == all[k]);
    }
    match candidate {
        Some(c) => {
            if facts.len() < max {
                let (kind, freshness, value) = c;
                facts.push(GroundedFact { kind, source: ContextSourceKind::Runtime, freshness, confidence: 100, value });
                proof {
                    let want = take_runtime(c2, max as nat);
                    assert forall|i: int| 0 <= i < facts@.len() implies fact_is(
                        #[trigger] facts@[i],
                        want[i].0,
                        ContextSourceKind::Runtime,
                        want[i].1,
                        100,
                        want[i].2,
                    ) by {
                        if i < facts@.len() - 1 {
                            assert(facts@[i] == old(facts)@[i]);
                        }
                    }
                }
            }
        },
        None => {},
    }
}

fn text_offer(kind: FactKind, freshness: FactFreshness, value: &Option<String>, nonempty: bool) -> (c: Option<(FactKind, FactFreshness, String)>)
    ensures
        (match c {
            Some(c) => Some((c.0, c.1, c.2@)),
            None => None::<RuntimeFactSpec>,
        }) == text_candidate(kind, freshness, *value, nonempty),
{
    match value {
        Some(v) => {
            if !nonempty || v.as_str().unicode_len() > 0 {
                Some((kind, freshness, v.clone()))
            } else {
                None
            }
        },
        None => None,
    }
}

fn number_offer(kind: FactKind, freshness: FactFreshness, value: Option<u64>) -> (c: Option<(FactKind, FactFreshness, String)>)
    ensures
        (match c {
            Some(c) => Some((c.0, c.1, c.2@)),
            None => None::<RuntimeFactSpec>,
        }) == number_candidate(kind, freshness, value),
{
    match value {
        Some(n) => Some((kind, freshness, fact_u64(n))),
        None => None,
    }
}

fn flag_offer(kind: FactKind, freshness: FactFreshness, value: Option<bool>) -> (c: Option<(FactKind, FactFreshness, String)>)
    ensures
        (match c {
            Some(c) => Some((c.0, c.1, c.2@)),
            None => None::<RuntimeFactSpec>,
        }) == flag_candidate(kind, freshness, value),
{
    match value {
        Some(b) => Some((kind, freshness, fact_flag(b))),
        None => None,
    }
}

fn widen_exec(v: Option<u32>) -> (r: Option<u64>)
    ensures
        r == widen(v),
{
    match v {
        Some(n) => Some(n as u64),
        None => None,
    }
}

fn dims_offer(width: Option<u32>, height: Option<u32>) -> (c: Option<(FactKind, FactFreshness, String)>)
    ensures
        (match c {
            Some(c) => Some((c.0, c.1, c.2@)),
            None => None::<RuntimeFactSpec>,
        }) == dims_candidate(width, height),
{
    match (width, height) {
        (Some(w), Some(h)) => {
            let mut bytes: Vec<u8> = Vec::new();
            push_decimal(&mut bytes, w as u64);
            bytes.push(120u8);
            push_decimal(&mut bytes, h as u64);
            let ghost text = decimal_text(w as nat) + seq!['x'] + decimal_text(h as nat);
            proof {
                lemma_decimal_ascii(w as nat);
                lemma_decimal_ascii(h as nat);
                let tw = decimal_text(w as nat);
                let th = decimal_text(h as nat);
                assert forall|i: int| 0 <= i < text.len() implies '\0' <= #[trigger] text[i] <= '\u{7f}' by {
                    if i < tw.len() {
                        assert(text[i] == tw[i]);
                    } else if i > tw.len() {
                        assert(text[i] == th[i - tw.len() - 1]);
                    }
                }
                assert(is_ascii_chars(text));
                is_ascii_chars_encode_utf8(text);
                assert forall|i: int| 0 <= i < text.len() implies bytes@[i] == (#[trigger] text[i]) as u8 by {
                    if i < tw.len() {
                        assert(text[i] == tw[i]);
                        assert(bytes@[i] == decimal_bytes(w as nat)[i]);
                    } else if i > tw.len() {
                        assert(text[i] == th[i - tw.len() - 1]);
                        assert(bytes@[i] == decimal_bytes(h as nat)[i - tw.len() - 1]);
                    }
                }
                assert(bytes@ =~= encode_utf8(text));
                encode_utf8_valid_utf8(text);
                encode_utf8_decode_utf8(text);
            }
            match utf8_text(bytes.as_slice()) {
                Some(s) => {
                    proof {
                        encode_utf8_decode_utf8(s@);
                    }
                    Some((FactKind::ScreenDims, FactFreshness::ServiceSnapshot, s))
                },
                None => {
                    proof {
                        assert(false);
                    }
                    None
                },
            }
        },
        _ => None,
    }
}

/// Live operating-system state, as one snapshot holds it.
pub struct RuntimeContextSource<'a> {
    pub snapshot: &'a RuntimeContextSnapshot,
}

impl<'a> RuntimeContextSource<'a> {
    /// The runtime's candidate facts, in the order they are offered:
    /// system, time zone, session, network, display, then services.
    pub open spec fn candidates(&self) -> Seq<Option<RuntimeFactSpec>> {
        let s = self.snapshot;
        seq![
            text_candidate(FactKind::OsVersion, FactFreshness::CurrentBoot, s.system.os_version, true),
            text_candidate(FactKind::RuntimeBuild, FactFreshness::CurrentBoot, s.system.build, true),
            text_candidate(FactKind::RuntimeArchitecture, FactFreshness::CurrentBoot, s.system.architecture, true),
            text_candidate(FactKind::Locale, FactFreshness::CurrentBoot, s.system.locale, true),
            text_candidate(FactKind::RuntimeTimezone, FactFreshness::ServiceSnapshot, s.timezone.identifier, true),
            number_candidate(FactKind::RuntimeUptimeSecs, FactFreshness::ServiceSnapshot, s.system.uptime_secs),
            text_candidate(FactKind::RuntimeHostname, FactFreshness::CurrentBoot, s.system.hostname, true),
            number_candidate(FactKind::CpuCores, FactFreshness::CurrentBoot, widen(s.system.cpu_count)),
            number_candidate(FactKind::RamMib, FactFreshness::CurrentBoot, widen(s.system.ram_mib)),
            text_candidate(FactKind::UserName, FactFreshness::CurrentSession, s.session.current_user, true),
            text_candidate(FactKind::RuntimeBootMode, FactFreshness::CurrentSession, s.session.boot_mode, true),
            flag_candidate(FactKind::RuntimeDesktopMode, FactFreshness::CurrentSession, s.session.desktop_mode),
            flag_candidate(FactKind::RuntimeInstallerMode, FactFreshness::CurrentSession, s.session.installer_mode),
            flag_candidate(FactKind::RuntimeRecoveryMode, FactFreshness::CurrentSession, s.session.recovery_mode),
            text_candidate(FactKind::RuntimeSessionState, FactFreshness::CurrentSession, s.session.state, true),
            flag_candidate(FactKind::RuntimeNetworkAvailable, FactFreshness::ServiceSnapshot, s.network.available),
            flag_candidate(FactKind::NetworkOnline, FactFreshness::ServiceSnapshot, s.network.connected),
            number_candidate(FactKind::RuntimeInterfaceCount, FactFreshness::ServiceSnapshot, widen(s.network.interface_count)),
            dims_candidate(s.display.width_px, s.display.height_px),
            number_candidate(FactKind::RuntimeDisplayScale, FactFreshness::ServiceSnapshot, widen(s.display.scale_percent)),
            text_candidate(FactKind::ServiceSunlightd, FactFreshness::ServiceSnapshot, s.services.sunlightd, false),
            text_candidate(FactKind::ServiceSessiond, FactFreshness::ServiceSnapshot, s.services.sessiond, false),
            text_candidate(FactKind::ServiceNetworkd, FactFreshness::ServiceSnapshot, s.services.networkd, false),
            text_candidate(FactKind::ServiceResolved, FactFreshness::ServiceSnapshot, s.services.resolved, false),
            text_candidate(FactKind::ServiceTimezone, FactFreshness::ServiceSnapshot, s.services.timezone_service, false),
            text_candidate(FactKind::ServiceTimed, FactFreshness::ServiceSnapshot, s.services.timed, false),
            text_candidate(FactKind::ServicePowerd, FactFreshness::ServiceSnapshot, s.services.powerd, false),
            text_candidate(FactKind::ServiceThermald, FactFreshness::ServiceSnapshot, s.services.thermald, false),
            text_candidate(FactKind::ServiceDisplay, FactFreshness::ServiceSnapshot, s.services.display, false),
        ]
    }
}

impl<'a> BrainContextSource for RuntimeContextSource<'a> {
    open spec fn spec_kind(&self) -> ContextSourceKind {
        ContextSourceKind::Runtime
    }

    open spec fn spec_available(&self) -> bool {
        self.snapshot.available
    }

    /// The runtime's candidate facts, in order, within the fact limit.
    open spec fn spec_yields(&self, budget: BrainBudget, identity: AuthIdentity, facts: Seq<GroundedFact>) -> bool {
        runtime_facts_match(facts, self.candidates(), budget.max_facts as nat)
    }

    fn source_kind(&self) -> (k: ContextSourceKind)
        ensures
            k == ContextSourceKind::Runtime,
    {
        ContextSourceKind::Runtime
    }

    fn is_available(&self) -> (r: bool)
        ensures
            r == self.snapshot.available,
    {
        self.snapshot.available
    }

    /// Offers each present runtime value as a fact, in order, until the fact
    /// limit: text values only when not empty.
    #[verifier::rlimit(60)]
    fn collect(&self, budget: &BrainBudget, _identity: &AuthIdentity) -> (facts: Vec<GroundedFact>)
        ensures
            runtime_facts_match(facts@, self.candidates(), budget.max_facts as nat),
            facts@.len() <= budget.max_facts,
    {
        let mut facts: Vec<GroundedFact> = Vec::new();
        let max = budget.max_facts as usize;
        let s = self.snapshot;
        let ghost all = self.candidates();
        proof {
            assert(all.take(0) =~= Seq::<Option<RuntimeFactSpec>>::empty());
        }
        offer_runtime(&mut facts, max, text_offer(FactKind::OsVersion, FactFreshness::CurrentBoot, &s.system.os_version, true), Ghost(all), Ghost(0));
        offer_runtime(&mut facts, max, text_offer(FactKind::RuntimeBuild, FactFreshness::CurrentBoot, &s.system.build, true), Ghost(all), Ghost(1));
        offer_runtime(&mut facts, max, text_offer(FactKind::RuntimeArchitecture, FactFreshness::CurrentBoot, &s.system.architecture, true), Ghost(all), Ghost(2));
        offer_runtime(&mut facts, max, text_offer(FactKind::Locale, FactFreshness::CurrentBoot, &s.system.locale, true), Ghost(all), Ghost(3));
        offer_runtime(&mut facts, max, text_offer(FactKind::RuntimeTimezone, FactFreshness::ServiceSnapshot, &s.timezone.identifier, true), Ghost(all), Ghost(4));
        offer_runtime(&mut facts, max, number_offer(FactKind::RuntimeUptimeSecs, FactFreshness::ServiceSnapshot, s.system.uptime_secs), Ghost(all), Ghost(5));
        offer_runtime(&mut facts, max, text_offer(FactKind::RuntimeHostname, FactFreshness::CurrentBoot, &s.system.hostname, true), Ghost(all), Ghost(6));
        offer_runtime(&mut facts, max, number_offer(FactKind::CpuCores, FactFreshness::CurrentBoot, widen_exec(s.system.cpu_count)), Ghost(all), Ghost(7));
        offer_runtime(&mut facts, max, number_offer(FactKind::RamMib, FactFreshness::CurrentBoot, widen_exec(s.system.ram_mib)), Ghost(all), Ghost(8));
        offer_runtime(&mut facts, max, text_offer(FactKind::UserName, FactFreshness::CurrentSession, &s.session.current_user, true), Ghost(all), Ghost(9));
        offer_runtime(&mut facts, max, text_offer(FactKind::RuntimeBootMode, FactFreshness::CurrentSession, &s.session.boot_mode, true), Ghost(all), Ghost(10));
        offer_runtime(&mut facts, max, flag_offer(FactKind::RuntimeDesktopMode, FactFreshness::CurrentSession, s.session.desktop_mode), Ghost(all), Ghost(11));
        offer_runtime(&mut facts, max, flag_offer(FactKind::RuntimeInstallerMode, FactFreshness::CurrentSession, s.session.installer_mode), Ghost(all), Ghost(12));
        offer_runtime(&mut facts, max, flag_offer(FactKind::RuntimeRecoveryMode, FactFreshness::CurrentSession, s.session.recovery_mode), Ghost(all), Ghost(13));
        offer_runtime(&mut facts, max, text_offer(FactKind::RuntimeSessionState, FactFreshness::CurrentSession, &s.session.state, true), Ghost(all), Ghost(14));
        offer_runtime(&mut facts, max, flag_offer(FactKind::RuntimeNetworkAvailable, FactFreshness::ServiceSnapshot, s.network.available), Ghost(all), Ghost(15));
        offer_runtime(&mut facts, max, flag_offer(FactKind::NetworkOnline, FactFreshness::ServiceSnapshot, s.network.connected), Ghost(all), Ghost(16));
        offer_runtime(&mut facts, max, number_offer(FactKind::RuntimeInterfaceCount, FactFreshness::ServiceSnapshot, widen_exec(s.network.interface_count)), Ghost(all), Ghost(17));
        offer_runtime(&mut facts, max, dims_offer(s.display.width_px, s.display.height_px), Ghost(all), Ghost(18));
        offer_runtime(&mut facts, max, number_offer(FactKind::RuntimeDisplayScale, FactFreshness::ServiceSnapshot, widen_exec(s.display.scale_percent)), Ghost(all), Ghost(19));
        offer_runtime(&mut facts, max, text_offer(FactKind::ServiceSunlightd, FactFreshness::ServiceSnapshot, &s.services.sunlightd, false), Ghost(all), Ghost(20));
        offer_runtime(&mut facts, max, text_offer(FactKind::ServiceSessiond, FactFreshness::ServiceSnapshot, &s.services.sessiond, false), Ghost(all), Ghost(21));
        offer_runtime(&mut facts, max, text_offer(FactKind::ServiceNetworkd, FactFreshness::ServiceSnapshot, &s.services.networkd, false), Ghost(all), Ghost(22));
        offer_runtime(&mut facts, max, text_offer(FactKind::ServiceResolved, FactFreshness::ServiceSnapshot, &s.services.resolved, false), Ghost(all), Ghost(23));
        offer_runtime(&mut facts, max, text_offer(FactKind::ServiceTimezone, FactFreshness::ServiceSnapshot, &s.services.timezone_service, false), Ghost(all), Ghost(24));
        offer_runtime(&mut facts, max, text_offer(FactKind::ServiceTimed, FactFreshness::ServiceSnapshot, &s.services.timed, false), Ghost(all), Ghost(25));
        offer_runtime(&mut facts, max, text_offer(FactKind::ServicePowerd, FactFreshness::ServiceSnapshot, &s.services.powerd, false), Ghost(all), Ghost(26));
        offer_runtime(&mut facts, max, text_offer(FactKind::ServiceThermald, FactFreshness::ServiceSnapshot, &s.services.thermald, false), Ghost(all), Ghost(27));
        offer_runtime(&mut facts, max, text_offer(FactKind::ServiceDisplay, FactFreshness::ServiceSnapshot, &s.services.display, false), Ghost(all), Ghost(28));
        proof {
            assert(all.take(29) =~= all);
            lemma_take_runtime_bounded(all, budget.max_facts as nat);
        }
        facts
    }
}


/// Which snapshot value a runtime fact of `kind` carries, with the freshness
/// it is reported at: each kind reads its own field of the snapshot.
pub open spec fn runtime_value_of(s: RuntimeContextSnapshot, kind: FactKind, freshness: FactFreshness, value: Seq<char>) -> bool {
    match kind {
        FactKind::OsVersion => {
            &&& s.system.os_version matches Some(v)
            &&& value == v@
            &&& freshness == FactFreshness::CurrentBoot
        },
        FactKind::RuntimeBuild => {
            &&& s.system.build matches Some(v)
            &&& value == v@
            &&& freshness == FactFreshness::CurrentBoot
        },
        FactKind::RuntimeArchitecture => {
            &&& s.system.architecture matches Some(v)
            &&& value == v@
            &&& freshness == FactFreshness::CurrentBoot
        },
        FactKind::Locale => {
            &&& s.system.locale matches Some(v)
            &&& value == v@
            &&& freshness == FactFreshness::CurrentBoot
        },
        FactKind::RuntimeTimezone => {
            &&& s.timezone.identifier matches Some(v)
            &&& value == v@
            &&& freshness == FactFreshness::ServiceSnapshot
        },
        FactKind::RuntimeUptimeSecs => {
            &&& s.system.uptime_secs matches Some(n)
            &&& value == decimal_text(n as nat)
            &&& freshness == FactFreshness::ServiceSnapshot
        },
        FactKind::RuntimeHostname => {
            &&& s.system.hostname matches Some(v)
            &&& value == v@
            &&& freshness == FactFreshness::CurrentBoot
        },
        FactKind::CpuCores => {
            &&& s.system.cpu_count matches Some(n)
            &&& value == decimal_text(n as nat)
            &&& freshness == FactFreshness::CurrentBoot
        },
        FactKind::RamMib => {
            &&& s.system.ram_mib matches Some(n)
            &&& value == decimal_text(n as nat)
            &&& freshness == FactFreshness::CurrentBoot
        },
        FactKind::UserName => {
            &&& s.session.current_user matches Some(v)
            &&& value == v@
            &&& freshness == FactFreshness::CurrentSession
        },
        FactKind::RuntimeBootMode => {
            &&& s.session.boot_mode matches Some(v)
            &&& value == v@
            &&& freshness == FactFreshness::CurrentSession
        },
        FactKind::RuntimeDesktopMode => {
            &&& s.session.desktop_mode matches Some(b,)
            &&& value == flag_text(b)
            &&& freshness == FactFreshness::CurrentSession
        },
        FactKind::RuntimeInstallerMode => {
            &&& s.session.installer_mode matches Some(b,)
            &&& value == flag_text(b)
            &&& freshness == FactFreshness::CurrentSession
        },
        FactKind::RuntimeRecoveryMode => {
            &&& s.session.recovery_mode matches Some(b,)
            &&& value == flag_text(b)
            &&& freshness == FactFreshness::CurrentSession
        },
        FactKind::RuntimeSessionState => {
            &&& s.session.state matches Some(v)
            &&& value == v@
            &&& freshness == FactFreshness::CurrentSession
        },
        FactKind::RuntimeNetworkAvailable => {
            &&& s.network.available matches Some(b,)
            &&& value == flag_text(b)
            &&& freshness == FactFreshness::ServiceSnapshot
        },
        FactKind::NetworkOnline => {
            &&& s.network.connected matches Some(b)
            &&& value == flag_text(b)
            &&& freshness == FactFreshness::ServiceSnapshot
        },
        FactKind::RuntimeInterfaceCount => {
            &&& s.network.interface_count matches Some(n,)
            &&& value == decimal_text(n as nat)
            &&& freshness == FactFreshness::ServiceSnapshot
        },
        FactKind::ScreenDims => {
            &&& (s.display.width_px, s.display.height_px) matches (Some(w), Some(h))
            &&& value == decimal_text(w as nat) + seq!['x'] + decimal_text(h as nat)
            &&& freshness == FactFreshness::ServiceSnapshot
        },
        FactKind::RuntimeDisplayScale => {
            &&& s.display.scale_percent matches Some(n,)
            &&& value == decimal_text(n as nat)
            &&& freshness == FactFreshness::ServiceSnapshot
        },
        FactKind::ServiceSunlightd => {
            &&& s.services.sunlightd matches Some(v)
            &&& value == v@
            &&& freshness == FactFreshness::ServiceSnapshot
        },
        FactKind::ServiceSessiond => {
            &&& s.services.sessiond matches Some(v)
            &&& value == v@
            &&& freshness == FactFreshness::ServiceSnapshot
        },
        FactKind::ServiceNetworkd => {
            &&& s.services.networkd matches Some(v)
            &&& value == v@
            &&& freshness == FactFreshness::ServiceSnapshot
        },
        FactKind::ServiceResolved => {
            &&& s.services.resolved matches Some(v)
            &&& value == v@
            &&& freshness == FactFreshness::ServiceSnapshot
        },
        FactKind::ServiceTimezone => {
            &&& s.services.timezone_service matches Some(v,)
            &&& value == v@
            &&& freshness == FactFreshness::ServiceSnapshot
        },
        FactKind::ServiceTimed => {
            &&& s.services.timed matches Some(v)
            &&& value == v@
            &&& freshness == FactFreshness::ServiceSnapshot
        },
        FactKind::ServicePowerd => {
            &&& s.services.powerd matches Some(v)
            &&& value == v@
            &&& freshness == FactFreshness::ServiceSnapshot
        },
        FactKind::ServiceThermald => {
            &&& s.services.thermald matches Some(v)
            &&& value == v@
            &&& freshness == FactFreshness::ServiceSnapshot
        },
        FactKind::ServiceDisplay => {
            &&& s.services.display matches Some(v)
            &&& value == v@
            &&& freshness == FactFreshness::ServiceSnapshot
        },
        _ => false,
    }
}

/// Every fact taken within the limit is one of the present candidates.
proof fn lemma_take_runtime_members(candidates: Seq<Option<RuntimeFactSpec>>, max: nat)
    ensures
        forall|k: int|
            0 <= k < take_runtime(candidates, max).len() ==> exists|i: int|
                0 <= i < candidates.len() && candidates[i] == Some(#[trigger] take_runtime(candidates, max)[k]),
    decreases candidates.len(),
{
    if candidates.len() > 0 {
        let init = candidates.drop_last();
        lemma_take_runtime_members(init, max);
        let rest = take_runtime(init, max);
        let t = take_runtime(candidates, max);
        assert forall|k: int| 0 <= k < t.len() implies exists|i: int|
            0 <= i < candidates.len() && candidates[i] == Some(#[trigger] t[k]) by {
            if k < rest.len() {
                assert(t[k] == rest[k]);
                let i = choose|i: int| 0 <= i < init.len() && init[i] == Some(#[trigger] rest[k]);
                assert(candidates[i] == init[i]);
            } else {
                assert(candidates[candidates.len() - 1] == Some(t[k]));
            }
        }
    }
}

/// Each present runtime candidate carries the snapshot value of its own kind.
#[verifier::rlimit(80)]
proof fn lemma_runtime_candidates_carry_values(source: RuntimeContextSource)
    ensures
        forall|i: int|
            0 <= i < source.candidates().len() && source.candidates()[i] is Some ==> runtime_value_of(
                *source.snapshot,
                (#[trigger] source.candidates()[i]).unwrap().0,
                source.candidates()[i].unwrap().1,
                source.candidates()[i].unwrap().2,
            ),
{
    let c = source.candidates();
    assert(c.len() == 29);
    assert forall|i: int| 0 <= i < c.len() && c[i] is Some implies runtime_value_of(
        *source.snapshot,
        (#[trigger] c[i]).unwrap().0,
        c[i].unwrap().1,
        c[i].unwrap().2,
    ) by {
        if i == 0 {} else if i == 1 {} else if i == 2 {} else if i == 3 {} else if i == 4 {}
        else if i == 5 {} else if i == 6 {} else if i == 7 {} else if i == 8 {} else if i == 9 {}
        else if i == 10 {} else if i == 11 {} else if i == 12 {} else if i == 13 {} else if i == 14 {}
        else if i == 15 {} else if i == 16 {} else if i == 17 {} else if i == 18 {} else if i == 19 {}
        else if i == 20 {} else if i == 21 {} else if i == 22 {} else if i == 23 {} else if i == 24 {}
        else if i == 25 {} else if i == 26 {} else if i == 27 {} else {}
    }
}

/// Every fact the runtime source yields is reported by the runtime with full
/// confidence and carries the snapshot value of its own kind: the hostname
/// fact carries the hostname, the architecture fact the architecture, the
/// screen size "WxH" from the display's width and height, and so on.
pub proof fn lemma_runtime_facts_carry_snapshot_values(
    source: RuntimeContextSource,
    budget: BrainBudget,
    identity: AuthIdentity,
    facts: Seq<GroundedFact>,
)
    requires
        source.spec_yields(budget, identity, facts),
    ensures
        forall|i: int|
            0 <= i < facts.len() ==> {
                &&& (#[trigger] facts[i]).source == ContextSourceKind::Runtime
                &&& facts[i].confidence == 100
                &&& runtime_value_of(*source.snapshot, facts[i].kind, facts[i].freshness, facts[i].value@)
            },
{
    let c = source.candidates();
    let max = budget.max_facts as nat;
    let want = take_runtime(c, max);
    lemma_take_runtime_members(c, max);
    lemma_runtime_candidates_carry_values(source);
    assert forall|i: int| 0 <= i < facts.len() implies {
        &&& (#[trigger] facts[i]).source == ContextSourceKind::Runtime
        &&& facts[i].confidence == 100
        &&& runtime_value_of(*source.snapshot, facts[i].kind, facts[i].freshness, facts[i].value@)
    } by {
        assert(fact_is(facts[i], want[i].0, ContextSourceKind::Runtime, want[i].1, 100, want[i].2));
        let k = choose|k: int| 0 <= k < c.len() && c[k] == Some(#[trigger] want[i]);
        assert(c[k] is Some);
    }
}


/// Within a limit at least the number of candidates, every present
/// candidate is taken.
proof fn lemma_take_runtime_complete(candidates: Seq<Option<RuntimeFactSpec>>, max: nat)
    requires
        candidates.len() <= max,
    ensures
        forall|i: int|
            0 <= i < candidates.len() && (#[trigger] candidates[i]) is Some ==> exists|k: int|
                0 <= k < take_runtime(candidates, max).len() && take_runtime(candidates, max)[k]
                    == candidates[i].unwrap(),
    decreases candidates.len(),
{
    if candidates.len() > 0 {
        let init = candidates.drop_last();
        lemma_take_runtime_complete(init, max);
        lemma_take_runtime_bounded(init, max);
        let rest = take_runtime(init, max);
        let t = take_runtime(candidates, max);
        assert forall|i: int| 0 <= i < candidates.len() && (#[trigger] candidates[i]) is Some implies exists|k: int|
            0 <= k < t.len() && t[k] == candidates[i].unwrap() by {
            if i < candidates.len() - 1 {
                assert(init[i] == candidates[i]);
                let k = choose|k: int| 0 <= k < rest.len() && rest[k] == init[i].unwrap();
                assert(t[k] == rest[k]);
            } else {
                assert(t[rest.len() as int] == candidates[i].unwrap());
            }
        }
    }
}

/// Each snapshot value with some text is a candidate of its kind.
#[verifier::rlimit(80)]
proof fn lemma_runtime_values_are_candidates(
    source: RuntimeContextSource,
    kind: FactKind,
    freshness: FactFreshness,
    value: Seq<char>,
)
    requires
        runtime_value_of(*source.snapshot, kind, freshness, value),
        value.len() > 0,
    ensures
        exists|i: int| 0 <= i < source.candidates().len() && source.candidates()[i] == Some((kind, freshness, value)),
{
    let c = source.candidates();
    match kind {
        FactKind::OsVersion => assert(c[0] == Some((kind, freshness, value))),
        FactKind::RuntimeBuild => assert(c[1] == Some((kind, freshness, value))),
        FactKind::RuntimeArchitecture => assert(c[2] == Some((kind, freshness, value))),
        FactKind::Locale => assert(c[3] == Some((kind, freshness, value))),
        FactKind::RuntimeTimezone => assert(c[4] == Some((kind, freshness, value))),
        FactKind::RuntimeUptimeSecs => assert(c[5] == Some((kind, freshness, value))),
        FactKind::RuntimeHostname => assert(c[6] == Some((kind, freshness, value))),
        FactKind::CpuCores => assert(c[7] == Some((kind, freshness, value))),
        FactKind::RamMib => assert(c[8] == Some((kind, freshness, value))),
        FactKind::UserName => assert(c[9] == Some((kind, freshness, value))),
        FactKind::RuntimeBootMode => assert(c[10] == Some((kind, freshness, value))),
        FactKind::RuntimeDesktopMode => assert(c[11] == Some((kind, freshness, value))),
        FactKind::RuntimeInstallerMode => assert(c[12] == Some((kind, freshness, value))),
        FactKind::RuntimeRecoveryMode => assert(c[13] == Some((kind, freshness, value))),
        FactKind::RuntimeSessionState => assert(c[14] == Some((kind, freshness, value))),
        FactKind::RuntimeNetworkAvailable => assert(c[15] == Some((kind, freshness, value))),
        FactKind::NetworkOnline => assert(c[16] == Some((kind, freshness, value))),
        FactKind::RuntimeInterfaceCount => assert(c[17] == Some((kind, freshness, value))),
        FactKind::ScreenDims => assert(c[18] == Some((kind, freshness, value))),
        FactKind::RuntimeDisplayScale => assert(c[19] == Some((kind, freshness, value))),
        FactKind::ServiceSunlightd => assert(c[20] == Some((kind, freshness, value))),
        FactKind::ServiceSessiond => assert(c[21] == Some((kind, freshness, value))),
        FactKind::ServiceNetworkd => assert(c[22] == Some((kind, freshness, value))),
        FactKind::ServiceResolved => assert(c[23] == Some((kind, freshness, value))),
        FactKind::ServiceTimezone => assert(c[24] == Some((kind, freshness, value))),
        FactKind::ServiceTimed => assert(c[25] == Some((kind, freshness, value))),
        FactKind::ServicePowerd => assert(c[26] == Some((kind, freshness, value))),
        FactKind::ServiceThermald => assert(c[27] == Some((kind, freshness, value))),
        FactKind::ServiceDisplay => assert(c[28] == Some((kind, freshness, value))),
        _ => {},
    }
}

/// When the fact limit leaves room for every runtime value, none is left
/// out: each value of the snapshot that has some text appears as a fact of
/// its own kind, with that text.
pub proof fn lemma_runtime_values_all_reported(
    source: RuntimeContextSource,
    budget: BrainBudget,
    identity: AuthIdentity,
    facts: Seq<GroundedFact>,
    kind: FactKind,
    freshness: FactFreshness,
    value: Seq<char>,
)
    requires
        source.spec_yields(budget, identity, facts),
        budget.max_facts >= 29,
        runtime_value_of(*source.snapshot, kind, freshness, value),
        value.len() > 0,
    ensures
        exists|i: int|
            0 <= i < facts.len() && (#[trigger] facts[i]).kind == kind && facts[i].freshness == freshness
                && facts[i].value@ == value,
{
    let c = source.candidates();
    let max = budget.max_facts as nat;
    let want = take_runtime(c, max);
    lemma_runtime_values_are_candidates(source, kind, freshness, value);
    let j = choose|j: int| 0 <= j < c.len() && c[j] == Some((kind, freshness, value));
    assert(c.len() == 29);
    lemma_take_runtime_complete(c, max);
    assert(c[j] is Some);
    let k = choose|k: int| 0 <= k < want.len() && want[k] == c[j].unwrap();
    assert(fact_is(facts[k], want[k].0, ContextSourceKind::Runtime, want[k].1, 100, want[k].2));
}

} // verus!
