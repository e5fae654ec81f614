//! Budgeted gathering of grounded facts from context sources.
use vstd::prelude::*;
use vstd::utf8::encode_utf8;

use crate::grounded::{AuthIdentity, BrainContextSource, ContextSourceKind, ContextSourceMask, GroundedFact};

verus! {

/// Limits on how much context one request may gather.
#[derive(Debug, Clone, Copy, PartialEq, Eq, Structural)]
pub struct BrainBudget {
    pub max_facts: u8,
    pub max_total_bytes: u16,
    pub max_source_latency_ms: u16,
    pub max_total_latency_ms: u16,
    /// Remaining fact slots after prior sources.
    pub facts_remaining: u8,
}

impl BrainBudget {
    pub open spec fn spec_default() -> BrainBudget {
        BrainBudget {
            max_facts: 56,
            max_total_bytes: 3072,
            max_source_latency_ms: 50,
            max_total_latency_ms: 200,
            facts_remaining: 56,
        }
    }
}

impl Default for BrainBudget {
    fn default() -> (b: Self)
        ensures
            b == BrainBudget::spec_default(),
    {
        BrainBudget {
            max_facts: 56,
            max_total_bytes: 3072,
            max_source_latency_ms: 50,
            max_total_latency_ms: 200,
            facts_remaining: 56,
        }
    }
}

pub open spec fn sat_add16(a: u16, b: u16) -> u16 {
    if a + b > u16::MAX {
        u16::MAX
    } else {
        (a + b) as u16
    }
}

pub open spec fn sat_sub8(a: u8, b: u8) -> u8 {
    if a < b {
        0
    } else {
        (a - b) as u8
    }
}

/// What one fact costs the byte budget: its text's bytes and eight more.
pub open spec fn fact_cost(f: GroundedFact) -> u16 {
    let n = encode_utf8(f.value@).len();
    sat_add16(
        if n > u16::MAX {
            u16::MAX
        } else {
            n as u16
        },
        8,
    )
}

/// Bytes used and fact slots left after charging a source's facts, in
/// order, until the byte budget is reached.
pub open spec fn charge_facts(bytes: u16, remaining: u8, max_total: u16, facts: Seq<GroundedFact>) -> (u16, u8)
    decreases facts.len(),
{
    if facts.len() == 0 {
        (bytes, remaining)
    } else {
        let b = sat_add16(bytes, fact_cost(facts[0]));
        let r = sat_sub8(remaining, 1);
        if b >= max_total {
            (b, r)
        } else {
            charge_facts(b, r, max_total, facts.drop_first())
        }
    }
}

/// Charging never frees budget.
pub proof fn lemma_charge_monotone(bytes: u16, remaining: u8, max_total: u16, facts: Seq<GroundedFact>)
    ensures
        charge_facts(bytes, remaining, max_total, facts).0 >= bytes,
        charge_facts(bytes, remaining, max_total, facts).1 <= remaining,
    decreases facts.len(),
{
    if facts.len() > 0 {
        let b = sat_add16(bytes, fact_cost(facts[0]));
        let r = sat_sub8(remaining, 1);
        if b < max_total {
            lemma_charge_monotone(b, r, max_total, facts.drop_first());
        }
    }
}

/// Gathers facts from sources within one budget, and records which sources
/// were consulted, succeeded and degraded.
pub struct GroundedContextBuilder {
    budget: BrainBudget,
    identity: AuthIdentity,
    sources_consulted: ContextSourceMask,
    sources_succeeded: ContextSourceMask,
    sources_degraded: ContextSourceMask,
    fact_bytes: u16,
}

impl GroundedContextBuilder {
    pub closed spec fn spec_budget(&self) -> BrainBudget {
        self.budget
    }

    pub closed spec fn spec_identity(&self) -> AuthIdentity {
        self.identity
    }

    pub closed spec fn spec_consulted(&self) -> ContextSourceMask {
        self.sources_consulted
    }

    pub closed spec fn spec_succeeded(&self) -> ContextSourceMask {
        self.sources_succeeded
    }

    pub closed spec fn spec_degraded(&self) -> ContextSourceMask {
        self.sources_degraded
    }

    pub closed spec fn spec_fact_bytes(&self) -> u16 {
        self.fact_bytes
    }

    /// No fact slot or no byte is left.
    pub open spec fn exhausted(&self) -> bool {
        self.spec_budget().facts_remaining == 0 || self.spec_fact_bytes() >= self.spec_budget().max_total_bytes
    }

    /// `new` is `old`, with `consulted` as its consulted sources, after a
    /// source of kind `kind` answered with `facts`, saying it was available
    /// or not.
    pub open spec fn charged(
        old: Self,
        consulted: ContextSourceMask,
        new: Self,
        kind: ContextSourceKind,
        available: bool,
        facts: Seq<GroundedFact>,
    ) -> bool {
        let (bytes, remaining) = charge_facts(
            old.spec_fact_bytes(),
            old.spec_budget().facts_remaining,
            old.spec_budget().max_total_bytes,
            facts,
        );
        &&& new.spec_identity() == old.spec_identity()
        &&& new.spec_consulted() == consulted
        &&& new.spec_succeeded() == (if available && facts.len() > 0 {
            ContextSourceMask(old.spec_succeeded().0 | kind.spec_bit())
        } else {
            old.spec_succeeded()
        })
        &&& new.spec_degraded() == (if !available {
            ContextSourceMask(old.spec_degraded().0 | kind.spec_bit())
        } else {
            old.spec_degraded()
        })
        &&& new.spec_fact_bytes() == bytes
        &&& new.spec_budget() == (BrainBudget { facts_remaining: remaining, ..old.spec_budget() })
    }

    pub fn new(identity: AuthIdentity) -> (b: Self)
        ensures
            b.spec_budget() == BrainBudget::spec_default(),
            b.spec_identity() == identity,
            b.spec_consulted().0 == 0,
            b.spec_succeeded().0 == 0,
            b.spec_degraded().0 == 0,
            b.spec_fact_bytes() == 0,
    {
        GroundedContextBuilder {
            budget: BrainBudget::default(),
            identity,
            sources_consulted: ContextSourceMask::empty(),
            sources_succeeded: ContextSourceMask::empty(),
            sources_degraded: ContextSourceMask::empty(),
            fact_bytes: 0,
        }
    }

    /// Charges what a source answered against the budget and records
    /// whether it succeeded or degraded.
    pub fn charge(&mut self, kind: ContextSourceKind, available: bool, facts: &Vec<GroundedFact>)
        ensures
            Self::charged(*old(self), old(self).spec_consulted(), *final(self), kind, available, facts@),
    {
        if available && facts.len() > 0 {
            self.sources_succeeded.add(kind);
        } else if !available {
            self.sources_degraded.add(kind);
        }
        let ghost start_bytes = self.fact_bytes;
        let ghost start_remaining = self.budget.facts_remaining;
        let mut i: usize = 0;
        let mut done = false;
        proof {
            assert(facts@.subrange(0, facts@.len() as int) =~= facts@);
        }
        while i < facts.len() && !done
            invariant
                0 <= i <= facts@.len(),
                self.budget.max_total_bytes == old(self).budget.max_total_bytes,
                done ==> charge_facts(start_bytes, start_remaining, self.budget.max_total_bytes, facts@) == (
                self.fact_bytes,
                self.budget.facts_remaining,
                ),
                !done ==> charge_facts(start_bytes, start_remaining, self.budget.max_total_bytes, facts@)
                    == charge_facts(
                    self.fact_bytes,
                    self.budget.facts_remaining,
                    self.budget.max_total_bytes,
                    facts@.subrange(i as int, facts@.len() as int),
                ),
                self.identity == old(self).identity,
                self.sources_consulted == old(self).sources_consulted,
                self.sources_succeeded == (if available && facts@.len() > 0 {
                    ContextSourceMask(old(self).sources_succeeded.0 | kind.spec_bit())
                } else {
                    old(self).sources_succeeded
                }),
                self.sources_degraded == (if !available {
                    ContextSourceMask(old(self).sources_degraded.0 | kind.spec_bit())
                } else {
                    old(self).sources_degraded
                }),
                self.budget == (BrainBudget { facts_remaining: self.budget.facts_remaining, ..old(self).budget }),
                start_bytes == old(self).fact_bytes,
                start_remaining == old(self).budget.facts_remaining,
            decreases facts@.len() - i,
        {
            let ghost rest = facts@.subrange(i as int, facts@.len() as int);
            let n = facts[i].value.as_str().as_bytes().len();
            let used: u16 = if n > 65535 {
                65535
            } else {
                n as u16
            };
            let cost: u16 = if used > 65535 - 8 {
                65535
            } else {
                used + 8
            };
            let bytes: u16 = if self.fact_bytes > 65535 - cost {
                65535
            } else {
                self.fact_bytes + cost
            };
            proof {
                assert(rest[0] == facts@[i as int]);
                assert(cost == fact_cost(rest[0]));
                assert(rest.drop_first() =~= facts@.subrange(i + 1, facts@.len() as int));
            }
            self.fact_bytes = bytes;
            self.budget.facts_remaining = if self.budget.facts_remaining == 0 {
                0
            } else {
                self.budget.facts_remaining - 1
            };
            i = i + 1;
            if self.fact_bytes >= self.budget.max_total_bytes {
                done = true;
            }
        }
        proof {
            if !done {
                assert(facts@.subrange(i as int, facts@.len() as int) =~= Seq::<GroundedFact>::empty());
            }
        }
    }

    /// Consults one source: records it, and, unless the budget is spent,
    /// collects its facts under the remaining fact limit and charges them.
    pub fn gather_from<S: BrainContextSource>(&mut self, source: &S) -> (r: Vec<GroundedFact>)
        ensures
            final(self).spec_identity() == old(self).spec_identity(),
            final(self).spec_consulted() == ContextSourceMask(
                old(self).spec_consulted().0 | source.spec_kind().spec_bit(),
            ),
            old(self).exhausted() ==> {
                &&& r@.len() == 0
                &&& final(self).spec_degraded() == ContextSourceMask(
                    old(self).spec_degraded().0 | source.spec_kind().spec_bit(),
                )
                &&& final(self).spec_succeeded() == old(self).spec_succeeded()
                &&& final(self).spec_budget() == old(self).spec_budget()
                &&& final(self).spec_fact_bytes() == old(self).spec_fact_bytes()
            },
            !old(self).exhausted() ==> {
                &&& source.spec_yields(
                    BrainBudget { max_facts: old(self).spec_budget().facts_remaining, ..old(self).spec_budget() },
                    old(self).spec_identity(),
                    r@,
                )
                &&& Self::charged(
                    *old(self),
                    final(self).spec_consulted(),
                    *final(self),
                    source.spec_kind(),
                    source.spec_available(),
                    r@,
                )
            },
    {
        let kind = source.source_kind();
        self.sources_consulted.add(kind);
        if self.budget.facts_remaining == 0 || self.fact_bytes >= self.budget.max_total_bytes {
            self.sources_degraded.add(kind);
            let empty: Vec<GroundedFact> = Vec::new();
            return empty;
        }
        let limited = BrainBudget { max_facts: self.budget.facts_remaining, ..self.budget };
        let facts = source.collect(&limited, &self.identity);
        let available = source.is_available();
        let ghost consulted = self.sources_consulted;
        self.charge(kind, available, &facts);
        proof {
            assert(Self::charged(*old(self), consulted, *self, kind, available, facts@));
        }
        facts
    }

    pub fn sources_consulted(&self) -> (m: ContextSourceMask)
        ensures
            m == self.spec_consulted(),
    {
        self.sources_consulted
    }

    pub fn sources_succeeded(&self) -> (m: ContextSourceMask)
        ensures
            m == self.spec_succeeded(),
    {
        self.sources_succeeded
    }

    pub fn sources_degraded(&self) -> (m: ContextSourceMask)
        ensures
            m == self.spec_degraded(),
    {
        self.sources_degraded
    }

    pub fn identity(&self) -> (i: &AuthIdentity)
        ensures
            *i == self.spec_identity(),
    {
        &self.identity
    }
}

} // verus!
