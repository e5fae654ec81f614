use vstd::prelude::*;

verus! {

/// A counter step that wraps to zero past the largest value, as the counters do.
pub open spec fn wrap_inc(x: u64) -> u64 {
    if x == u64::MAX {
        0
    } else {
        (x + 1) as u64
    }
}

fn step(x: u64) -> (r: u64)
    ensures
        r == wrap_inc(x),
{
    if x == u64::MAX {
        0
    } else {
        x + 1
    }
}

/// Operational counters of the brain service.
#[derive(Debug, Clone, Copy, PartialEq, Eq, Structural)]
pub struct BrainDiagnostics {
    pub requests_total: u64,
    pub requests_greeting: u64,
    pub requests_rejected: u64,
    pub requests_failed: u64,
    pub requests_timed_out: u64,
    pub context_build_failures: u64,
    pub provider_local_used: u64,
    pub provider_fallback_used: u64,
    pub provider_future_used: u64,
    pub responses_successful: u64,
    pub response_alignment_failures: u64,
    pub welcome_client_requests: u64,
    pub welcome_client_fallbacks: u64,
    pub context_kv_success: u64,
    pub context_kv_degraded: u64,
    pub context_memorydb_success: u64,
    pub context_memorydb_degraded: u64,
    pub context_index_success: u64,
    pub context_index_degraded: u64,
    pub kv_reads: u64,
    pub kv_read_failures: u64,
    pub kv_writes: u64,
    pub kv_write_failures: u64,
    pub responses_first_visit: u64,
    pub responses_returning_visit: u64,
    pub responses_after_upgrade: u64,
    pub responses_with_machine_summary: u64,
    pub responses_with_index_status: u64,
    pub unauthorized_requests: u64,
    pub foundation_load_success: u64,
    pub foundation_load_failures: u64,
    pub foundation_record_count: u64,
    pub foundation_token_count: u64,
    pub last_error_code: u32,
}

impl BrainDiagnostics {
    pub fn new() -> (d: Self)
        ensures
            d.requests_total == 0,
            d.requests_greeting == 0,
            d.requests_rejected == 0,
            d.requests_failed == 0,
            d.requests_timed_out == 0,
            d.context_build_failures == 0,
            d.provider_local_used == 0,
            d.provider_fallback_used == 0,
            d.provider_future_used == 0,
            d.responses_successful == 0,
            d.response_alignment_failures == 0,
            d.welcome_client_requests == 0,
            d.welcome_client_fallbacks == 0,
            d.context_kv_success == 0,
            d.context_kv_degraded == 0,
            d.context_memorydb_success == 0,
            d.context_memorydb_degraded == 0,
            d.context_index_success == 0,
            d.context_index_degraded == 0,
            d.kv_reads == 0,
            d.kv_read_failures == 0,
            d.kv_writes == 0,
            d.kv_write_failures == 0,
            d.responses_first_visit == 0,
            d.responses_returning_visit == 0,
            d.responses_after_upgrade == 0,
            d.responses_with_machine_summary == 0,
            d.responses_with_index_status == 0,
            d.unauthorized_requests == 0,
            d.foundation_load_success == 0,
            d.foundation_load_failures == 0,
            d.foundation_record_count == 0,
            d.foundation_token_count == 0,
            d.last_error_code == 0,
    {
        BrainDiagnostics {
            requests_total: 0,
            requests_greeting: 0,
            requests_rejected: 0,
            requests_failed: 0,
            requests_timed_out: 0,
            context_build_failures: 0,
            provider_local_used: 0,
            provider_fallback_used: 0,
            provider_future_used: 0,
            responses_successful: 0,
            response_alignment_failures: 0,
            welcome_client_requests: 0,
            welcome_client_fallbacks: 0,
            context_kv_success: 0,
            context_kv_degraded: 0,
            context_memorydb_success: 0,
            context_memorydb_degraded: 0,
            context_index_success: 0,
            context_index_degraded: 0,
            kv_reads: 0,
            kv_read_failures: 0,
            kv_writes: 0,
            kv_write_failures: 0,
            responses_first_visit: 0,
            responses_returning_visit: 0,
            responses_after_upgrade: 0,
            responses_with_machine_summary: 0,
            responses_with_index_status: 0,
            unauthorized_requests: 0,
            foundation_load_success: 0,
            foundation_load_failures: 0,
            foundation_record_count: 0,
            foundation_token_count: 0,
            last_error_code: 0,
        }
    }

    pub fn inc_requests(&mut self)
        ensures
            *final(self) == (BrainDiagnostics { requests_total: wrap_inc(old(self).requests_total), ..*old(self) }),
    {
        self.requests_total = step(self.requests_total);
    }

    pub fn inc_greeting(&mut self)
        ensures
            *final(self) == (BrainDiagnostics { requests_greeting: wrap_inc(old(self).requests_greeting), ..*old(self) }),
    {
        self.requests_greeting = step(self.requests_greeting);
    }

    pub fn inc_rejected(&mut self)
        ensures
            *final(self) == (BrainDiagnostics { requests_rejected: wrap_inc(old(self).requests_rejected), ..*old(self) }),
    {
        self.requests_rejected = step(self.requests_rejected);
    }

    pub fn inc_failed(&mut self)
        ensures
            *final(self) == (BrainDiagnostics { requests_failed: wrap_inc(old(self).requests_failed), ..*old(self) }),
    {
        self.requests_failed = step(self.requests_failed);
    }

    pub fn inc_timed_out(&mut self)
        ensures
            *final(self) == (BrainDiagnostics { requests_timed_out: wrap_inc(old(self).requests_timed_out), ..*old(self) }),
    {
        self.requests_timed_out = step(self.requests_timed_out);
    }

    pub fn inc_context_fail(&mut self)
        ensures
            *final(self) == (BrainDiagnostics { context_build_failures: wrap_inc(old(self).context_build_failures), ..*old(self) }),
    {
        self.context_build_failures = step(self.context_build_failures);
    }

    pub fn inc_local(&mut self)
        ensures
            *final(self) == (BrainDiagnostics { provider_local_used: wrap_inc(old(self).provider_local_used), ..*old(self) }),
    {
        self.provider_local_used = step(self.provider_local_used);
    }

    pub fn inc_fallback(&mut self)
        ensures
            *final(self) == (BrainDiagnostics { provider_fallback_used: wrap_inc(old(self).provider_fallback_used), ..*old(self) }),
    {
        self.provider_fallback_used = step(self.provider_fallback_used);
    }

    pub fn inc_future(&mut self)
        ensures
            *final(self) == (BrainDiagnostics { provider_future_used: wrap_inc(old(self).provider_future_used), ..*old(self) }),
    {
        self.provider_future_used = step(self.provider_future_used);
    }

    pub fn inc_success(&mut self)
        ensures
            *final(self) == (BrainDiagnostics { responses_successful: wrap_inc(old(self).responses_successful), ..*old(self) }),
    {
        self.responses_successful = step(self.responses_successful);
    }

    pub fn inc_alignment_fail(&mut self)
        ensures
            *final(self) == (BrainDiagnostics { response_alignment_failures: wrap_inc(old(self).response_alignment_failures), ..*old(self) }),
    {
        self.response_alignment_failures = step(self.response_alignment_failures);
    }

    pub fn inc_welcome(&mut self)
        ensures
            *final(self) == (BrainDiagnostics { welcome_client_requests: wrap_inc(old(self).welcome_client_requests), ..*old(self) }),
    {
        self.welcome_client_requests = step(self.welcome_client_requests);
    }

    pub fn inc_welcome_fallback(&mut self)
        ensures
            *final(self) == (BrainDiagnostics { welcome_client_fallbacks: wrap_inc(old(self).welcome_client_fallbacks), ..*old(self) }),
    {
        self.welcome_client_fallbacks = step(self.welcome_client_fallbacks);
    }

    pub fn inc_first_visit(&mut self)
        ensures
            *final(self) == (BrainDiagnostics { responses_first_visit: wrap_inc(old(self).responses_first_visit), ..*old(self) }),
    {
        self.responses_first_visit = step(self.responses_first_visit);
    }

    pub fn inc_returning_visit(&mut self)
        ensures
            *final(self) == (BrainDiagnostics { responses_returning_visit: wrap_inc(old(self).responses_returning_visit), ..*old(self) }),
    {
        self.responses_returning_visit = step(self.responses_returning_visit);
    }

    pub fn inc_after_upgrade(&mut self)
        ensures
            *final(self) == (BrainDiagnostics { responses_after_upgrade: wrap_inc(old(self).responses_after_upgrade), ..*old(self) }),
    {
        self.responses_after_upgrade = step(self.responses_after_upgrade);
    }

    pub fn inc_machine_summary(&mut self)
        ensures
            *final(self) == (BrainDiagnostics { responses_with_machine_summary: wrap_inc(old(self).responses_with_machine_summary), ..*old(self) }),
    {
        self.responses_with_machine_summary = step(self.responses_with_machine_summary);
    }

    pub fn inc_index_status(&mut self)
        ensures
            *final(self) == (BrainDiagnostics { responses_with_index_status: wrap_inc(old(self).responses_with_index_status), ..*old(self) }),
    {
        self.responses_with_index_status = step(self.responses_with_index_status);
    }

    pub fn inc_kv_success(&mut self)
        ensures
            *final(self) == (BrainDiagnostics { context_kv_success: wrap_inc(old(self).context_kv_success), ..*old(self) }),
    {
        self.context_kv_success = step(self.context_kv_success);
    }

    pub fn inc_kv_degraded(&mut self)
        ensures
            *final(self) == (BrainDiagnostics { context_kv_degraded: wrap_inc(old(self).context_kv_degraded), ..*old(self) }),
    {
        self.context_kv_degraded = step(self.context_kv_degraded);
    }

    pub fn inc_memorydb_success(&mut self)
        ensures
            *final(self) == (BrainDiagnostics { context_memorydb_success: wrap_inc(old(self).context_memorydb_success), ..*old(self) }),
    {
        self.context_memorydb_success = step(self.context_memorydb_success);
    }

    pub fn inc_memorydb_degraded(&mut self)
        ensures
            *final(self) == (BrainDiagnostics { context_memorydb_degraded: wrap_inc(old(self).context_memorydb_degraded), ..*old(self) }),
    {
        self.context_memorydb_degraded = step(self.context_memorydb_degraded);
    }

    pub fn inc_index_success(&mut self)
        ensures
            *final(self) == (BrainDiagnostics { context_index_success: wrap_inc(old(self).context_index_success), ..*old(self) }),
    {
        self.context_index_success = step(self.context_index_success);
    }

    pub fn inc_index_degraded(&mut self)
        ensures
            *final(self) == (BrainDiagnostics { context_index_degraded: wrap_inc(old(self).context_index_degraded), ..*old(self) }),
    {
        self.context_index_degraded = step(self.context_index_degraded);
    }

    pub fn inc_kv_read(&mut self)
        ensures
            *final(self) == (BrainDiagnostics { kv_reads: wrap_inc(old(self).kv_reads), ..*old(self) }),
    {
        self.kv_reads = step(self.kv_reads);
    }

    pub fn inc_kv_read_fail(&mut self)
        ensures
            *final(self) == (BrainDiagnostics { kv_read_failures: wrap_inc(old(self).kv_read_failures), ..*old(self) }),
    {
        self.kv_read_failures = step(self.kv_read_failures);
    }

    pub fn inc_kv_write(&mut self)
        ensures
            *final(self) == (BrainDiagnostics { kv_writes: wrap_inc(old(self).kv_writes), ..*old(self) }),
    {
        self.kv_writes = step(self.kv_writes);
    }

    pub fn inc_kv_write_fail(&mut self)
        ensures
            *final(self) == (BrainDiagnostics { kv_write_failures: wrap_inc(old(self).kv_write_failures), ..*old(self) }),
    {
        self.kv_write_failures = step(self.kv_write_failures);
    }

    pub fn inc_unauthorized(&mut self)
        ensures
            *final(self) == (BrainDiagnostics { unauthorized_requests: wrap_inc(old(self).unauthorized_requests), ..*old(self) }),
    {
        self.unauthorized_requests = step(self.unauthorized_requests);
    }

    pub fn note_foundation_loaded(&mut self, records: u64, tokens: u64)
        ensures
            *final(self) == (BrainDiagnostics {
                foundation_load_success: wrap_inc(old(self).foundation_load_success),
                foundation_record_count: records,
                foundation_token_count: tokens,
                ..*old(self)
            }),
    {
        self.foundation_load_success = step(self.foundation_load_success);
        self.foundation_record_count = records;
        self.foundation_token_count = tokens;
    }

    pub fn note_foundation_failed(&mut self)
        ensures
            *final(self) == (BrainDiagnostics {
                foundation_load_failures: wrap_inc(old(self).foundation_load_failures),
                ..*old(self)
            }),
    {
        self.foundation_load_failures = step(self.foundation_load_failures);
    }

    pub fn set_error(&mut self, code: u16)
        ensures
            *final(self) == (BrainDiagnostics { last_error_code: code as u32, ..*old(self) }),
    {
        self.last_error_code = code as u32;
    }

    /// The local provider is always available.
    pub fn provider_local_available(&self) -> (r: bool)
        ensures
            r,
    {
        true
    }

    /// No future provider exists yet.
    pub fn provider_future_available(&self) -> (r: bool)
        ensures
            !r,
    {
        false
    }

    /// Requests are served one at a time; none is active between calls.
    pub fn requests_active(&self) -> (r: u32)
        ensures
            r == 0,
    {
        0
    }

    pub fn snapshot(&self) -> (s: BrainHealthSnapshot)
        ensures
            s.requests_total == self.requests_total,
            s.requests_active == 0,
            s.requests_failed == self.requests_failed,
            s.last_error_code == (if self.last_error_code == 0 {
                None
            } else {
                Some(self.last_error_code as u16)
            }),
            s.provider_local_available,
            !s.provider_future_available,
    {
        let code = self.last_error_code;
        BrainHealthSnapshot {
            requests_total: self.requests_total,
            requests_active: self.requests_active(),
            requests_failed: self.requests_failed,
            last_error_code: if code == 0 {
                None
            } else {
                Some(code as u16)
            },
            provider_local_available: self.provider_local_available(),
            provider_future_available: self.provider_future_available(),
        }
    }
}

/// A point-in-time view of the brain's health.
#[derive(Debug, Clone, PartialEq, Eq, Structural)]
pub struct BrainHealthSnapshot {
    pub requests_total: u64,
    pub requests_active: u32,
    pub requests_failed: u64,
    pub last_error_code: Option<u16>,
    pub provider_local_available: bool,
    pub provider_future_available: bool,
}

/// A nonzero error code set last is reported back unchanged by the snapshot.
pub proof fn lemma_error_code_round_trip(code: u16)
    ensures
        code != 0 ==> (code as u32) as u16 == code,
        (code as u32 == 0) <==> code == 0,
{
}

/// `n` increments from zero count to `n` while `n` stays below the counter's range.
pub open spec fn inc_n(x: u64, n: nat) -> u64
    decreases n,
{
    if n == 0 {
        x
    } else {
        wrap_inc(inc_n(x, (n - 1) as nat))
    }
}

/// Counting from zero is exact for every count that fits in the counter.
pub proof fn lemma_counter_counts(n: nat)
    requires
        n <= u64::MAX,
    ensures
        inc_n(0, n) == n,
    decreases n,
{
    if n > 0 {
        lemma_counter_counts((n - 1) as nat);
    }
}

} // verus!
