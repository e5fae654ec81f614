//! The receipt self-check of the brain daemon: one ledger is driven through a
//! complete action, a query, an isolation check, an integrity check and a
//! retention step.
use vstd::prelude::*;
use vstd::utf8::{is_ascii_chars, is_ascii_chars_encode_utf8};

use crate::action_intent::{ActionOperation, AuditId, IntentId, RequestedBy, SessionId, TargetKind};
use crate::action_receipt::{
    capacity_run, domain_count, event_encoding, events_encoding, first_evictable, newest_matches,
    over_retention, query_selection, receipt_id_preimage, retention_run, sealed_encoding,
    sealed_matches_builder, sealed_wf, sealing_run, summaries_of, ActionReceipt, ActionReceiptId,
    ActionReceiptLedger, ActionReceiptLifecycleEvent, ActionReceiptTerminalStatus, AppendDisposition,
    ReceiptError, ReceiptEventSource, ReceiptLifecycleEventType, ReceiptOpen, ReceiptQuery,
    ReceiptQueryKind, ReceiptQueryResult, ReceiptRelevantIds, ReceiptRetentionPolicy, TargetDisplayKey,
    VolatileReceiptPersistence,
};
use crate::coordinator::{CoordinatorActionId, PublicReasonCode};
use crate::digest::spec_sha256;
use crate::executor::ExecutionId;
use crate::outcome::ObservationId;
use crate::planner::{ConversationId, PlannerRequestId, PlannerVersion};
use crate::policy::PolicyVersion;

verus! {

/// The stages of the receipt self-check, in the order they are passed.
#[derive(Debug, Clone, Copy, PartialEq, Eq, Structural)]
pub enum ReceiptGateStage {
    Ready,
    Opened,
    PolicyEvent,
    DispatchEvent,
    OutcomeEvent,
    Sealed,
    Query,
    Isolation,
    Integrity,
    Retention,
    Complete,
}

/// The identifier the self-check derives for its request `request_id`.
pub open spec fn gate_receipt_id(request_id: u64) -> Seq<u8> {
    spec_sha256(
        receipt_id_preimage(
            CoordinatorActionId(request_id),
            ConversationId(4),
            SessionId(7),
            RequestedBy::User(0),
            PlannerRequestId(request_id),
        ),
    ).subrange(0, 16)
}

/// The three receipt identifiers the self-check derives differ. They are
/// prefixes of SHA-256 digests of three different inputs; that they differ
/// is a fact about SHA-256's outputs, which nothing in this crate proves:
/// the self-check's guarantee rests on it, and a run checks it.
pub open spec fn gate_ids_distinct() -> bool {
    &&& gate_receipt_id(1) != gate_receipt_id(2)
    &&& gate_receipt_id(1) != gate_receipt_id(3)
    &&& gate_receipt_id(2) != gate_receipt_id(3)
}

/// Every event takes the same number of bytes in a sealed encoding.
proof fn lemma_events_encoding_len(events: Seq<ActionReceiptLifecycleEvent>)
    ensures
        events_encoding(events).len() == 46 * events.len(),
    decreases events.len(),
{
    if events.len() > 0 {
        lemma_events_encoding_len(events.drop_last());
        assert(event_encoding(events.last()).len() == 46);
    }
}

/// A sealed encoding is a fixed header and a fixed size per event.
proof fn lemma_sealed_encoding_len()
    ensures
        forall|r: ActionReceipt| #[trigger] sealed_encoding(r).len() == 64 + 46 * r.spec_timeline().len(),
{
    assert forall|r: ActionReceipt| #[trigger] sealed_encoding(r).len() == 64 + 46 * r.spec_timeline().len() by {
        lemma_events_encoding_len(r.spec_timeline());
    }
}

/// Sealing into an empty ledger keeps exactly the new receipt, whatever
/// nonzero bounds and capacity apply.
proof fn lemma_first_sealing(rc: ActionReceipt, p: ReceiptRetentionPolicy, cap: nat)
    requires
        p.max_sealed_per_domain >= 1,
        p.max_nonexecuted_per_domain >= 1,
        cap >= 1,
    ensures
        sealing_run(Seq::<ActionReceipt>::empty(), rc, p, cap).0 == seq![rc],
{
    reveal(capacity_run);
    reveal(retention_run);
    let s = Seq::<ActionReceipt>::empty().push(rc);
    assert(capacity_run(Seq::<ActionReceipt>::empty(), cap).0 == Seq::<ActionReceipt>::empty());
    assert(s.drop_last() =~= Seq::<ActionReceipt>::empty());
    assert(domain_count(Seq::<ActionReceipt>::empty(), rc.spec_requester(), rc.spec_session_id(), false) == 0);
    assert(domain_count(Seq::<ActionReceipt>::empty(), rc.spec_requester(), rc.spec_session_id(), true) == 0);
    assert(domain_count(s, rc.spec_requester(), rc.spec_session_id(), false) <= 1);
    assert(domain_count(s, rc.spec_requester(), rc.spec_session_id(), true) <= 1);
    assert(over_retention(s, p, 1) is None);
    assert(over_retention(s, p, 0) is None);
    assert(s =~= seq![rc]);
}

/// Sealing a second receipt of the same requester and session under the
/// self-check's retention evicts the first one.
proof fn lemma_second_sealing(rc: ActionReceipt, rc2: ActionReceipt)
    requires
        rc2.spec_requester() == rc.spec_requester(),
        rc2.spec_session_id() == rc.spec_session_id(),
    ensures
        sealing_run(seq![rc], rc2, gate_retention(), 4).0 == seq![rc2],
{
    reveal(capacity_run);
    reveal(retention_run);
    let p = gate_retention();
    let req = rc.spec_requester();
    let sess = rc.spec_session_id();
    assert(capacity_run(seq![rc], 4) == (seq![rc], Seq::<ActionReceipt>::empty()));
    let s = seq![rc].push(rc2);
    assert(s =~= seq![rc, rc2]);
    assert(s.drop_last() =~= seq![rc]);
    assert(seq![rc].drop_last() =~= Seq::<ActionReceipt>::empty());
    assert(domain_count(Seq::<ActionReceipt>::empty(), req, sess, false) == 0);
    assert(domain_count(seq![rc], req, sess, false) == 1);
    assert(domain_count(s, req, sess, false) == 2);
    assert(over_retention(s, p, 0) == Some((req, sess, false)));
    assert(first_evictable(s, Some((req, sess)), false, 0) == Some(0int));
    let t = s.remove(0);
    assert(t =~= seq![rc2]);
    assert(t.drop_last() =~= Seq::<ActionReceipt>::empty());
    assert(domain_count(Seq::<ActionReceipt>::empty(), req, sess, true) == 0);
    assert(domain_count(t, req, sess, false) == 1);
    assert(domain_count(t, req, sess, true) <= 1);
    assert(over_retention(t, p, 1) is None);
    assert(over_retention(t, p, 0) is None);
    assert(retention_run(t, p) == (t, Seq::<ActionReceipt>::empty()));
    assert(retention_run(s, p).0 == retention_run(t, p).0);
}

fn gate_open(request_id: u64) -> (o: ReceiptOpen)
    requires
        request_id < 256,
    ensures
        o.receipt_id.value()@ == gate_receipt_id(request_id),
        o.coordinator_action_id == CoordinatorActionId(request_id),
        o.conversation_id == ConversationId(4),
        o.session_id == SessionId(7),
        o.requester == RequestedBy::User(0),
        o.original_request_id == PlannerRequestId(request_id),
        o.intent_id is Some,
        o.operation == Some(ActionOperation::OpenApplication),
        o.target_kind == Some(TargetKind::Application),
        o.target_display_key is Some,
        o.request_timestamp == 100 + request_id,
        o.bounded_audit_references@.len() == 0,
{
    let action_id = CoordinatorActionId(request_id);
    let conversation_id = ConversationId(4);
    let session_id = SessionId(7);
    let requester = RequestedBy::User(0);
    let original_request_id = PlannerRequestId(request_id);
    proof {
        reveal_strlit("calculator");
        assert(is_ascii_chars("calculator"@));
        is_ascii_chars_encode_utf8("calculator"@);
    }
    let key = match TargetDisplayKey::new("calculator") {
        Ok(key) => Some(key),
        Err(_) => None,
    };
    ReceiptOpen {
        receipt_id: ActionReceiptId::for_action(
            action_id,
            conversation_id,
            session_id,
            requester,
            original_request_id,
        ),
        coordinator_action_id: action_id,
        conversation_id,
        session_id,
        requester,
        original_request_id,
        intent_id: Some(IntentId::new([request_id as u8; 16])),
        operation: Some(ActionOperation::OpenApplication),
        target_kind: Some(TargetKind::Application),
        target_display_key: key,
        request_timestamp: 100 + request_id,
        policy_version: PolicyVersion::new(1, 0),
        planner_version: PlannerVersion::new(1, 0),
        runtime_snapshot_generation: 1,
        application_registry_generation: 1,
        settings_registry_generation: 1,
        bounded_audit_references: Vec::new(),
    }
}

fn gate_event(
    open: &ReceiptOpen,
    sequence: u16,
    event_type: ReceiptLifecycleEventType,
    source: ReceiptEventSource,
    reason: PublicReasonCode,
    terminal_status: Option<ActionReceiptTerminalStatus>,
) -> (e: ActionReceiptLifecycleEvent)
    ensures
        e.spec_receipt_id() == open.receipt_id,
        e.spec_coordinator_action_id() == open.coordinator_action_id,
        e.spec_session_id() == open.session_id,
        e.spec_requester() == open.requester,
        e.spec_sequence() == sequence,
        e.spec_timestamp() == 200 + sequence,
        e.spec_event_type() == event_type,
        e.spec_public_reason() == reason,
        e.spec_ids() == (ReceiptRelevantIds {
            intent_id: open.intent_id,
            execution_id: Some(ExecutionId(31)),
            observation_id: Some(ObservationId(41)),
            audit_id: Some(AuditId(sequence as u64)),
        }),
        e.spec_source() == source,
        e.spec_terminal_status() == terminal_status,
{
    ActionReceiptLifecycleEvent::new(
        open.receipt_id,
        open.coordinator_action_id,
        open.session_id,
        open.requester,
        sequence,
        200 + sequence as u64,
        event_type,
        reason,
        ReceiptRelevantIds {
            intent_id: open.intent_id,
            execution_id: Some(ExecutionId(31)),
            observation_id: Some(ObservationId(41)),
            audit_id: Some(AuditId(sequence as u64)),
        },
        source,
        terminal_status,
    )
}

fn latest(session: u64) -> (q: ReceiptQuery)
    ensures
        q == (ReceiptQuery {
            requester: RequestedBy::User(0),
            active_session: SessionId(session),
            maximum_results: 1,
            kind: ReceiptQueryKind::Latest,
        }),
{
    ReceiptQuery {
        requester: RequestedBy::User(0),
        active_session: SessionId(session),
        maximum_results: 1,
        kind: ReceiptQueryKind::Latest,
    }
}

type GateLedger = ActionReceiptLedger<VolatileReceiptPersistence, 4, 4, 48>;

/// The retention the self-check runs under: one receipt, and one
/// non-executed receipt, per requester and session.
pub open spec fn gate_retention() -> ReceiptRetentionPolicy {
    ReceiptRetentionPolicy { max_sealed_per_domain: 1, max_nonexecuted_per_domain: 1 }
}

/// What the self-check knows of the receipt it seals first.
pub open spec fn first_receipt_facts(rc: ActionReceipt) -> bool {
    &&& sealed_wf(rc)
    &&& rc.spec_receipt_id().value()@ == gate_receipt_id(1)
    &&& rc.spec_requester() == RequestedBy::User(0)
    &&& rc.spec_session_id() == SessionId(7)
    &&& rc.spec_terminal_status() == ActionReceiptTerminalStatus::CompletedReady
    &&& rc.spec_observed_outcome().outcome is Ready
}

/// The self-check's ledger once its first receipt is sealed.
pub open spec fn after_first_seal(l: GateLedger) -> bool {
    &&& l.wf()
    &&& l.storage_infallible()
    &&& l.spec_retention() == gate_retention()
    &&& l.spec_active_len() == 0
    &&& exists|rc: ActionReceipt| l.spec_sealed() == seq![rc] && #[trigger] first_receipt_facts(rc)
}

/// Opens the first receipt, records its lifecycle up to readiness, seals it,
/// and checks that a repeated terminal event is refused.
#[verifier::spinoff_prover]
#[verifier::rlimit(50)]
fn gate_seal_first(ledger: &mut GateLedger) -> (reached: ReceiptGateStage)
    requires
        old(ledger).wf(),
        old(ledger).storage_infallible(),
        old(ledger).spec_retention() == gate_retention(),
        old(ledger).spec_active_len() == 0,
        old(ledger).spec_sealed() == Seq::<ActionReceipt>::empty(),
    ensures
        reached == ReceiptGateStage::Sealed,
        after_first_seal(*final(ledger)),
{
    let first = gate_open(1);
    let id1 = first.receipt_id;
    if ledger.open(first.clone()).is_err() {
        return ReceiptGateStage::Ready;
    }
    assert(ledger.spec_active_len() == 1 && ledger.spec_active_id(0) == id1);
    let e1 = gate_event(&first, 1, ReceiptLifecycleEventType::RequestAccepted, ReceiptEventSource::Planner, PublicReasonCode::NoReason, None);
    if ledger.append(e1).is_err() {
        return ReceiptGateStage::Opened;
    }
    assert(ledger.spec_active_len() == 1 && ledger.spec_active_id(0) == id1);
    assert(ledger.spec_active_timeline(0) == seq![e1]);
    let e2 = gate_event(&first, 2, ReceiptLifecycleEventType::PolicyAllowed, ReceiptEventSource::Policy, PublicReasonCode::NoReason, None);
    if ledger.append(e2).is_err() {
        return ReceiptGateStage::Opened;
    }
    assert(ledger.spec_active_len() == 1 && ledger.spec_active_id(0) == id1);
    assert(ledger.spec_active_timeline(0) == seq![e1, e2]);
    let e3 = gate_event(&first, 3, ReceiptLifecycleEventType::DispatchAccepted, ReceiptEventSource::Executor, PublicReasonCode::DispatchAccepted, None);
    if ledger.append(e3).is_err() {
        return ReceiptGateStage::PolicyEvent;
    }
    assert(ledger.spec_active_len() == 1 && ledger.spec_active_id(0) == id1);
    assert(ledger.spec_active_timeline(0) == seq![e1, e2, e3]);
    if !matches!(ledger.append(e3), Ok(AppendDisposition::DuplicateIgnored)) {
        return ReceiptGateStage::PolicyEvent;
    }
    assert(ledger.spec_active_len() == 1 && ledger.spec_active_id(0) == id1);
    assert(ledger.spec_active_timeline(0) == seq![e1, e2, e3]);
    let e4 = gate_event(&first, 4, ReceiptLifecycleEventType::AwaitingOutcome, ReceiptEventSource::Coordinator, PublicReasonCode::DispatchAccepted, None);
    if ledger.append(e4).is_err() {
        return ReceiptGateStage::DispatchEvent;
    }
    assert(ledger.spec_active_len() == 1 && ledger.spec_active_id(0) == id1);
    assert(ledger.spec_active_timeline(0) == seq![e1, e2, e3, e4]);
    let e5 = gate_event(&first, 5, ReceiptLifecycleEventType::TargetReady, ReceiptEventSource::OutcomeObserver, PublicReasonCode::OutcomeReady, None);
    if ledger.append(e5).is_err() {
        return ReceiptGateStage::DispatchEvent;
    }
    assert(ledger.spec_active_len() == 1 && ledger.spec_active_id(0) == id1);
    assert(ledger.spec_active_timeline(0) == seq![e1, e2, e3, e4, e5]);
    let e6 = gate_event(
        &first,
        6,
        ReceiptLifecycleEventType::Completed,
        ReceiptEventSource::Coordinator,
        PublicReasonCode::OutcomeReady,
        Some(ActionReceiptTerminalStatus::CompletedReady),
    );
    proof {
        lemma_sealed_encoding_len();
    }
    let ghost before_seal = *ledger;
    if !matches!(ledger.append(e6), Ok(AppendDisposition::Sealed)) {
        return ReceiptGateStage::OutcomeEvent;
    }
    let ghost rc1 = choose|rc: ActionReceipt|
        sealed_wf(rc) && #[trigger] sealed_matches_builder(
            rc,
            before_seal.spec_active_open(0),
            before_seal.spec_active_timeline(0).push(e6),
            ActionReceiptTerminalStatus::CompletedReady,
        ) && ledger.spec_sealed() == sealing_run(before_seal.spec_sealed(), rc, before_seal.spec_retention(), 4).0;
    proof {
        lemma_first_sealing(rc1, before_seal.spec_retention(), 4);
    }
    assert(ledger.spec_sealed() == seq![rc1]);
    assert(ledger.spec_sealed()[0].spec_receipt_id() == id1);
    if !matches!(ledger.append(e6), Err(ReceiptError::DuplicateTerminal)) {
        return ReceiptGateStage::OutcomeEvent;
    }
    proof {
        let timeline = seq![e1, e2, e3, e4, e5, e6];
        assert(rc1.spec_timeline() =~= timeline);
        assert(timeline.drop_last() =~= seq![e1, e2, e3, e4, e5]);
        assert(seq![e1, e2, e3, e4, e5].drop_last() =~= seq![e1, e2, e3, e4]);
        assert(seq![e1, e2, e3, e4].drop_last() =~= seq![e1, e2, e3]);
        assert(seq![e1, e2, e3].drop_last() =~= seq![e1, e2]);
        assert(seq![e1, e2].drop_last() =~= seq![e1]);
        assert(seq![e1].drop_last() =~= Seq::<ActionReceiptLifecycleEvent>::empty());
        assert(summaries_of(seq![e1, e2, e3, e4, e5]).observed_outcome.outcome is Ready);
        assert(first_receipt_facts(rc1));
    }
    ReceiptGateStage::Sealed
}

/// Queries the sealed receipt from its own session and from another one, and
/// checks the integrity of every sealed receipt.
fn gate_check_sealed(ledger: &mut GateLedger) -> (reached: ReceiptGateStage)
    requires
        after_first_seal(*old(ledger)),
    ensures
        reached == ReceiptGateStage::Integrity,
        after_first_seal(*final(ledger)),
{
    let ghost rc = choose|rc: ActionReceipt| ledger.spec_sealed() == seq![rc] && #[trigger] first_receipt_facts(rc);
    let q7 = latest(7);
    assert(newest_matches(ledger.spec_sealed(), q7, 1) == Seq::<ActionReceipt>::empty());
    assert(query_selection(ledger.spec_sealed(), q7) =~= seq![rc]);
    let view = match ledger.query(q7, "en") {
        Ok(ReceiptQueryResult::Sealed(view)) => view,
        _ => {
            return ReceiptGateStage::Sealed;
        },
    };
    if view.len() != 1 || !view[0].readiness_observed {
        return ReceiptGateStage::Sealed;
    }
    let q8 = latest(8);
    assert(newest_matches(ledger.spec_sealed(), q8, 1) == Seq::<ActionReceipt>::empty());
    assert(query_selection(ledger.spec_sealed(), q8) =~= Seq::<ActionReceipt>::empty());
    if !matches!(ledger.query(q8, "en"), Ok(ReceiptQueryResult::NotFound)) {
        return ReceiptGateStage::Query;
    }
    let receipts = ledger.sealed_receipts();
    let mut index: usize = 0;
    while index < receipts.len()
        invariant
            receipts@ == seq![rc],
            sealed_wf(rc),
            index <= receipts@.len(),
        decreases receipts@.len() - index,
    {
        if !receipts[index].verify_integrity() {
            return ReceiptGateStage::Isolation;
        }
        index = index + 1;
    }
    assert(ledger.spec_sealed() == seq![rc] && first_receipt_facts(rc));
    ReceiptGateStage::Integrity
}

/// Opens two more receipts and seals one as unsupported: retention keeps
/// one receipt for the requester and session, and the other stays open.
#[verifier::spinoff_prover]
#[verifier::rlimit(50)]
fn gate_check_retention(ledger: &mut GateLedger) -> (reached: ReceiptGateStage)
    requires
        after_first_seal(*old(ledger)),
    ensures
        gate_ids_distinct() ==> reached == ReceiptGateStage::Complete,
{
    let ghost rc = choose|rc: ActionReceipt| ledger.spec_sealed() == seq![rc] && #[trigger] first_receipt_facts(rc);
    let third = gate_open(3);
    let id3 = third.receipt_id;
    proof {
        if gate_ids_distinct() {
            assert(rc.spec_receipt_id().value()@ != id3.value()@);
            assert(!ledger.spec_is_sealed(id3));
        }
    }
    let opened = ledger.open(third);
    if opened.is_err() {
        return ReceiptGateStage::Integrity;
    }
    assert(ledger.spec_active_len() == 1 && ledger.spec_active_id(0) == id3);
    assert(ledger.spec_sealed() == seq![rc]);
    let second = gate_open(2);
    let id2 = second.receipt_id;
    proof {
        if gate_ids_distinct() {
            assert(rc.spec_receipt_id().value()@ != id2.value()@);
            assert(id3.value()@ != id2.value()@);
            assert(!ledger.spec_is_sealed(id2));
            assert(!ledger.spec_is_active(id2));
        }
    }
    let opened = ledger.open(second.clone());
    if opened.is_err() {
        return ReceiptGateStage::Integrity;
    }
    assert(ledger.spec_active_len() == 2 && ledger.spec_active_id(1) == id2 && ledger.spec_active_id(0) == id3);
    assert(ledger.spec_active_timeline(1) == Seq::<ActionReceiptLifecycleEvent>::empty());
    assert(ledger.spec_sealed() == seq![rc]);
    let unsupported = gate_event(
        &second,
        1,
        ReceiptLifecycleEventType::Unsupported,
        ReceiptEventSource::Planner,
        PublicReasonCode::Unsupported,
        Some(ActionReceiptTerminalStatus::Unsupported),
    );
    proof {
        lemma_sealed_encoding_len();
    }
    let ghost before_seal = *ledger;
    let appended = ledger.append(unsupported);
    proof {
        if gate_ids_distinct() {
            assert(before_seal.spec_active_id(0) != id2);
            assert(appended is Ok);
            let rc2 = choose|rc2: ActionReceipt|
                sealed_wf(rc2) && #[trigger] sealed_matches_builder(
                    rc2,
                    before_seal.spec_active_open(1),
                    before_seal.spec_active_timeline(1).push(unsupported),
                    ActionReceiptTerminalStatus::Unsupported,
                ) && ledger.spec_sealed() == sealing_run(
                    before_seal.spec_sealed(),
                    rc2,
                    before_seal.spec_retention(),
                    4,
                ).0;
            lemma_second_sealing(rc, rc2);
            assert(ledger.spec_sealed().len() == 1);
            assert(ledger.spec_active_len() == 1);
        }
    }
    if appended.is_err() {
        return ReceiptGateStage::Integrity;
    }
    if ledger.active_len() != 1 || ledger.sealed_len() != 1 {
        return ReceiptGateStage::Integrity;
    }
    ReceiptGateStage::Complete
}

/// Runs the receipt self-check and tells how far it got. It passes every
/// stage unless two of the receipt identifiers it derives coincide; that
/// they do not is a property of SHA-256 (see `gate_ids_distinct`), so the
/// guarantee below is conditional on it.
pub fn run_action_receipt_v1_gate() -> (reached: ReceiptGateStage)
    ensures
        gate_ids_distinct() ==> reached == ReceiptGateStage::Complete,
{
    let mut ledger = GateLedger::volatile(
        ReceiptRetentionPolicy { max_sealed_per_domain: 1, max_nonexecuted_per_domain: 1 },
    );
    let sealed = gate_seal_first(&mut ledger);
    if !matches!(sealed, ReceiptGateStage::Sealed) {
        return sealed;
    }
    let checked = gate_check_sealed(&mut ledger);
    if !matches!(checked, ReceiptGateStage::Integrity) {
        return checked;
    }
    gate_check_retention(&mut ledger)
}

} // verus!
