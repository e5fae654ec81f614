# wiseowl_brain

The decision core of the Wise Owl assistant of SunlightOS, written in Verus.
The functions in `src/` carry contracts that Verus proves; two small trusted
wrappers call SHA-256 from `sha2` and the UTF-8 check of `core`.

- `action_intent`: typed, bounded action proposals and their validation.
- `action_receipt`: the append-only, session-isolated receipt ledger with
  sealed, integrity-checked receipts, bounded retention and localized queries.
- `gui_bridge`: session bindings, the ordered GUI event broker and readiness
  correlation for launched applications and settings pages.
- `delegated_session_lifecycle`: authenticated lifecycle events from the
  display server and the control panel.
- `identity_binding`, `caps`, `diagnostics`: identity, capabilities, counters.
- `foundation`, `context`, `grounded`, `adapters`, `runtime_context`: the
  foundation memory blob, grounded facts from the session, foundation,
  status and live runtime sources, and the context budget.
- `coordinator`: the action coordinator as a state machine. Each step takes
  the coordinator's state and one event (a request with the planner's
  answer, policy's answer, a created challenge, a confirmation response and
  the authority's answer to it, a cancellation) and gives the next state
  and either a public answer or the outside work to do next; its
  self-check is proved to pass.
- `digest`: SHA-256 (through the `sha2` crate) and little-endian encoding.
- `receipt_gate`: the receipt self-check of the daemon, proved to pass
  every stage whenever the three receipt identifiers it derives differ (a
  property of SHA-256 outputs that is checked by running it, not proved).

`tests/` exercises the library; `app/` is a small host program that loads a
foundation blob from disk and prints the markers of the receipt, GUI
bridge and coordinator self-checks.

Scope: the policy engine's rules, the action planner's interpretation of
text, the wire protocol and the daemon's IPC plumbing are not part of this
crate. The coordinator takes the planner's and policy's answers as events;
the confirmation authority, the executor and the greeting planner are
absent.

Bounded collections are std `Vec` and `String`: each type's well-formedness
states its capacity, and every method is proved to keep within it. The
`heapless` dependency in `Cargo.toml` is not used by the code.
