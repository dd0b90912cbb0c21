//! The host adapter: per-tick invocation, buffers, and fault isolation.
//!
//! Each tick the adapter encodes the snapshot for the module's convention,
//! invokes `decide`, decodes the result into the canonical decision and
//! hands it to the vehicle. A call that misses the host's time budget is a
//! fatal fault for that instance: the adapter reports it once, never
//! invokes the instance again, and keeps the vehicle going on a fallback
//! decision — neutral, or the last decision the module gave, by host
//! policy. The adapter owns the host-side output buffer of Convention A
//! and zeroes it before every call so no stale bytes are ever read back.

use vstd::prelude::*;
use crate::decision::ControlDecision;
use crate::snapshot::TickSnapshot;
use crate::codec_a::DECISION_BYTES;
use crate::codec_c::{decision_from_cells, decision_from_cells_spec};
use crate::modules::{BufferModule, center_decision_spec};

verus! {

/// What the vehicle runs on while a faulted module is isolated.
#[derive(Clone, Copy, PartialEq, Eq, Structural, Debug)]
pub enum FallbackPolicy {
    /// Substitute the neutral decision: no pedal, no steering.
    Neutral,
    /// Keep reporting the last decision the module gave before the fault.
    LastKnownGood,
}

/// One tick's result at the host boundary: either the module returned a
/// decoded decision within the time budget, or it did not return in time.
#[derive(Clone, Copy, PartialEq, Eq, Structural, Debug)]
pub enum TickOutcome {
    Completed(ControlDecision),
    TimedOut,
}

/// Per-instance host state: fault isolation and the fallback source.
#[derive(Clone, Copy, PartialEq, Eq, Structural, Debug)]
pub struct HostAdapter {
    pub policy: FallbackPolicy,
    pub faulted: bool,
    pub last_decision: ControlDecision,
}

/// The decision the adapter substitutes while its module is isolated.
pub open spec fn fallback_spec(a: HostAdapter) -> ControlDecision {
    match a.policy {
        FallbackPolicy::Neutral => ControlDecision { accelerate: false, brake: false, steering: 0 },
        FallbackPolicy::LastKnownGood => a.last_decision,
    }
}

/// The adapter's whole per-tick state machine: from a state and a tick
/// outcome to the next state, the decision applied to the vehicle, and
/// whether a fault report is emitted this tick. A timeout faults the
/// instance and is reported exactly once; afterward every tick applies
/// the fallback decision and reports nothing.
pub open spec fn settle_spec(a: HostAdapter, outcome: TickOutcome) -> (HostAdapter, ControlDecision, bool) {
    if a.faulted {
        (a, fallback_spec(a), false)
    } else {
        match outcome {
            TickOutcome::Completed(d) => (
                HostAdapter { last_decision: d, ..a },
                d,
                false,
            ),
            TickOutcome::TimedOut => (
                HostAdapter { faulted: true, ..a },
                fallback_spec(a),
                true,
            ),
        }
    }
}

impl HostAdapter {
    /// The adapter keeps only valid decisions as last known good.
    pub open spec fn wf(self) -> bool {
        self.last_decision.valid()
    }

    /// A fresh adapter for one module instance: not faulted, with the
    /// neutral decision as the initial last known good.
    pub fn new(policy: FallbackPolicy) -> (a: HostAdapter)
        ensures
            a.policy == policy,
            !a.faulted,
            a.last_decision == (ControlDecision { accelerate: false, brake: false, steering: 0 }),
            a.wf(),
    {
        HostAdapter { policy, faulted: false, last_decision: ControlDecision::neutral() }
    }

    /// Whether the next tick may invoke the module at all: a faulted
    /// instance is never called again.
    pub fn should_invoke(&self) -> (r: bool)
        ensures
            r == !self.faulted,
    {
        !self.faulted
    }

    /// Settles one tick: consumes the outcome of the module call (or the
    /// lack of one) and yields the decision to apply and whether to emit
    /// a fault report, exactly as `settle_spec` says.
    pub fn settle_tick(&mut self, outcome: TickOutcome) -> (r: (ControlDecision, bool))
        requires
            old(self).wf(),
            outcome matches TickOutcome::Completed(d) ==> d.valid(),
        ensures
            (*final(self), r.0, r.1) == settle_spec(*old(self), outcome),
            final(self).wf(),
            r.0.valid(),
    {
        if self.faulted {
            (self.fallback(), false)
        } else {
            match outcome {
                TickOutcome::Completed(d) => {
                    self.last_decision = d;
                    (d, false)
                },
                TickOutcome::TimedOut => {
                    let d = self.fallback();
                    self.faulted = true;
                    (d, true)
                },
            }
        }
    }

    /// The current fallback decision.
    pub fn fallback(&self) -> (d: ControlDecision)
        requires
            self.wf(),
        ensures
            d == fallback_spec(*self),
            d.valid(),
    {
        match self.policy {
            FallbackPolicy::Neutral => ControlDecision::neutral(),
            FallbackPolicy::LastKnownGood => self.last_decision,
        }
    }
}

/// Why a module instance was rejected at load time.
#[derive(Clone, Copy, PartialEq, Eq, Structural, Debug)]
pub enum LoadError {
    /// The instance was never initialized; it must not receive a tick.
    InitializationMissing,
}

/// The load-time gate: an instance that has not completed `initialize` is
/// rejected before any tick is attempted, and the rejection is surfaced —
/// the host never silently substitutes another module for it.
pub fn accept_instance(module: &BufferModule) -> (r: Result<(), LoadError>)
    ensures
        r == if module.is_initialized() {
            Result::<(), LoadError>::Ok(())
        } else {
            Result::<(), LoadError>::Err(LoadError::InitializationMissing)
        },
{
    if module.ready() {
        Ok(())
    } else {
        Err(LoadError::InitializationMissing)
    }
}

/// A module that never returns within the time budget faults its instance
/// on that tick with exactly one fault report, and on every later tick —
/// whatever the outcome claims — the host applies the fallback decision,
/// reports nothing further, and keeps the instance isolated: the
/// simulation continues, the module is never trusted again.
pub proof fn lemma_single_fault_report(a: HostAdapter, later: TickOutcome)
    requires
        !a.faulted,
    ensures
        ({
            let (a1, d1, report1) = settle_spec(a, TickOutcome::TimedOut);
            let (a2, d2, report2) = settle_spec(a1, later);
            &&& report1 == true
            &&& a1.faulted
            &&& d1 == fallback_spec(a)
            &&& report2 == false
            &&& a2 == a1
            &&& d2 == fallback_spec(a)
        }),
{
}

/// A fresh, zeroed host-side output buffer for Convention A, of exactly
/// the twelve bytes the module may write.
pub fn make_output_buffer_a() -> (buf: Vec<u8>)
    ensures
        buf@.len() == DECISION_BYTES,
        forall|i: int| 0 <= i < DECISION_BYTES ==> buf@[i] == 0,
{
    let mut buf: Vec<u8> = Vec::new();
    let mut k: usize = 0;
    while k < DECISION_BYTES
        invariant
            k <= DECISION_BYTES,
            buf@.len() == k,
            forall|i: int| 0 <= i < k ==> buf@[i] == 0,
        decreases DECISION_BYTES - k,
    {
        buf.push(0);
        k = k + 1;
    }
    buf
}

/// Zeroes the Convention A output buffer before a call, so a module that
/// writes nothing leaves no stale bytes to be decoded.
pub fn reset_output_buffer_a(buf: &mut Vec<u8>)
    ensures
        final(buf)@.len() == old(buf)@.len(),
        forall|i: int| 0 <= i < old(buf)@.len() ==> final(buf)@[i] == 0,
{
    let n = buf.len();
    let mut k: usize = 0;
    while k < n
        invariant
            k <= n,
            buf@.len() == n,
            forall|i: int| 0 <= i < k ==> buf@[i] == 0,
        decreases n - k,
    {
        buf[k] = 0;
        k = k + 1;
    }
}

/// One whole Convention C tick against a buffer module: write the
/// snapshot into the module's input region, invoke it, read the output
/// region back and normalize. The decision is exactly the center-keeping
/// decision over the snapshot's fields, and the module's region addresses
/// are the same afterward as before.
pub fn tick_buffer_module(module: &mut BufferModule, snap: &TickSnapshot) -> (d: ControlDecision)
    requires
        old(module).wf(),
        snap.valid(),
    ensures
        final(module).wf(),
        ({
            let cells = center_decision_spec(snap.field_seq());
            d == decision_from_cells_spec(cells[0], cells[1], cells[2], cells[3])
        }),
        d.valid(),
        final(module).input_address_spec() == old(module).input_address_spec(),
        final(module).output_address_spec() == old(module).output_address_spec(),
        final(module).is_initialized() == old(module).is_initialized(),
        final(module).diagnostics_view() == old(module).diagnostics_view(),
{
    module.host_write_input(snap);
    module.process();
    let cells = module.read_output();
    decision_from_cells(cells.0, cells.1, cells.2, cells.3)
}

} // verus!
