//! The panic protocol: what an unrecoverable failure resolves to.  A
//! panic halts the process for good; no unwinding, no cleanup of caller
//! frames, and no heap allocation take place.

use vstd::prelude::*;

verus! {

/// An opaque failure signal: the source location and message of an
/// unrecoverable failure.  The handler is permitted to discard it
/// entirely; its only guaranteed effect is that normal execution never
/// resumes once it is raised.
pub struct PanicRecord<'a> {
    /// The panic message, if the failure site supplied one.
    pub message: Option<&'a str>,
    /// Source line of the failure site.
    pub line: u32,
    /// Source column of the failure site.
    pub column: u32,
}

/// The control-flow phase of the process: either it is running
/// ordinarily, or a panic has put it in the halted phase.
#[derive(Clone, Copy, Debug, PartialEq, Eq, Structural)]
pub enum ProcessPhase {
    Running,
    Halted,
}

/// Entering the panic handler puts the process in the halted phase,
/// whatever phase it was in before.
pub open spec fn phase_on_panic(phase: ProcessPhase) -> ProcessPhase {
    ProcessPhase::Halted
}

/// One step of the process's execution: an ordinary step leaves a
/// running process running, and a halted process takes no step that
/// changes anything — the halt is final and irreversible, with no
/// recovery path and no supervisor.
pub open spec fn phase_step(phase: ProcessPhase) -> ProcessPhase {
    match phase {
        ProcessPhase::Running => ProcessPhase::Running,
        ProcessPhase::Halted => ProcessPhase::Halted,
    }
}

/// The phase after `steps` further steps of execution.
pub open spec fn phase_after(phase: ProcessPhase, steps: nat) -> ProcessPhase
    decreases steps,
{
    if steps == 0 {
        phase
    } else {
        phase_step(phase_after(phase, (steps - 1) as nat))
    }
}

/// Once the panic handler is entered, every later point of the process's
/// execution is still halted: no observer-visible side effect scheduled
/// after the panic call ever occurs.
pub proof fn lemma_halt_is_permanent(phase: ProcessPhase, steps: nat)
    ensures
        phase_after(phase_on_panic(phase), steps) == ProcessPhase::Halted,
    decreases steps,
{
    if steps > 0 {
        lemma_halt_is_permanent(phase, (steps - 1) as nat);
    }
}

/// Resolve an unrecoverable-failure signal into the process's next
/// phase.
///
/// The record is discarded whole — no message formatting, no I/O, no
/// allocation — and the answer is the halted phase whatever the record
/// holds and whatever phase the process was in.  The caller that owns
/// the process boundary must then genuinely stop executing: spin in a
/// non-yielding loop or make an immediate host abort call, and never
/// hand control back to the frame that panicked.  `lemma_halt_is_permanent`
/// states that the phase this function orders is final.
pub fn on_panic(phase: ProcessPhase, _record: &PanicRecord<'_>) -> (next: ProcessPhase)
    ensures
        next == phase_on_panic(phase),
{
    ProcessPhase::Halted
}

} // verus!
