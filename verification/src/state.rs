use vstd::prelude::*;

verus! {

/// The two observable execution states of the machine. `Running` is entered
/// at boot; `Halted` is the terminal state reached either by normal
/// completion of the entry point's visible work or by a panic.
#[derive(Clone, Copy, PartialEq, Eq, Structural, Debug)]
pub enum KernelState {
    Running,
    Halted,
}

/// The events that end the running state: the entry point finishing its
/// visible work, or a panic raised anywhere in the call graph.
#[derive(Clone, Copy, PartialEq, Eq, Structural, Debug)]
pub enum KernelEvent {
    BootWorkDone,
    Panicked,
}

/// The whole transition relation: every event drives the machine to the
/// halted state, and no event leaves it.
pub open spec fn step(s: KernelState, e: KernelEvent) -> KernelState {
    match s {
        KernelState::Running => KernelState::Halted,
        KernelState::Halted => KernelState::Halted,
    }
}

/// Once halted, the machine stays halted: no event leads anywhere else.
pub proof fn lemma_halted_is_terminal(e: KernelEvent)
    ensures
        step(KernelState::Halted, e) == KernelState::Halted,
{
}

/// Where in the source a panic was raised, when the report carries it.
pub struct SourceLocation {
    pub file: String,
    pub line: u32,
    pub column: u32,
}

/// The payload handed to the panic handler: a description of the failure
/// and, optionally, its source location.
pub struct PanicDetails {
    pub message: String,
    pub location: Option<SourceLocation>,
}

/// The terminal non-progressing state. The processor-level spin that keeps
/// the machine there can never return and so stands outside the verified
/// library; this function records the transition into it.
pub fn hlt_loop() -> (s: KernelState)
    ensures
        s == KernelState::Halted,
{
    KernelState::Halted
}

/// The panic handler: whatever the payload holds — an empty description, a
/// long one, a source location or none — the outcome is the same, the halt
/// state. The diagnostic details are deliberately neither shown nor kept.
pub fn handle_panic(_details: &PanicDetails) -> (s: KernelState)
    ensures
        s == step(KernelState::Running, KernelEvent::Panicked),
        s == KernelState::Halted,
{
    hlt_loop()
}

} // verus!
