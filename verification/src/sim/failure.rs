use vstd::prelude::*;

verus! {

/// Why a worker failed.
#[derive(Clone, Copy, Debug, PartialEq, Eq, Hash, Structural)]
pub enum FailureReason {
    Injected,
}

/// How a worker is recovered.
#[derive(Clone, Copy, Debug, PartialEq, Eq, Hash, Structural)]
pub enum RecoveryKind {
    RepairWorker,
}

} // verus!
