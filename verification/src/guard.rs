//! The locking discipline of point operations on one handle.
//!
//! Each handle carries a guard with a shared and an exclusive mode. A read
//! takes the shared mode, a write the exclusive one, so that a write runs
//! alone and reads run beside each other.

use vstd::prelude::*;

verus! {

/// A point operation on a handle.
#[derive(Clone, Copy, Debug, PartialEq, Eq, Structural)]
pub enum Operation {
    Put,
    Delete,
    Get,
}

/// A mode in which the guard of a handle is held.
#[derive(Clone, Copy, Debug, PartialEq, Eq, Structural)]
pub enum LockMode {
    /// Held together with other shared holders.
    Shared,
    /// Held alone.
    Exclusive,
}

impl Operation {
    /// Whether the operation changes what the engine stores.
    pub open spec fn spec_writes(self) -> bool {
        self != Operation::Get
    }

    /// Whether the operation changes what the engine stores.
    pub fn writes(self) -> (r: bool)
        ensures
            r == self.spec_writes(),
    {
        match self {
            Operation::Put | Operation::Delete => true,
            Operation::Get => false,
        }
    }
}

/// The mode that an operation holds the guard in: exclusive exactly when it
/// writes.
pub open spec fn spec_lock_mode(op: Operation) -> LockMode {
    if op.spec_writes() {
        LockMode::Exclusive
    } else {
        LockMode::Shared
    }
}

/// Whether two holders in these modes may hold the guard at one time: only
/// where both are shared.
pub open spec fn spec_may_overlap(a: LockMode, b: LockMode) -> bool {
    a == LockMode::Shared && b == LockMode::Shared
}

/// The mode in which `op` must hold the guard of its handle.
pub fn lock_mode(op: Operation) -> (r: LockMode)
    ensures
        r == spec_lock_mode(op),
{
    if op.writes() {
        LockMode::Exclusive
    } else {
        LockMode::Shared
    }
}

/// Whether two holders in these modes may hold the guard at one time.
pub fn may_overlap(a: LockMode, b: LockMode) -> (r: bool)
    ensures
        r == spec_may_overlap(a, b),
{
    a == LockMode::Shared && b == LockMode::Shared
}

/// Two operations on one handle run at the same time only where both are
/// reads: a write excludes every other operation, another write included.
pub proof fn writes_run_alone(a: Operation, b: Operation)
    ensures
        spec_may_overlap(spec_lock_mode(a), spec_lock_mode(b)) <==> a == Operation::Get && b
            == Operation::Get,
        spec_may_overlap(spec_lock_mode(a), spec_lock_mode(b)) == spec_may_overlap(
            spec_lock_mode(b),
            spec_lock_mode(a),
        ),
{
}

} // verus!
