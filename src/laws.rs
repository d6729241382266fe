use vstd::prelude::*;

use crate::component::{decremented, incremented, ComponentModel};

verus! {

/// The component after `n` copies of a handle.
pub open spec fn copied(m: ComponentModel, n: nat) -> ComponentModel
    decreases n,
{
    if n == 0 {
        m
    } else {
        incremented(copied(m, (n - 1) as nat))
    }
}

/// The component after `n` handles are destroyed.
pub open spec fn released(m: ComponentModel, n: nat) -> ComponentModel
    decreases n,
{
    if n == 0 {
        m
    } else {
        decremented(released(m, (n - 1) as nat))
    }
}

/// Copying a handle and destroying the copy leaves a live component as it
/// was.
pub proof fn lemma_copy_then_destroy(m: ComponentModel)
    requires
        m.count >= 1,
    ensures
        decremented(incremented(m)) == m,
{
}

proof fn lemma_copied(m: ComponentModel, n: nat)
    ensures
        copied(m, n) == (ComponentModel { count: m.count + n, ..m }),
    decreases n,
{
    if n > 0 {
        lemma_copied(m, (n - 1) as nat);
    }
}

proof fn lemma_released(m: ComponentModel, k: nat)
    requires
        k < m.count,
    ensures
        released(m, k) == (ComponentModel { count: (m.count - k) as nat, ..m }),
    decreases k,
{
    if k > 0 {
        lemma_released(m, (k - 1) as nat);
    }
}

/// A component held by one handle, copied `n` times, whose `n + 1` handles
/// are then all destroyed, is torn down exactly once: not before the last
/// handle goes, and once when it does.
pub proof fn lemma_balanced_release(m: ComponentModel, n: nat)
    requires
        m.count == 1,
    ensures
        forall|k: nat| k <= n ==> (#[trigger] released(copied(m, n), k)).teardowns == m.teardowns,
        released(copied(m, n), n + 1).count == 0,
        released(copied(m, n), n + 1).teardowns == m.teardowns + 1,
{
    lemma_copied(m, n);
    assert forall|k: nat| k <= n implies (#[trigger] released(copied(m, n), k)).teardowns
        == m.teardowns by {
        lemma_released(copied(m, n), k);
    }
    lemma_released(copied(m, n), n);
    assert(released(copied(m, n), n + 1) == decremented(released(copied(m, n), n)));
}

} // verus!
