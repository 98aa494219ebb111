//! The consumer's side of the pipeline: each received smoothed frame either
//! matches the previously rendered bar values (no redraw) or differs, in
//! which case the stored values are updated and a redraw is requested.
//! Equality is element-wise over the fixed-length frame.

use vstd::prelude::*;

verus! {

/// Folds one received frame into the rendered bar values: every changed
/// element is written through, and the result says whether anything
/// changed, so a redraw is requested exactly when the frame differs from
/// what is already on screen.
pub fn update_bars(current: &mut Vec<u16>, incoming: &Vec<u16>) -> (changed: bool)
    requires
        incoming@.len() == old(current)@.len(),
    ensures
        final(current)@ == incoming@,
        changed == (old(current)@ != incoming@),
{
    let ghost before = current@;
    let mut changed = false;
    let mut i: usize = 0;
    while i < incoming.len()
        invariant
            i <= incoming@.len(),
            current@.len() == incoming@.len() == before.len(),
            forall|j: int| 0 <= j < i ==> current@[j] == incoming@[j],
            forall|j: int| i <= j < before.len() ==> current@[j] == before[j],
            changed == exists|j: int| 0 <= j < i && before[j] != incoming@[j],
        decreases incoming@.len() - i,
    {
        if current[i] != incoming[i] {
            current.set(i, incoming[i]);
            changed = true;
            proof {
                assert(before[i as int] != incoming@[i as int]);
            }
        } else {
            proof {
                assert(before[i as int] == incoming@[i as int]);
            }
        }
        i = i + 1;
    }
    proof {
        assert(current@ =~= incoming@);
        if before != incoming@ {
            assert(exists|j: int| 0 <= j < before.len() && before[j] != incoming@[j]) by {
                assert(!(before =~= incoming@));
            }
        }
    }
    changed
}

} // verus!
