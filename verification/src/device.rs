//! The device-selection policy.
//!
//! The host enumerates every platform and, within each platform, every
//! device, and records each device's reported maximum-compute-units
//! capability in enumeration order. The policy below picks one device from
//! that flat record, or reports that no usable device exists.

use vstd::prelude::*;

verus! {

/// Holds when every enumerated device reports a compute-unit count of zero;
/// in particular it holds of an empty enumeration (no platforms, or no
/// devices on any platform).
pub open spec fn all_units_zero(units: Seq<u32>) -> bool {
    forall|j: int| 0 <= j < units.len() ==> units[j] == 0
}

/// The selection policy: index `i` names a device with a positive
/// compute-unit count that no enumerated device strictly exceeds, and that
/// strictly exceeds every device enumerated before it. The running
/// comparison is a strict `>`, so on a tie the earlier-enumerated device
/// keeps the win.
pub open spec fn is_selected(units: Seq<u32>, i: int) -> bool {
    &&& 0 <= i < units.len()
    &&& units[i] > 0
    &&& forall|j: int| 0 <= j < units.len() ==> units[j] <= units[i]
    &&& forall|j: int| 0 <= j < i ==> units[j] < units[i]
}

/// Picks the device with the most compute units: `units` holds the reported
/// maximum-compute-units of every enumerated device, in enumeration order,
/// and the result is the index of the chosen device. `None` is the normal
/// "no accelerator" outcome: it is returned exactly when no device reports a
/// positive compute-unit count.
pub fn select_best_device(units: &Vec<u32>) -> (r: Option<usize>)
    ensures
        (r is None) <==> all_units_zero(units@),
        r matches Some(i) ==> is_selected(units@, i as int),
{
    let mut best_units: u32 = 0;
    let mut best: Option<usize> = None;
    let mut idx: usize = 0;
    while idx < units.len()
        invariant
            idx <= units.len(),
            match best {
                Some(i) => {
                    &&& i < idx
                    &&& units@[i as int] == best_units
                    &&& best_units > 0
                    &&& forall|j: int| 0 <= j < idx ==> units@[j] <= best_units
                    &&& forall|j: int| 0 <= j < i ==> units@[j] < best_units
                },
                None => {
                    &&& best_units == 0
                    &&& forall|j: int| 0 <= j < idx ==> units@[j] == 0
                },
            },
        decreases units.len() - idx,
    {
        if units[idx] > best_units {
            best = Some(idx);
            best_units = units[idx];
        }
        idx = idx + 1;
    }
    best
}

/// Device selection is deterministic: for a fixed enumeration at most one
/// index satisfies the selection policy, so any procedure that returns a
/// selected index returns the same device every time.
pub proof fn lemma_selection_unique(units: Seq<u32>, i: int, j: int)
    requires
        is_selected(units, i),
        is_selected(units, j),
    ensures
        i == j,
{
    if i < j {
        assert(units[i] < units[j]);
        assert(units[j] <= units[i]);
    }
    if j < i {
        assert(units[j] < units[i]);
        assert(units[i] <= units[j]);
    }
}

/// With an empty device set, or one in which every device reports zero
/// compute units, no index satisfies the selection policy: the only possible
/// outcome is the "no accelerator" report.
pub proof fn lemma_all_zero_selects_none(units: Seq<u32>, i: int)
    requires
        all_units_zero(units),
    ensures
        !is_selected(units, i),
{
}

} // verus!
