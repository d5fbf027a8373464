//! The screen registry: which screens are live, keyed by native window
//! identity on one side and logical screen id on the other.
//!
//! Invariant: among live entries, both the native identities and the screen
//! ids are unique. An entry is inserted only after its screen is fully
//! constructed and handed to the host, and removed only after the host has
//! declined to cancel the close.

use crate::screen::{NativeWindowId, ScreenId};
use vstd::prelude::*;

verus! {

/// One live screen: its native window identity and its logical id.
#[derive(Clone, Copy, Debug, PartialEq, Eq, Hash, Structural)]
pub struct ScreenIdData(pub NativeWindowId, pub ScreenId);

/// The registry of live screens.
pub struct ScreenRegistry {
    screens: Vec<ScreenIdData>,
}

impl View for ScreenRegistry {
    type V = Seq<ScreenIdData>;

    closed spec fn view(&self) -> Seq<ScreenIdData> {
        self.screens@
    }
}

/// What a sequence of entries looks like after the entry at `idx` is removed
/// by swapping the last entry into its place.
pub open spec fn spec_swap_removed(s: Seq<ScreenIdData>, idx: int) -> Seq<ScreenIdData> {
    s.update(idx, s.last()).drop_last()
}

impl ScreenRegistry {
    /// Well-formedness: native identities and screen ids are each unique
    /// among the live entries.
    pub open spec fn wf(&self) -> bool {
        &&& forall|i: int, j: int|
            0 <= i < j < self@.len() ==> #[trigger] self@[i].0 != #[trigger] self@[j].0
        &&& forall|i: int, j: int|
            0 <= i < j < self@.len() ==> #[trigger] self@[i].1 != #[trigger] self@[j].1
    }

    /// Whether some live entry has this native window identity.
    pub open spec fn spec_contains_window(&self, window_id: NativeWindowId) -> bool {
        exists|k: int| 0 <= k < self@.len() && #[trigger] self@[k].0 == window_id
    }

    /// Whether some live entry has this screen id.
    pub open spec fn spec_contains_screen(&self, screen_id: ScreenId) -> bool {
        exists|k: int| 0 <= k < self@.len() && #[trigger] self@[k].1 == screen_id
    }

    /// An empty registry.
    pub fn new() -> (r: Self)
        ensures
            r@ == Seq::<ScreenIdData>::empty(),
            r.wf(),
    {
        Self { screens: Vec::new() }
    }

    /// How many screens are live.
    pub fn len(&self) -> (n: usize)
        ensures
            n == self@.len(),
    {
        self.screens.len()
    }

    /// Whether no screen is live.
    pub fn is_empty(&self) -> (e: bool)
        ensures
            e <==> self@.len() == 0,
    {
        self.screens.len() == 0
    }

    /// The entry at a position, for walking the live screens.
    pub fn entry_at(&self, i: usize) -> (d: ScreenIdData)
        requires
            i < self@.len(),
        ensures
            d == self@[i as int],
    {
        self.screens[i]
    }
}

/// Law: in a well-formed registry the registered pairs have unique
/// identities on both sides.
pub proof fn lemma_registry_identities_unique(reg: ScreenRegistry)
    requires
        reg.wf(),
    ensures
        forall|i: int, j: int|
            0 <= i < reg@.len() && 0 <= j < reg@.len() && i != j ==> #[trigger] reg@[i].0
                != #[trigger] reg@[j].0,
        forall|i: int, j: int|
            0 <= i < reg@.len() && 0 <= j < reg@.len() && i != j ==> #[trigger] reg@[i].1
                != #[trigger] reg@[j].1,
{
    assert forall|i: int, j: int|
        0 <= i < reg@.len() && 0 <= j < reg@.len() && i != j implies #[trigger] reg@[i].0
        != #[trigger] reg@[j].0 by {
        if i < j {
            assert(reg@[i].0 != reg@[j].0);
        } else {
            assert(reg@[j].0 != reg@[i].0);
        }
    }
    assert forall|i: int, j: int|
        0 <= i < reg@.len() && 0 <= j < reg@.len() && i != j implies #[trigger] reg@[i].1
        != #[trigger] reg@[j].1 by {
        if i < j {
            assert(reg@[i].1 != reg@[j].1);
        } else {
            assert(reg@[j].1 != reg@[i].1);
        }
    }
}

/// Find the live screen with this native window identity.
pub fn get_screen(reg: &ScreenRegistry, window_id: &NativeWindowId) -> (r: Option<ScreenIdData>)
    ensures
        match r {
            Some(d) => reg@.contains(d) && d.0 == *window_id,
            None => !reg.spec_contains_window(*window_id),
        },
{
    let n = reg.len();
    let mut i: usize = 0;
    while i < n
        invariant
            0 <= i <= n == reg@.len(),
            forall|k: int| 0 <= k < i ==> #[trigger] reg@[k].0 != *window_id,
        decreases n - i,
    {
        let d = reg.entry_at(i);
        if d.0 == *window_id {
            return Some(d);
        }
        i = i + 1;
    }
    None
}

/// Register a newly constructed screen. Both of its identities must be new:
/// the windowing system never reuses a live window identity, and the host
/// hands out a fresh screen id for each screen it receives.
pub fn push_screen(reg: &mut ScreenRegistry, id_data: ScreenIdData)
    requires
        old(reg).wf(),
        !old(reg).spec_contains_window(id_data.0),
        !old(reg).spec_contains_screen(id_data.1),
    ensures
        final(reg)@ == old(reg)@.push(id_data),
        final(reg).wf(),
{
    reg.screens.push(id_data);
    proof {
        assert forall|i: int, j: int| 0 <= i < j < reg@.len() implies #[trigger] reg@[i].0
            != #[trigger] reg@[j].0 by {
            if j == reg@.len() - 1 {
                assert(reg@[i] == old(reg)@[i]);
                assert(old(reg)@[i].0 != id_data.0);
            } else {
                assert(old(reg)@[i].0 != old(reg)@[j].0);
            }
        }
        assert forall|i: int, j: int| 0 <= i < j < reg@.len() implies #[trigger] reg@[i].1
            != #[trigger] reg@[j].1 by {
            if j == reg@.len() - 1 {
                assert(reg@[i] == old(reg)@[i]);
                assert(old(reg)@[i].1 != id_data.1);
            } else {
                assert(old(reg)@[i].1 != old(reg)@[j].1);
            }
        }
    }
}

/// Remove one entry (the screen whose close the host confirmed), and report
/// whether the registry is now empty. An entry not present is left alone.
/// The removal swaps the last entry into the removed one's place.
pub fn remove_screen(reg: &mut ScreenRegistry, id_data: ScreenIdData, is_empty: &mut bool)
    requires
        old(reg).wf(),
    ensures
        final(reg).wf(),
        !old(reg)@.contains(id_data) ==> final(reg)@ == old(reg)@,
        old(reg)@.contains(id_data) ==> exists|idx: int|
            0 <= idx < old(reg)@.len() && old(reg)@[idx] == id_data && final(reg)@
                == #[trigger] spec_swap_removed(old(reg)@, idx),
        old(reg)@.contains(id_data) ==> final(reg)@.len() == old(reg)@.len() - 1,
        !final(reg)@.contains(id_data),
        forall|d: ScreenIdData|
            d != id_data ==> (final(reg)@.contains(d) <==> old(reg)@.contains(d)),
        *final(is_empty) <==> final(reg)@.len() == 0,
{
    let n = reg.screens.len();
    let mut i: usize = 0;
    let mut index: Option<usize> = None;
    while i < n
        invariant
            0 <= i <= n == reg@.len(),
            match index {
                Some(idx) => idx < i && reg@[idx as int] == id_data,
                None => forall|k: int| 0 <= k < i ==> #[trigger] reg@[k] != id_data,
            },
        decreases n - i,
    {
        if index.is_none() {
            let d = reg.screens[i];
            if d == id_data {
                index = Some(i);
            }
        }
        i = i + 1;
    }
    if let Some(idx) = index {
        let _removed = reg.screens.swap_remove(idx);
        proof {
            lemma_swap_removed_facts(old(reg)@, idx as int, id_data);
            assert(reg@ == spec_swap_removed(old(reg)@, idx as int));
            assert(old(reg)@.contains(id_data));
        }
    } else {
        proof {
            assert(reg@ =~= old(reg)@);
            if old(reg)@.contains(id_data) {
                let k = choose|k: int| 0 <= k < old(reg)@.len() && old(reg)@[k] == id_data;
                assert(old(reg)@[k] == id_data);
            }
        }
    }
    *is_empty = reg.screens.len() == 0;
}

/// What swap-removal of a unique entry does: the uniqueness invariants are
/// kept, the removed entry is gone, and every other entry stays.
proof fn lemma_swap_removed_facts(s: Seq<ScreenIdData>, idx: int, id_data: ScreenIdData)
    requires
        0 <= idx < s.len(),
        s[idx] == id_data,
        forall|i: int, j: int| 0 <= i < j < s.len() ==> #[trigger] s[i].0 != #[trigger] s[j].0,
        forall|i: int, j: int| 0 <= i < j < s.len() ==> #[trigger] s[i].1 != #[trigger] s[j].1,
    ensures
        forall|i: int, j: int|
            0 <= i < j < spec_swap_removed(s, idx).len() ==> #[trigger] spec_swap_removed(
                s,
                idx,
            )[i].0 != #[trigger] spec_swap_removed(s, idx)[j].0,
        forall|i: int, j: int|
            0 <= i < j < spec_swap_removed(s, idx).len() ==> #[trigger] spec_swap_removed(
                s,
                idx,
            )[i].1 != #[trigger] spec_swap_removed(s, idx)[j].1,
        !spec_swap_removed(s, idx).contains(id_data),
        forall|d: ScreenIdData|
            d != id_data ==> (spec_swap_removed(s, idx).contains(d) <==> s.contains(d)),
{
    let t = spec_swap_removed(s, idx);
    assert(t.len() == s.len() - 1);
    // Each position of the result holds an entry of the original, away from idx.
    assert forall|k: int| 0 <= k < t.len() implies exists|j: int|
        0 <= j < s.len() && j != idx && s[j] == #[trigger] t[k] by {
        if k == idx && idx < s.len() - 1 {
            assert(t[k] == s[s.len() - 1]);
        } else {
            assert(t[k] == s[k]);
        }
    }
    // Entries are pairwise distinct in the original, so the removed one is gone.
    assert forall|k: int| 0 <= k < t.len() implies t[k] != id_data by {
        let j = choose|j: int| 0 <= j < s.len() && j != idx && s[j] == t[k];
        lemma_entries_pairwise_distinct(s, j, idx);
    }
    // Uniqueness on both sides is kept.
    assert forall|i: int, j: int| 0 <= i < j < t.len() implies #[trigger] t[i].0 != #[trigger] t[j].0
        && t[i].1 != t[j].1 by {
        let a = if i == idx {
            s.len() - 1
        } else {
            i
        };
        let b = if j == idx {
            s.len() - 1
        } else {
            j
        };
        assert(t[i] == s[a]);
        assert(t[j] == s[b]);
        if a < b {
            assert(s[a].0 != s[b].0 && s[a].1 != s[b].1);
        } else {
            assert(s[b].0 != s[a].0 && s[b].1 != s[a].1);
        }
    }
    // Every other entry stays.
    assert forall|d: ScreenIdData| d != id_data implies (t.contains(d) <==> s.contains(d)) by {
        if t.contains(d) {
            let k = choose|k: int| 0 <= k < t.len() && t[k] == d;
            let j = choose|j: int| 0 <= j < s.len() && j != idx && s[j] == t[k];
            assert(s.contains(d));
        }
        if s.contains(d) {
            let k = choose|k: int| 0 <= k < s.len() && s[k] == d;
            if k == s.len() - 1 && idx < s.len() - 1 {
                assert(t[idx] == d);
            } else if k != idx {
                assert(t[k] == d);
            }
        }
    }
}

/// Two distinct positions of a registry sequence hold distinct entries.
proof fn lemma_entries_pairwise_distinct(s: Seq<ScreenIdData>, i: int, j: int)
    requires
        0 <= i < s.len(),
        0 <= j < s.len(),
        i != j,
        forall|a: int, b: int| 0 <= a < b < s.len() ==> #[trigger] s[a].0 != #[trigger] s[b].0,
    ensures
        s[i] != s[j],
{
    if i < j {
        assert(s[i].0 != s[j].0);
    } else {
        assert(s[j].0 != s[i].0);
    }
}

} // verus!
