//! Restoring a saved roster: which saved entries are rebuilt on top of a
//! bundled creature (so they get its decoded sprite back) and which are
//! rebuilt from the saved data alone.
//!
//! Bundled creatures are looked up by name and each can be claimed once:
//! the first saved entry with a bundled creature's name claims it, whether
//! or not that entry then uses it.

use vstd::prelude::*;

verus! {

/// One saved roster entry, as far as restoring it needs: the creature's
/// name, and whether it carries its own generated sprite.
#[derive(Clone, Debug)]
pub struct SavedEntry {
    pub name: String,
    pub generated: bool,
}

/// How one saved entry is restored.
#[derive(Clone, Copy, Debug, PartialEq, Eq, Structural)]
pub enum Hydration {
    /// Start from the bundled creature at this index and apply the saved
    /// data to it.
    Bundled(usize),
    /// Rebuild the creature from the saved data alone.
    Saved,
}

/// The index of the last bundled creature named `name`, or `-1`.
pub open spec fn last_index_of(bundled: Seq<Seq<char>>, name: Seq<char>) -> int
    decreases bundled.len(),
{
    if bundled.len() == 0 {
        -1
    } else if bundled.last() == name {
        bundled.len() - 1
    } else {
        last_index_of(bundled.drop_last(), name)
    }
}

/// Whether an entry before position `i` has the same name as entry `i`.
pub open spec fn named_earlier(entries: Seq<SavedEntry>, i: int) -> bool {
    exists|k: int| 0 <= k < i && (#[trigger] entries[k]).name@ == entries[i].name@
}

/// How entry `i` is restored: on top of the bundled creature with its name
/// when there is one, no earlier entry claimed it, and the entry has no
/// generated sprite of its own; from the saved data otherwise.
pub open spec fn hydration_spec(entries: Seq<SavedEntry>, bundled: Seq<Seq<char>>, i: int) -> Hydration {
    let j = last_index_of(bundled, entries[i].name@);
    if !entries[i].generated && j >= 0 && !named_earlier(entries, i) {
        Hydration::Bundled(j as usize)
    } else {
        Hydration::Saved
    }
}

proof fn lemma_last_index_of(bundled: Seq<Seq<char>>, name: Seq<char>)
    ensures
        -1 <= last_index_of(bundled, name) < bundled.len(),
        last_index_of(bundled, name) >= 0 ==> bundled[last_index_of(bundled, name)] == name,
        last_index_of(bundled, name) == -1 ==> forall|j: int| 0 <= j < bundled.len() ==> bundled[j] != name,
    decreases bundled.len(),
{
    if bundled.len() > 0 {
        lemma_last_index_of(bundled.drop_last(), name);
        if bundled.last() != name {
            assert forall|j: int| 0 <= j < bundled.len() && last_index_of(bundled, name) == -1 implies bundled[j] != name by {
                if j < bundled.len() - 1 {
                    assert(bundled.drop_last()[j] == bundled[j]);
                }
            }
        }
    }
}

/// The restore plan for a saved roster: one `Hydration` per saved entry,
/// in order (see `hydration_spec`).
pub fn hydration_plan(entries: &[SavedEntry], bundled: &[String]) -> (r: Vec<Hydration>)
    ensures
        r@.len() == entries@.len(),
        forall|i: int| 0 <= i < entries@.len() ==> #[trigger] r@[i] == hydration_spec(
            entries@,
            bundled@.map_values(|s: String| s@),
            i,
        ),
{
    let ghost names = bundled@.map_values(|s: String| s@);
    let mut out: Vec<Hydration> = Vec::new();
    let n = entries.len();
    for i in 0..n
        invariant
            n == entries@.len(),
            names == bundled@.map_values(|s: String| s@),
            out@.len() == i,
            forall|k: int| 0 <= k < i ==> #[trigger] out@[k] == hydration_spec(entries@, names, k),
    {
        let entry = &entries[i];
        let mut earlier = false;
        for k in 0..i
            invariant
                i < entries@.len(),
                entry == &entries@[i as int],
                earlier == exists|k2: int| 0 <= k2 < k && (#[trigger] entries@[k2]).name@ == entries@[i as int].name@,
        {
            if entries[k].name == entry.name {
                earlier = true;
            }
        }
        let mut found: Option<usize> = None;
        let m = bundled.len();
        for j in 0..m
            invariant
                m == bundled@.len(),
                names == bundled@.map_values(|s: String| s@),
                i < entries@.len(),
                entry == &entries@[i as int],
                match found {
                    Some(x) => last_index_of(names.take(j as int), entry.name@) == x,
                    None => last_index_of(names.take(j as int), entry.name@) == -1,
                },
        {
            proof {
                assert(names.take(j + 1).drop_last() =~= names.take(j as int));
            }
            if bundled[j] == entry.name {
                found = Some(j);
            }
        }
        proof {
            assert(names.take(m as int) =~= names);
        }
        let h = match found {
            Some(x) => if !entry.generated && !earlier { Hydration::Bundled(x) } else { Hydration::Saved },
            None => Hydration::Saved,
        };
        out.push(h);
    }
    out
}

/// A bundled creature is used for at most one saved entry, and only for an
/// entry with its name.
pub proof fn lemma_bundled_claimed_once(entries: Seq<SavedEntry>, bundled: Seq<Seq<char>>, i1: int, i2: int)
    requires
        0 <= i1 < i2 < entries.len(),
        bundled.len() <= usize::MAX,
    ensures
        hydration_spec(entries, bundled, i1) matches Hydration::Bundled(j) ==> 0 <= j < bundled.len()
            && bundled[j as int] == entries[i1].name@,
        hydration_spec(entries, bundled, i1) matches Hydration::Bundled(j1)
            ==> !(hydration_spec(entries, bundled, i2) matches Hydration::Bundled(j2) && j1 == j2),
{
    lemma_last_index_of(bundled, entries[i1].name@);
    lemma_last_index_of(bundled, entries[i2].name@);
    let l1 = last_index_of(bundled, entries[i1].name@);
    let l2 = last_index_of(bundled, entries[i2].name@);
    assert(l1 >= 0 ==> (l1 as usize) as int == l1);
    assert(l2 >= 0 ==> (l2 as usize) as int == l2);
    if let Hydration::Bundled(j1) = hydration_spec(entries, bundled, i1) {
        if let Hydration::Bundled(j2) = hydration_spec(entries, bundled, i2) {
            if j1 == j2 {
                assert(entries[i1].name@ == entries[i2].name@);
                assert(named_earlier(entries, i2));
            }
        }
    }
}

} // verus!
