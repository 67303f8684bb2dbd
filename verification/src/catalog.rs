//! Removing catalog entries without corrupting selections.
//!
//! Selections reference catalog entries by position, so removing an entry
//! shifts every later entry down by one.  A removal must therefore be paired
//! with retargeting every selection that references that kind of entry:
//! references to the removed position are dropped, references past it move
//! down one.  The lemmas at the end state that this pairing is sound: every
//! remaining reference resolves to the same entry it resolved to before.

use crate::components::{
    resolved_batteries, resolved_inverters, resolved_panels, Battery, Inverter, Library, Panel,
};
use vstd::prelude::*;

verus! {

/// A selection after the catalog entry at `pos` was removed: references to
/// `pos` are dropped, references past it move down one position, references
/// before it stay.
pub open spec fn retarget(sel: Seq<usize>, pos: usize) -> Seq<usize>
    decreases sel.len(),
{
    if sel.len() == 0 {
        Seq::empty()
    } else {
        let rest = retarget(sel.drop_last(), pos);
        if sel.last() == pos {
            rest
        } else if sel.last() > pos {
            rest.push((sel.last() - 1) as usize)
        } else {
            rest.push(sel.last())
        }
    }
}

/// A selection with every reference to `pos` dropped and all others kept as
/// they are.
pub open spec fn drop_refs(sel: Seq<usize>, pos: usize) -> Seq<usize>
    decreases sel.len(),
{
    if sel.len() == 0 {
        Seq::empty()
    } else {
        let rest = drop_refs(sel.drop_last(), pos);
        if sel.last() == pos {
            rest
        } else {
            rest.push(sel.last())
        }
    }
}

/// Extending a selection prefix by one position extends its retargeting by
/// that position's image, or by nothing for a reference to `pos`.
proof fn lemma_retarget_step(sel: Seq<usize>, pos: usize, i: int)
    requires
        0 <= i < sel.len(),
    ensures
        retarget(sel.take(i + 1), pos) == (if sel[i] == pos {
            retarget(sel.take(i), pos)
        } else if sel[i] > pos {
            retarget(sel.take(i), pos).push((sel[i] - 1) as usize)
        } else {
            retarget(sel.take(i), pos).push(sel[i])
        }),
{
    assert(sel.take(i + 1).drop_last() =~= sel.take(i));
    assert(sel.take(i + 1).last() == sel[i]);
}

/// Rewrites a selection after the catalog entry at `removed_pos` was
/// removed from the catalog sequence it references.
pub fn retarget_selection(sel: &mut Vec<usize>, removed_pos: usize)
    ensures
        final(sel)@ == retarget(old(sel)@, removed_pos),
{
    let ghost orig = sel@;
    let mut out: Vec<usize> = Vec::new();
    let mut i: usize = 0;
    while i < sel.len()
        invariant
            0 <= i <= orig.len(),
            sel@ == orig,
            out@ == retarget(orig.take(i as int), removed_pos),
        decreases orig.len() - i,
    {
        let v = sel[i];
        proof {
            lemma_retarget_step(orig, removed_pos, i as int);
        }
        if v > removed_pos {
            out.push(v - 1);
        } else if v < removed_pos {
            out.push(v);
        }
        i += 1;
    }
    proof {
        assert(orig.take(orig.len() as int) =~= orig);
    }
    *sel = out;
}

impl Library {
    /// Removes the panel at `pos` and hands it back.  Pair with
    /// `retarget_selection` on every selection of panels.
    pub fn remove_panel(&mut self, pos: usize) -> (p: Panel)
        requires
            pos < old(self).panels@.len(),
        ensures
            final(self).panels@ == old(self).panels@.remove(pos as int),
            final(self).batteries@ == old(self).batteries@,
            final(self).inverters@ == old(self).inverters@,
            p == old(self).panels@[pos as int],
    {
        self.panels.remove(pos)
    }

    /// Removes the battery at `pos` and hands it back.  Pair with
    /// `retarget_selection` on every selection of batteries.
    pub fn remove_battery(&mut self, pos: usize) -> (b: Battery)
        requires
            pos < old(self).batteries@.len(),
        ensures
            final(self).panels@ == old(self).panels@,
            final(self).batteries@ == old(self).batteries@.remove(pos as int),
            final(self).inverters@ == old(self).inverters@,
            b == old(self).batteries@[pos as int],
    {
        self.batteries.remove(pos)
    }

    /// Removes the inverter at `pos` and hands it back.  Pair with
    /// `retarget_selection` on every selection of inverters.
    pub fn remove_inverter(&mut self, pos: usize) -> (v: Inverter)
        requires
            pos < old(self).inverters@.len(),
        ensures
            final(self).panels@ == old(self).panels@,
            final(self).batteries@ == old(self).batteries@,
            final(self).inverters@ == old(self).inverters@.remove(pos as int),
            v == old(self).inverters@[pos as int],
    {
        self.inverters.remove(pos)
    }
}

/// Removing a catalog panel and retargeting a selection in step never
/// repoints a reference at a different panel: the retargeted selection
/// resolves, against the shrunken catalog, to exactly the panels the old
/// selection resolved to, minus the references to the removed entry.
pub proof fn lemma_panel_removal_preserves_resolution(
    sel: Seq<usize>,
    cat: Seq<Panel>,
    pos: usize,
)
    requires
        pos < cat.len(),
    ensures
        resolved_panels(retarget(sel, pos), cat.remove(pos as int)) == resolved_panels(
            drop_refs(sel, pos),
            cat,
        ),
    decreases sel.len(),
{
    cat.remove_ensures(pos as int);
    if sel.len() > 0 {
        lemma_panel_removal_preserves_resolution(sel.drop_last(), cat, pos);
        let l = sel.last();
        let r1 = retarget(sel.drop_last(), pos);
        let r2 = drop_refs(sel.drop_last(), pos);
        if l != pos {
            assert(r2.push(l).drop_last() =~= r2);
            assert(r2.push(l).last() == l);
            if l > pos {
                let m = (l - 1) as usize;
                assert(r1.push(m).drop_last() =~= r1);
                assert(r1.push(m).last() == m);
            } else {
                assert(r1.push(l).drop_last() =~= r1);
                assert(r1.push(l).last() == l);
            }
        }
    }
}

/// The battery counterpart of `lemma_panel_removal_preserves_resolution`.
pub proof fn lemma_battery_removal_preserves_resolution(
    sel: Seq<usize>,
    cat: Seq<Battery>,
    pos: usize,
)
    requires
        pos < cat.len(),
    ensures
        resolved_batteries(retarget(sel, pos), cat.remove(pos as int)) == resolved_batteries(
            drop_refs(sel, pos),
            cat,
        ),
    decreases sel.len(),
{
    cat.remove_ensures(pos as int);
    if sel.len() > 0 {
        lemma_battery_removal_preserves_resolution(sel.drop_last(), cat, pos);
        let l = sel.last();
        let r1 = retarget(sel.drop_last(), pos);
        let r2 = drop_refs(sel.drop_last(), pos);
        if l != pos {
            assert(r2.push(l).drop_last() =~= r2);
            assert(r2.push(l).last() == l);
            if l > pos {
                let m = (l - 1) as usize;
                assert(r1.push(m).drop_last() =~= r1);
                assert(r1.push(m).last() == m);
            } else {
                assert(r1.push(l).drop_last() =~= r1);
                assert(r1.push(l).last() == l);
            }
        }
    }
}

/// The inverter counterpart of `lemma_panel_removal_preserves_resolution`.
pub proof fn lemma_inverter_removal_preserves_resolution(
    sel: Seq<usize>,
    cat: Seq<Inverter>,
    pos: usize,
)
    requires
        pos < cat.len(),
    ensures
        resolved_inverters(retarget(sel, pos), cat.remove(pos as int)) == resolved_inverters(
            drop_refs(sel, pos),
            cat,
        ),
    decreases sel.len(),
{
    cat.remove_ensures(pos as int);
    if sel.len() > 0 {
        lemma_inverter_removal_preserves_resolution(sel.drop_last(), cat, pos);
        let l = sel.last();
        let r1 = retarget(sel.drop_last(), pos);
        let r2 = drop_refs(sel.drop_last(), pos);
        if l != pos {
            assert(r2.push(l).drop_last() =~= r2);
            assert(r2.push(l).last() == l);
            if l > pos {
                let m = (l - 1) as usize;
                assert(r1.push(m).drop_last() =~= r1);
                assert(r1.push(m).last() == m);
            } else {
                assert(r1.push(l).drop_last() =~= r1);
                assert(r1.push(l).last() == l);
            }
        }
    }
}

} // verus!
