//! Operations on the loaded ledger: the favorites view, flipping the
//! favorite flag of an entry, and deleting an entry. Indices are 1-based
//! positions, as the user sees them; an index outside `[1, len]` changes
//! nothing.

use crate::entry::views_of;
use crate::entry::Entry;
use crate::entry::EntryView;
use vstd::prelude::*;

verus! {

/// The favorites view: the starred entries, in ledger order.
pub open spec fn spec_favorites(s: Seq<EntryView>) -> Seq<EntryView>
    decreases s.len(),
{
    if s.len() == 0 {
        Seq::empty()
    } else {
        let rest = spec_favorites(s.drop_last());
        if s.last().fav {
            rest.push(s.last())
        } else {
            rest
        }
    }
}

/// The view `e` takes after its favorite flag is set to `value`.
pub open spec fn with_fav(e: EntryView, value: bool) -> EntryView {
    EntryView { id: e.id, desc: e.desc, cmd: e.cmd, fav: value }
}

/// Favorite-index isolation: when the first entry of the ledger is not
/// starred and the second is, the second entry is the first of the
/// favorites view, whatever the rest of the ledger holds.
pub proof fn lemma_first_favorite(s: Seq<EntryView>)
    requires
        s.len() >= 2,
        !s[0].fav,
        s[1].fav,
    ensures
        spec_favorites(s).len() >= 1,
        spec_favorites(s)[0] == s[1],
    decreases s.len(),
{
    if s.len() == 2 {
        assert(s.drop_last().drop_last() =~= Seq::<EntryView>::empty());
        assert(spec_favorites(s.drop_last().drop_last()) =~= Seq::<EntryView>::empty());
        assert(s.drop_last().last() == s[0]);
        assert(spec_favorites(s.drop_last()) =~= Seq::<EntryView>::empty());
        assert(s.last() == s[1]);
        assert(spec_favorites(s) =~= seq![s[1]]);
    } else {
        lemma_first_favorite(s.drop_last());
    }
}

/// The favorites view of the entries, as clones.
pub fn favorites(entries: &Vec<Entry>) -> (r: Vec<Entry>)
    ensures
        views_of(r@) == spec_favorites(views_of(entries@)),
{
    let ghost ev = views_of(entries@);
    let mut r: Vec<Entry> = Vec::new();
    let mut i: usize = 0;
    while i < entries.len()
        invariant
            ev == views_of(entries@),
            i <= entries.len(),
            views_of(r@) == spec_favorites(ev.take(i as int)),
        decreases entries.len() - i,
    {
        proof {
            assert(ev.take(i + 1).drop_last() =~= ev.take(i as int));
            assert(ev.take(i + 1).last() == ev[i as int]);
        }
        if entries[i].fav {
            r.push(entries[i].clone());
            proof {
                assert(views_of(r@) =~= spec_favorites(ev.take(i + 1)));
            }
        } else {
            proof {
                assert(views_of(r@) =~= spec_favorites(ev.take(i + 1)));
            }
        }
        i = i + 1;
    }
    proof {
        assert(ev.take(entries@.len() as int) =~= ev);
    }
    r
}

/// Sets the favorite flag of the entry at 1-based index `idx` to `value`;
/// an index outside `[1, len]` is refused and the ledger is untouched.
pub fn set_fav(entries: &mut Vec<Entry>, idx: usize, value: bool) -> (ok: bool)
    ensures
        ok == (1 <= idx <= old(entries)@.len()),
        ok ==> views_of(final(entries)@) == views_of(old(entries)@).update(
            idx - 1,
            with_fav(old(entries)@[idx - 1]@, value),
        ),
        !ok ==> final(entries)@ == old(entries)@,
{
    if idx == 0 || idx > entries.len() {
        return false;
    }
    let mut e = entries.remove(idx - 1);
    e.fav = value;
    entries.insert(idx - 1, e);
    proof {
        assert(views_of(final(entries)@) =~= views_of(old(entries)@).update(
            idx - 1,
            with_fav(old(entries)@[idx - 1]@, value),
        ));
    }
    true
}

/// Removes the entry at 1-based index `idx` and returns it; an index
/// outside `[1, len]` is refused and the ledger is untouched. What remains
/// keeps its order, so the later entries each move up one position.
pub fn delete_at(entries: &mut Vec<Entry>, idx: usize) -> (r: Option<Entry>)
    ensures
        (r is Some) == (1 <= idx <= old(entries)@.len()),
        r matches Some(e) ==> e@ == old(entries)@[idx - 1]@ && final(entries)@ == old(
            entries,
        )@.remove(idx - 1),
        r is None ==> final(entries)@ == old(entries)@,
{
    if idx == 0 || idx > entries.len() {
        return None;
    }
    let e = entries.remove(idx - 1);
    Some(e)
}

} // verus!
