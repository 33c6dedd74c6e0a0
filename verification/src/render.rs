//! Listing output: one text row per displayed entry. The `list` format is
//! `[n]* desc: cmd` (a space where the star would be for an unstarred
//! entry); the `listfav` format is `[n] desc: cmd`. The displayed number
//! counts only shown rows, starting at 1. An empty listing is replaced by a
//! dedicated message.

use crate::digits::dec_digits;
use crate::digits::u64_to_string;
use crate::entry::views_of;
use crate::entry::Entry;
use crate::entry::EntryView;
use crate::ops::favorites;
use crate::ops::spec_favorites;
use vstd::prelude::*;
use vstd::string::StringExecFns;

verus! {

/// One row of the `list` output, shown with display number `n`.
pub open spec fn spec_list_row(n: nat, e: EntryView) -> Seq<char> {
    "["@ + dec_digits(n) + "]"@ + (if e.fav {
        "*"@
    } else {
        " "@
    }) + " "@ + e.desc + ": "@ + e.cmd
}

/// The rows of the `list` output: every entry, or the starred ones only,
/// numbered in the order shown.
pub open spec fn spec_list_rows(s: Seq<EntryView>, favs_only: bool) -> Seq<Seq<char>>
    decreases s.len(),
{
    if s.len() == 0 {
        Seq::empty()
    } else {
        let rest = spec_list_rows(s.drop_last(), favs_only);
        if favs_only && !s.last().fav {
            rest
        } else {
            rest.push(spec_list_row(rest.len() + 1, s.last()))
        }
    }
}

/// One row of the `listfav` output.
pub open spec fn spec_listfav_row(n: nat, e: EntryView) -> Seq<char> {
    "["@ + dec_digits(n) + "] "@ + e.desc + ": "@ + e.cmd
}

/// The rows of the `listfav` output, over the favorites view.
pub open spec fn spec_listfav_rows(favs: Seq<EntryView>) -> Seq<Seq<char>>
    decreases favs.len(),
{
    if favs.len() == 0 {
        Seq::empty()
    } else {
        spec_listfav_rows(favs.drop_last()).push(spec_listfav_row(favs.len(), favs.last()))
    }
}

/// Without the favorites filter, every entry has a row.
pub proof fn lemma_list_rows_len(s: Seq<EntryView>)
    ensures
        spec_list_rows(s, false).len() == s.len(),
    decreases s.len(),
{
    if s.len() > 0 {
        lemma_list_rows_len(s.drop_last());
    }
}

/// The full listing shows every entry under its 1-based position.
pub proof fn lemma_list_rows_index(s: Seq<EntryView>, j: int)
    requires
        0 <= j < s.len(),
    ensures
        spec_list_rows(s, false).len() == s.len(),
        spec_list_rows(s, false)[j] == spec_list_row((j + 1) as nat, s[j]),
    decreases s.len(),
{
    lemma_list_rows_len(s);
    lemma_list_rows_len(s.drop_last());
    if j < s.len() - 1 {
        lemma_list_rows_index(s.drop_last(), j);
    }
}

/// Delete renumbers: after the entry at 0-based position `i` is removed,
/// the full listing has one row less; the entries before `i` keep their
/// display numbers, and each later entry moves up one position.
pub proof fn lemma_delete_renumbers(s: Seq<EntryView>, i: int)
    requires
        0 <= i < s.len(),
    ensures
        spec_list_rows(s.remove(i), false).len() == s.len() - 1,
        forall|j: int|
            0 <= j < i ==> #[trigger] spec_list_rows(s.remove(i), false)[j] == spec_list_row(
                (j + 1) as nat,
                s[j],
            ),
        forall|j: int|
            i <= j < s.len() - 1 ==> #[trigger] spec_list_rows(s.remove(i), false)[j]
                == spec_list_row((j + 1) as nat, s[j + 1]),
{
    let t = s.remove(i);
    lemma_list_rows_len(t);
    assert forall|j: int| 0 <= j < i implies #[trigger] spec_list_rows(t, false)[j]
        == spec_list_row((j + 1) as nat, s[j]) by {
        lemma_list_rows_index(t, j);
        assert(t[j] == s[j]);
    }
    assert forall|j: int| i <= j < s.len() - 1 implies #[trigger] spec_list_rows(t, false)[j]
        == spec_list_row((j + 1) as nat, s[j + 1]) by {
        lemma_list_rows_index(t, j);
        assert(t[j] == s[j + 1]);
    }
}

/// Add-then-list: appending an unstarred entry adds one row at the end of
/// the full listing, shown unstarred under the next display number, and
/// leaves the favorites view - so every favorite index - unchanged.
pub proof fn lemma_add_then_list(s: Seq<EntryView>, e: EntryView)
    requires
        !e.fav,
    ensures
        spec_list_rows(s.push(e), false) == spec_list_rows(s, false).push(
            spec_list_row(s.len() + 1, e),
        ),
        spec_list_row(s.len() + 1, e) == "["@ + dec_digits(s.len() + 1) + "]"@ + " "@ + " "@
            + e.desc + ": "@ + e.cmd,
        spec_favorites(s.push(e)) == spec_favorites(s),
{
    assert(s.push(e).drop_last() =~= s);
    assert(s.push(e).last() == e);
    lemma_list_rows_len(s);
}

/// Renders one `list` row.
fn render_list_row(n: u64, e: &Entry) -> (r: String)
    ensures
        r@ == spec_list_row(n as nat, e@),
{
    let mut r = String::from_str("[");
    r.append(u64_to_string(n).as_str());
    r.append("]");
    r.append(if e.fav { "*" } else { " " });
    r.append(" ");
    r.append(e.desc.as_str());
    r.append(": ");
    r.append(e.cmd.as_str());
    proof {
        assert(r@ =~= spec_list_row(n as nat, e@));
    }
    r
}

/// Renders one `listfav` row.
fn render_listfav_row(n: u64, e: &Entry) -> (r: String)
    ensures
        r@ == spec_listfav_row(n as nat, e@),
{
    let mut r = String::from_str("[");
    r.append(u64_to_string(n).as_str());
    r.append("] ");
    r.append(e.desc.as_str());
    r.append(": ");
    r.append(e.cmd.as_str());
    proof {
        assert(r@ =~= spec_listfav_row(n as nat, e@));
    }
    r
}

/// The rows of the `list` output for these entries.
pub fn list_rows(entries: &Vec<Entry>, favs_only: bool) -> (r: Vec<String>)
    ensures
        crate::string_views(r@) == spec_list_rows(views_of(entries@), favs_only),
{
    let ghost ev = views_of(entries@);
    let mut r: Vec<String> = Vec::new();
    let mut shown: u64 = 0;
    let mut i: usize = 0;
    while i < entries.len()
        invariant
            ev == views_of(entries@),
            i <= entries.len(),
            shown == r@.len(),
            shown <= i,
            crate::string_views(r@) == spec_list_rows(ev.take(i as int), favs_only),
        decreases entries.len() - i,
    {
        proof {
            assert(ev.take(i + 1).drop_last() =~= ev.take(i as int));
            assert(ev.take(i + 1).last() == ev[i as int]);
        }
        if favs_only && !entries[i].fav {
            proof {
                assert(crate::string_views(r@) =~= spec_list_rows(ev.take(i + 1), favs_only));
            }
        } else {
            let row = render_list_row(shown + 1, &entries[i]);
            r.push(row);
            shown = shown + 1;
            proof {
                assert(crate::string_views(r@) =~= crate::string_views(r@.drop_last()).push(
                    r@.last()@,
                ));
                assert(crate::string_views(r@) =~= spec_list_rows(ev.take(i + 1), favs_only));
            }
        }
        i = i + 1;
    }
    proof {
        assert(ev.take(entries@.len() as int) =~= ev);
    }
    r
}

/// The rows of the `listfav` output for these entries' favorites view.
pub fn listfav_rows(entries: &Vec<Entry>) -> (r: Vec<String>)
    ensures
        crate::string_views(r@) == spec_listfav_rows(spec_favorites(views_of(entries@))),
{
    let favs = favorites(entries);
    let ghost fv = views_of(favs@);
    let mut r: Vec<String> = Vec::new();
    let mut i: usize = 0;
    while i < favs.len()
        invariant
            fv == views_of(favs@),
            fv == spec_favorites(views_of(entries@)),
            i <= favs.len(),
            crate::string_views(r@) == spec_listfav_rows(fv.take(i as int)),
        decreases favs.len() - i,
    {
        proof {
            assert(fv.take(i + 1).drop_last() =~= fv.take(i as int));
            assert(fv.take(i + 1).last() == fv[i as int]);
        }
        let row = render_listfav_row((i as u64) + 1, &favs[i]);
        r.push(row);
        proof {
            assert(crate::string_views(r@) =~= crate::string_views(r@.drop_last()).push(
                r@.last()@,
            ));
            assert(crate::string_views(r@) =~= spec_listfav_rows(fv.take(i + 1)));
        }
        i = i + 1;
    }
    proof {
        assert(fv.take(favs@.len() as int) =~= fv);
    }
    r
}

} // verus!
