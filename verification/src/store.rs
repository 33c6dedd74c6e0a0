//! The ledger as a sequence of lines: decoding every line of the file and
//! silently dropping the malformed ones, and encoding a whole ledger back.
//!
//! Opening, reading and writing the file itself is the surrounding binary's
//! business; these functions work on the lines as plain values, so a missing
//! file is simply an empty line list.

use crate::entry::spec_decode;
use crate::entry::spec_encode;
use crate::entry::views_of;
use crate::string_views;
use crate::entry::Entry;
use crate::entry::EntryView;
use vstd::prelude::*;
use vstd::string::StringExecFns;

verus! {

/// The entries of a ledger's lines, in file order: each line that decodes
/// contributes its entry, every other line is dropped.
pub open spec fn decoded_entries(lines: Seq<Seq<char>>) -> Seq<EntryView>
    decreases lines.len(),
{
    if lines.len() == 0 {
        Seq::empty()
    } else {
        let rest = decoded_entries(lines.drop_last());
        match spec_decode(lines.last()) {
            Some(e) => rest.push(e),
            None => rest,
        }
    }
}

/// How many of the lines decode.
pub open spec fn decodable_count(lines: Seq<Seq<char>>) -> nat
    decreases lines.len(),
{
    if lines.len() == 0 {
        0
    } else {
        decodable_count(lines.drop_last()) + if spec_decode(lines.last()) is Some {
            1nat
        } else {
            0nat
        }
    }
}

/// Load tolerance: a ledger of well-formed and malformed lines loads exactly
/// one entry per well-formed line, in order; the malformed ones change
/// nothing.
pub proof fn lemma_load_tolerance(lines: Seq<Seq<char>>)
    ensures
        decoded_entries(lines).len() == decodable_count(lines),
    decreases lines.len(),
{
    if lines.len() > 0 {
        lemma_load_tolerance(lines.drop_last());
    }
}

/// Decodes every line of a ledger, dropping the malformed ones, in order.
pub fn load_from_lines(lines: &Vec<String>) -> (r: Vec<Entry>)
    ensures
        views_of(r@) == decoded_entries(string_views(lines@)),
{
    let ghost lv = string_views(lines@);
    let mut r: Vec<Entry> = Vec::new();
    let mut i: usize = 0;
    while i < lines.len()
        invariant
            lv == string_views(lines@),
            i <= lines.len(),
            views_of(r@) == decoded_entries(lv.take(i as int)),
        decreases lines.len() - i,
    {
        proof {
            assert(lv.take(i + 1).drop_last() =~= lv.take(i as int));
            assert(lv.take(i + 1).last() == lv[i as int]);
        }
        match Entry::from_line(lines[i].as_str()) {
            Some(e) => {
                r.push(e);
                proof {
                    assert(views_of(r@) =~= decoded_entries(lv.take(i + 1)));
                }
            },
            None => {
                proof {
                    assert(views_of(r@) =~= decoded_entries(lv.take(i + 1)));
                }
            },
        }
        i = i + 1;
    }
    proof {
        assert(lv.take(lines@.len() as int) =~= lv);
    }
    r
}

/// Encodes every entry as its line, in order.
pub fn encode_lines(entries: &Vec<Entry>) -> (r: Vec<String>)
    ensures
        r@.len() == entries@.len(),
        forall|i: int| 0 <= i < r@.len() ==> (#[trigger] r@[i])@ == spec_encode(entries@[i]@),
{
    let mut r: Vec<String> = Vec::new();
    let mut i: usize = 0;
    while i < entries.len()
        invariant
            i <= entries.len(),
            r@.len() == i,
            forall|j: int| 0 <= j < i ==> (#[trigger] r@[j])@ == spec_encode(entries@[j]@),
        decreases entries.len() - i,
    {
        r.push(entries[i].to_line());
        i = i + 1;
    }
    r
}

} // verus!
