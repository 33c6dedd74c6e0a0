//! The stored record: one labelled shell command, and its one-line text
//! encoding `id|desc|cmd|fav` (with `fav` written `1` or `0`).
//!
//! A line decodes only if it has at least three `|` separators and its first
//! field is an unsigned decimal integer; everything after the third `|` is the
//! favorite field, which counts as set exactly when it is the single
//! character `1`. Labels or commands containing `|` are an accepted
//! limitation: they corrupt the line's parse, and the round-trip law below is
//! stated without them.

use crate::digits::dec_digits;
use crate::digits::digits_val;
use crate::digits::lemma_dec_digits_shape;
use crate::digits::lemma_digits_val_dec_digits;
use crate::digits::parse_u64;
use crate::digits::spec_parse_u64;
use crate::digits::u64_to_string;
use vstd::prelude::*;
use vstd::string::StrSliceExecFns;
use vstd::string::StringExecFns;

verus! {

/// One stored command.
#[derive(Debug)]
pub struct Entry {
    /// Creation time in seconds since the epoch; a stored identifier only,
    /// never a lookup key.
    pub id: u64,
    /// The label shown in listings.
    pub desc: String,
    /// The shell command text.
    pub cmd: String,
    /// Whether the entry is starred.
    pub fav: bool,
}

/// The mathematical image of an [`Entry`].
pub ghost struct EntryView {
    pub id: nat,
    pub desc: Seq<char>,
    pub cmd: Seq<char>,
    pub fav: bool,
}

impl View for Entry {
    type V = EntryView;

    open spec fn view(&self) -> EntryView {
        EntryView { id: self.id as nat, desc: self.desc@, cmd: self.cmd@, fav: self.fav }
    }
}

impl Clone for Entry {
    fn clone(&self) -> (r: Self)
        ensures
            r@ == self@,
    {
        Entry { id: self.id, desc: self.desc.clone(), cmd: self.cmd.clone(), fav: self.fav }
    }
}

/// The sequence of views of a sequence of entries.
pub open spec fn views_of(s: Seq<Entry>) -> Seq<EntryView> {
    s.map_values(|e: Entry| e@)
}

/// The encoded line of an entry: `id|desc|cmd|fav`.
pub open spec fn spec_encode(e: EntryView) -> Seq<char> {
    dec_digits(e.id) + seq!['|'] + e.desc + seq!['|'] + e.cmd + seq!['|'] + (if e.fav {
        seq!['1']
    } else {
        seq!['0']
    })
}

/// The position of the first `'|'` at or after `i`, if any.
pub open spec fn bar_pos_from(s: Seq<char>, i: int) -> Option<int>
    decreases s.len() - i,
{
    if i < 0 || i >= s.len() {
        None
    } else if s[i] == '|' {
        Some(i)
    } else {
        bar_pos_from(s, i + 1)
    }
}

/// The entry a line stands for, if it decodes: the line is split at its
/// first three `|`s, the first field must parse as a `u64`, and the fourth
/// field (the whole rest of the line) sets the favorite flag exactly when it
/// is `1`.
pub open spec fn spec_decode(s: Seq<char>) -> Option<EntryView> {
    match bar_pos_from(s, 0) {
        None => None,
        Some(i) => match bar_pos_from(s, i + 1) {
            None => None,
            Some(j) => match bar_pos_from(s, j + 1) {
                None => None,
                Some(k) => match spec_parse_u64(s.subrange(0, i)) {
                    None => None,
                    Some(v) => Some(
                        EntryView {
                            id: v as nat,
                            desc: s.subrange(i + 1, j),
                            cmd: s.subrange(j + 1, k),
                            fav: s.subrange(k + 1, s.len() as int) == seq!['1'],
                        },
                    ),
                },
            },
        },
    }
}

/// The view of an optional entry.
pub open spec fn opt_view(r: Option<Entry>) -> Option<EntryView> {
    match r {
        Some(e) => Some(e@),
        None => None,
    }
}

/// The first `'|'` is found where the first `'|'` stands.
proof fn lemma_bar_pos_first(s: Seq<char>, i: int, p: int)
    requires
        0 <= i <= p < s.len(),
        s[p] == '|',
        forall|m: int| i <= m < p ==> (#[trigger] s[m]) != '|',
    ensures
        bar_pos_from(s, i) == Some(p),
    decreases p - i,
{
    if i < p {
        lemma_bar_pos_first(s, i + 1, p);
    }
}

/// Round trip: an entry whose label and command contain no `'|'` decodes
/// from its own encoding unchanged.
pub proof fn lemma_encode_decode(e: EntryView)
    requires
        e.id <= u64::MAX,
        forall|i: int| 0 <= i < e.desc.len() ==> (#[trigger] e.desc[i]) != '|',
        forall|i: int| 0 <= i < e.cmd.len() ==> (#[trigger] e.cmd[i]) != '|',
    ensures
        spec_decode(spec_encode(e)) == Some(e),
{
    let d = dec_digits(e.id);
    let favc: Seq<char> = if e.fav {
        seq!['1']
    } else {
        seq!['0']
    };
    let s = spec_encode(e);
    lemma_dec_digits_shape(e.id);
    let b1 = d.len() as int;
    let b2 = b1 + 1 + e.desc.len();
    let b3 = b2 + 1 + e.cmd.len();
    assert(s.len() == b3 + 2);
    assert forall|m: int| 0 <= m < b1 implies (#[trigger] s[m]) == d[m] by {}
    assert(s[b1] == '|');
    assert forall|m: int| b1 < m < b2 implies (#[trigger] s[m]) == e.desc[m - b1 - 1] by {}
    assert(s[b2] == '|');
    assert forall|m: int| b2 < m < b3 implies (#[trigger] s[m]) == e.cmd[m - b2 - 1] by {}
    assert(s[b3] == '|');
    assert(s[b3 + 1] == favc[0]);
    lemma_bar_pos_first(s, 0, b1);
    lemma_bar_pos_first(s, b1 + 1, b2);
    lemma_bar_pos_first(s, b2 + 1, b3);
    assert(s.subrange(0, b1) =~= d);
    assert(s.subrange(b1 + 1, b2) =~= e.desc);
    assert(s.subrange(b2 + 1, b3) =~= e.cmd);
    assert(s.subrange(b3 + 1, s.len() as int) =~= favc);
    lemma_digits_val_dec_digits(e.id);
    assert(d[0] != '+');
    assert(spec_parse_u64(d) == Some(digits_val(d) as u64));
    if e.fav {
        assert(favc == seq!['1']);
    } else {
        assert(favc[0] == '0');
        assert(favc != seq!['1']);
    }
    assert(spec_decode(s) == Some(e));
}

/// The first `'|'` at or after `from`, by linear scan.
fn find_bar(s: &str, from: usize) -> (r: Option<usize>)
    requires
        from <= s@.len(),
    ensures
        match r {
            Some(p) => from <= p < s@.len() && bar_pos_from(s@, from as int) == Some(p as int),
            None => bar_pos_from(s@, from as int) is None,
        },
{
    let n = s.unicode_len();
    let mut i: usize = from;
    while i < n
        invariant
            n == s@.len(),
            from <= i <= n,
            bar_pos_from(s@, from as int) == bar_pos_from(s@, i as int),
        decreases n - i,
    {
        if s.get_char(i) == '|' {
            return Some(i);
        }
        i = i + 1;
    }
    None
}

impl Entry {
    /// The one-line encoding of this entry.
    pub fn to_line(&self) -> (r: String)
        ensures
            r@ == spec_encode(self@),
    {
        proof {
            reveal_strlit("|");
            reveal_strlit("1");
            reveal_strlit("0");
        }
        let mut s = u64_to_string(self.id);
        s.append("|");
        s.append(self.desc.as_str());
        s.append("|");
        s.append(self.cmd.as_str());
        s.append("|");
        s.append(if self.fav { "1" } else { "0" });
        proof {
            assert(s@ =~= spec_encode(self@));
        }
        s
    }

    /// The entry a line stands for, if any, as [`spec_decode`] states it.
    pub fn from_line(line: &str) -> (r: Option<Entry>)
        ensures
            opt_view(r) == spec_decode(line@),
    {
        let n = line.unicode_len();
        let i = match find_bar(line, 0) {
            Some(i) => i,
            None => {
                return None;
            },
        };
        let j = match find_bar(line, i + 1) {
            Some(j) => j,
            None => {
                return None;
            },
        };
        let k = match find_bar(line, j + 1) {
            Some(k) => k,
            None => {
                return None;
            },
        };
        let id_part = line.substring_char(0, i);
        let id = match parse_u64(id_part) {
            Some(v) => v,
            None => {
                return None;
            },
        };
        let desc = line.substring_char(i + 1, j).to_owned();
        let cmd = line.substring_char(j + 1, k).to_owned();
        let fav_part = line.substring_char(k + 1, n);
        let fav = fav_part.unicode_len() == 1 && fav_part.get_char(0) == '1';
        proof {
            if fav_part@ == seq!['1'] {
                assert(fav_part@.len() == 1 && fav_part@[0] == '1');
            }
            if fav_part@.len() == 1 && fav_part@[0] == '1' {
                assert(fav_part@ =~= seq!['1']);
            }
        }
        Some(Entry { id, desc, cmd, fav })
    }
}

} // verus!
