//! One step function per user-facing operation. Each takes the arguments
//! after the command word and the loaded ledger, and returns what to show
//! and what to persist; the surrounding binary does the printing, the file
//! rewrite and the shell spawn. `Err` always means: write the message to the
//! error stream and exit 1.

use crate::args::add_scan;
use crate::args::join_spaces;
use crate::args::parse_add_args;
use crate::args::spec_add_desc;
use crate::digits::dec_digits;
use crate::digits::parse_index;
use crate::digits::spec_parse_index;
use crate::digits::u64_to_string;
use crate::entry::views_of;
use crate::entry::Entry;
use crate::entry::EntryView;
use crate::ops::delete_at;
use crate::ops::favorites;
use crate::ops::set_fav;
use crate::ops::spec_favorites;
use crate::ops::with_fav;
use crate::render::list_rows;
use crate::render::listfav_rows;
use crate::render::spec_list_rows;
use crate::render::spec_listfav_rows;
use crate::string_views;
use vstd::prelude::*;
use vstd::string::StringExecFns;

verus! {

/// A command the binary is to hand to the shell, with the line announcing
/// it first.
#[derive(Debug)]
pub struct RunPlan {
    pub announce: String,
    pub command: String,
}

/// The add step: `Err` carries a usage error; `Ok` carries the entry to
/// append, stamped with `now` (seconds since the epoch) and unstarred.
pub fn step_add(args: &Vec<String>, now: u64) -> (r: Result<Entry, String>)
    ensures
        args@.len() == 0 ==> (r matches Err(m) && m@ == "Usage: bank add [-L <label>] <cmd>"@),
        args@.len() > 0 && add_scan(string_views(args@)).parts.len() == 0 ==> (r matches Err(m)
            && m@ == "No command specified"@),
        add_scan(string_views(args@)).parts.len() > 0 ==> (r matches Ok(e) && e@ == (EntryView {
            id: now as nat,
            desc: spec_add_desc(string_views(args@)),
            cmd: join_spaces(add_scan(string_views(args@)).parts),
            fav: false,
        })),
{
    match parse_add_args(args) {
        Err(m) => Err(m),
        Ok((desc, cmd)) => Ok(Entry { id: now, desc, cmd, fav: false }),
    }
}

/// The list step: the rows of the listing, the whole ledger or the starred
/// entries only when the first argument is `fav`; a listing with no rows
/// becomes the empty-state message. Always exit 0.
pub fn step_list(args: &Vec<String>, entries: &Vec<Entry>) -> (r: Vec<String>)
    ensures
        ({
            let favs_only = args@.len() > 0 && args@[0]@ == "fav"@;
            let rows = spec_list_rows(views_of(entries@), favs_only);
            if rows.len() == 0 {
                r@.len() == 1 && r@[0]@ == "No commands stored yet."@
            } else {
                string_views(r@) == rows
            }
        }),
{
    let favs_only = if args.len() > 0 {
        args[0].eq(&String::from_str("fav"))
    } else {
        false
    };
    let rows = list_rows(entries, favs_only);
    if rows.len() == 0 {
        let mut r: Vec<String> = Vec::new();
        r.push(String::from_str("No commands stored yet."));
        r
    } else {
        rows
    }
}

/// The listfav step: the rows of the favorites listing, or its own
/// empty-state message. Always exit 0.
pub fn step_listfav(entries: &Vec<Entry>) -> (r: Vec<String>)
    ensures
        ({
            let rows = spec_listfav_rows(spec_favorites(views_of(entries@)));
            if rows.len() == 0 {
                r@.len() == 1 && r@[0]@ == "No favorite commands stored yet."@
            } else {
                string_views(r@) == rows
            }
        }),
{
    let rows = listfav_rows(entries);
    if rows.len() == 0 {
        let mut r: Vec<String> = Vec::new();
        r.push(String::from_str("No favorite commands stored yet."));
        r
    } else {
        rows
    }
}

/// The fav step: stars the entry at the given 1-based index of the full
/// ledger. `Ok` carries the success message and the ledger is to be
/// rewritten; on any `Err` the ledger is untouched.
pub fn step_fav(args: &Vec<String>, entries: &mut Vec<Entry>) -> (r: Result<String, String>)
    ensures
        args@.len() == 0 ==> (r matches Err(m) && m@ == "Usage: bank fav <index>"@),
        args@.len() > 0 && spec_parse_index(args@[0]@) is None ==> (r matches Err(m) && m@
            == "Invalid index provided."@),
        args@.len() > 0 && spec_parse_index(args@[0]@) is Some && !(1 <= spec_parse_index(
            args@[0]@,
        ).unwrap() <= old(entries)@.len()) ==> (r matches Err(m) && m@ == "Index out of range."@),
        r is Err ==> final(entries)@ == old(entries)@,
        args@.len() > 0 && spec_parse_index(args@[0]@) is Some && 1 <= spec_parse_index(
            args@[0]@,
        ).unwrap() <= old(entries)@.len() ==> (r matches Ok(m) && m@ == "Command at index "@
            + dec_digits(spec_parse_index(args@[0]@).unwrap() as nat) + " marked as favorite."@
            && views_of(final(entries)@) == views_of(old(entries)@).update(
            spec_parse_index(args@[0]@).unwrap() - 1,
            with_fav(old(entries)@[spec_parse_index(args@[0]@).unwrap() - 1]@, true),
        )),
{
    if args.len() == 0 {
        return Err(String::from_str("Usage: bank fav <index>"));
    }
    let idx = match parse_index(args[0].as_str()) {
        Some(i) => i,
        None => {
            return Err(String::from_str("Invalid index provided."));
        },
    };
    if !set_fav(entries, idx, true) {
        return Err(String::from_str("Index out of range."));
    }
    let mut m = String::from_str("Command at index ");
    m.append(u64_to_string(idx as u64).as_str());
    m.append(" marked as favorite.");
    Ok(m)
}

/// The unfav step: unstars the entry at the given 1-based index of the
/// full ledger; otherwise as the fav step.
pub fn step_unfav(args: &Vec<String>, entries: &mut Vec<Entry>) -> (r: Result<String, String>)
    ensures
        args@.len() == 0 ==> (r matches Err(m) && m@ == "Usage: bank unfav <index>"@),
        args@.len() > 0 && spec_parse_index(args@[0]@) is None ==> (r matches Err(m) && m@
            == "Invalid index provided."@),
        args@.len() > 0 && spec_parse_index(args@[0]@) is Some && !(1 <= spec_parse_index(
            args@[0]@,
        ).unwrap() <= old(entries)@.len()) ==> (r matches Err(m) && m@ == "Index out of range."@),
        r is Err ==> final(entries)@ == old(entries)@,
        args@.len() > 0 && spec_parse_index(args@[0]@) is Some && 1 <= spec_parse_index(
            args@[0]@,
        ).unwrap() <= old(entries)@.len() ==> (r matches Ok(m) && m@ == "Command at index "@
            + dec_digits(spec_parse_index(args@[0]@).unwrap() as nat) + " unmarked as favorite."@
            && views_of(final(entries)@) == views_of(old(entries)@).update(
            spec_parse_index(args@[0]@).unwrap() - 1,
            with_fav(old(entries)@[spec_parse_index(args@[0]@).unwrap() - 1]@, false),
        )),
{
    if args.len() == 0 {
        return Err(String::from_str("Usage: bank unfav <index>"));
    }
    let idx = match parse_index(args[0].as_str()) {
        Some(i) => i,
        None => {
            return Err(String::from_str("Invalid index provided."));
        },
    };
    if !set_fav(entries, idx, false) {
        return Err(String::from_str("Index out of range."));
    }
    let mut m = String::from_str("Command at index ");
    m.append(u64_to_string(idx as u64).as_str());
    m.append(" unmarked as favorite.");
    Ok(m)
}

/// The del step: removes the entry at the given 1-based index of the full
/// ledger; the entries after it each move up one position. `Ok` carries the
/// message naming the deleted entry's label and the ledger is to be
/// rewritten; on any `Err` the ledger is untouched.
pub fn step_del(args: &Vec<String>, entries: &mut Vec<Entry>) -> (r: Result<String, String>)
    ensures
        args@.len() == 0 ==> (r matches Err(m) && m@ == "Usage: bank del <index>"@),
        args@.len() > 0 && spec_parse_index(args@[0]@) is None ==> (r matches Err(m) && m@
            == "Invalid index provided."@),
        args@.len() > 0 && spec_parse_index(args@[0]@) is Some && !(1 <= spec_parse_index(
            args@[0]@,
        ).unwrap() <= old(entries)@.len()) ==> (r matches Err(m) && m@ == "Index out of range."@),
        r is Err ==> final(entries)@ == old(entries)@,
        args@.len() > 0 && spec_parse_index(args@[0]@) is Some && 1 <= spec_parse_index(
            args@[0]@,
        ).unwrap() <= old(entries)@.len() ==> (r matches Ok(m) && m@ == "Deleted command: "@ + old(
            entries,
        )@[spec_parse_index(args@[0]@).unwrap() - 1]@.desc && final(entries)@ == old(
            entries,
        )@.remove(spec_parse_index(args@[0]@).unwrap() - 1)),
{
    if args.len() == 0 {
        return Err(String::from_str("Usage: bank del <index>"));
    }
    let idx = match parse_index(args[0].as_str()) {
        Some(i) => i,
        None => {
            return Err(String::from_str("Invalid index provided."));
        },
    };
    let removed = match delete_at(entries, idx) {
        Some(e) => e,
        None => {
            return Err(String::from_str("Index out of range."));
        },
    };
    let mut m = String::from_str("Deleted command: ");
    m.append(removed.desc.as_str());
    Ok(m)
}

/// The echo step: the raw command text of the entry at the given 1-based
/// index of the full ledger, to print without running.
pub fn step_echo(args: &Vec<String>, entries: &Vec<Entry>) -> (r: Result<String, String>)
    ensures
        args@.len() == 0 ==> (r matches Err(m) && m@ == "Usage: bank echo <index>"@),
        args@.len() > 0 && spec_parse_index(args@[0]@) is None ==> (r matches Err(m) && m@
            == "Invalid index provided."@),
        args@.len() > 0 && spec_parse_index(args@[0]@) is Some && !(1 <= spec_parse_index(
            args@[0]@,
        ).unwrap() <= entries@.len()) ==> (r matches Err(m) && m@ == "Index out of range."@),
        args@.len() > 0 && spec_parse_index(args@[0]@) is Some && 1 <= spec_parse_index(
            args@[0]@,
        ).unwrap() <= entries@.len() ==> (r matches Ok(m) && m@ == entries@[spec_parse_index(
            args@[0]@,
        ).unwrap() - 1]@.cmd),
{
    if args.len() == 0 {
        return Err(String::from_str("Usage: bank echo <index>"));
    }
    let idx = match parse_index(args[0].as_str()) {
        Some(i) => i,
        None => {
            return Err(String::from_str("Invalid index provided."));
        },
    };
    if idx == 0 || idx > entries.len() {
        return Err(String::from_str("Index out of range."));
    }
    Ok(entries[idx - 1].cmd.clone())
}

/// The run step: the command of the entry at the given 1-based index of
/// the full ledger, with its announcement line; the binary prints the
/// announcement, spawns `sh -c <command>`, and exits with the child's
/// success as 0 or 1.
pub fn step_run(args: &Vec<String>, entries: &Vec<Entry>) -> (r: Result<RunPlan, String>)
    ensures
        args@.len() == 0 ==> (r matches Err(m) && m@ == "Usage: bank <index>"@),
        args@.len() > 0 && spec_parse_index(args@[0]@) is None ==> (r matches Err(m) && m@
            == "Invalid index provided."@),
        args@.len() > 0 && spec_parse_index(args@[0]@) is Some && !(1 <= spec_parse_index(
            args@[0]@,
        ).unwrap() <= entries@.len()) ==> (r matches Err(m) && m@ == "Index out of range."@),
        args@.len() > 0 && spec_parse_index(args@[0]@) is Some && 1 <= spec_parse_index(
            args@[0]@,
        ).unwrap() <= entries@.len() ==> (r matches Ok(p) && p.command@ == entries@[spec_parse_index(
            args@[0]@,
        ).unwrap() - 1]@.cmd && p.announce@ == "Running command: "@ + entries@[spec_parse_index(
            args@[0]@,
        ).unwrap() - 1]@.cmd),
{
    if args.len() == 0 {
        return Err(String::from_str("Usage: bank <index>"));
    }
    let idx = match parse_index(args[0].as_str()) {
        Some(i) => i,
        None => {
            return Err(String::from_str("Invalid index provided."));
        },
    };
    if idx == 0 || idx > entries.len() {
        return Err(String::from_str("Index out of range."));
    }
    let command = entries[idx - 1].cmd.clone();
    let mut announce = String::from_str("Running command: ");
    announce.append(command.as_str());
    Ok(RunPlan { announce, command })
}

/// The runfav step: as the run step, but the 1-based index counts within
/// the favorites view, in ledger order.
pub fn step_runfav(args: &Vec<String>, entries: &Vec<Entry>) -> (r: Result<RunPlan, String>)
    ensures
        args@.len() == 0 ==> (r matches Err(m) && m@ == "Usage: bank runfav <fav_index>"@),
        args@.len() > 0 && spec_parse_index(args@[0]@) is None ==> (r matches Err(m) && m@
            == "Invalid favorite index provided."@),
        args@.len() > 0 && spec_parse_index(args@[0]@) is Some && !(1 <= spec_parse_index(
            args@[0]@,
        ).unwrap() <= spec_favorites(views_of(entries@)).len()) ==> (r matches Err(m) && m@
            == "Favorite index out of range."@),
        args@.len() > 0 && spec_parse_index(args@[0]@) is Some && 1 <= spec_parse_index(
            args@[0]@,
        ).unwrap() <= spec_favorites(views_of(entries@)).len() ==> (r matches Ok(p) && p.command@
            == spec_favorites(views_of(entries@))[spec_parse_index(args@[0]@).unwrap() - 1].cmd
            && p.announce@ == "Running favorite command: "@ + spec_favorites(views_of(entries@))[
        spec_parse_index(args@[0]@).unwrap() - 1].cmd),
{
    if args.len() == 0 {
        return Err(String::from_str("Usage: bank runfav <fav_index>"));
    }
    let idx = match parse_index(args[0].as_str()) {
        Some(i) => i,
        None => {
            return Err(String::from_str("Invalid favorite index provided."));
        },
    };
    let favs = favorites(entries);
    if idx == 0 || idx > favs.len() {
        return Err(String::from_str("Favorite index out of range."));
    }
    let command = favs[idx - 1].cmd.clone();
    let mut announce = String::from_str("Running favorite command: ");
    announce.append(command.as_str());
    Ok(RunPlan { announce, command })
}

} // verus!
