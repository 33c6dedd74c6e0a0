//! Arguments of the add operation: a `-L <label>` pair may stand anywhere
//! among the command tokens (the last such pair wins), and every other token
//! is part of the command, joined with single spaces. A trailing `-L` with no
//! value after it counts as a command token.

use crate::string_views;
use vstd::prelude::*;
use vstd::string::StringExecFns;

verus! {

/// The outcome of scanning the add arguments: the label chosen, if any, and
/// the command tokens in order.
pub ghost struct AddScan {
    pub label: Option<Seq<char>>,
    pub parts: Seq<Seq<char>>,
}

/// The label flag token.
pub open spec fn label_flag() -> Seq<char> {
    "-L"@
}

/// The first of two optional values that is present, if either is.
pub open spec fn or_opt(a: Option<Seq<char>>, b: Option<Seq<char>>) -> Option<Seq<char>> {
    if a is Some {
        a
    } else {
        b
    }
}

/// The view of an optional string.
pub open spec fn opt_str_view(o: Option<String>) -> Option<Seq<char>> {
    match o {
        Some(s) => Some(s@),
        None => None,
    }
}

/// Scans the arguments front to back: a `-L` followed by another token
/// binds that token as the label (a later pair overrides an earlier one);
/// every other token, a trailing `-L` included, is a command token.
pub open spec fn add_scan(args: Seq<Seq<char>>) -> AddScan
    decreases args.len(),
{
    if args.len() == 0 {
        AddScan { label: None, parts: Seq::empty() }
    } else if args[0] == label_flag() && args.len() >= 2 {
        let r = add_scan(args.skip(2));
        AddScan { label: or_opt(r.label, Some(args[1])), parts: r.parts }
    } else {
        let r = add_scan(args.skip(1));
        AddScan { label: r.label, parts: seq![args[0]] + r.parts }
    }
}

/// The tokens joined with single spaces.
pub open spec fn join_spaces(parts: Seq<Seq<char>>) -> Seq<char>
    decreases parts.len(),
{
    if parts.len() == 0 {
        Seq::empty()
    } else if parts.len() == 1 {
        parts[0]
    } else {
        join_spaces(parts.drop_last()) + seq![' '] + parts.last()
    }
}

/// The label of the entry the add arguments describe: the chosen label if
/// one was given, else the command text itself.
pub open spec fn spec_add_desc(args: Seq<Seq<char>>) -> Seq<char> {
    match add_scan(args).label {
        Some(l) => l,
        None => join_spaces(add_scan(args).parts),
    }
}

/// Joins string tokens with single spaces.
fn join_with_spaces(parts: &Vec<String>) -> (r: String)
    ensures
        r@ == join_spaces(string_views(parts@)),
{
    let ghost pv = string_views(parts@);
    let mut r = String::new();
    let mut i: usize = 0;
    while i < parts.len()
        invariant
            pv == string_views(parts@),
            i <= parts.len(),
            r@ == join_spaces(pv.take(i as int)),
        decreases parts.len() - i,
    {
        proof {
            reveal_strlit(" ");
            assert(pv.take(i + 1).drop_last() =~= pv.take(i as int));
            assert(pv.take(i + 1).last() == pv[i as int]);
        }
        if i > 0 {
            r.append(" ");
            r.append(parts[i].as_str());
            proof {
                assert(r@ =~= join_spaces(pv.take(i + 1)));
            }
        } else {
            r.append(parts[i].as_str());
            proof {
                assert(r@ =~= join_spaces(pv.take(i + 1)));
            }
        }
        i = i + 1;
    }
    proof {
        assert(pv.take(parts@.len() as int) =~= pv);
    }
    r
}

/// Reads the add arguments: `Err` carries the usage message when no
/// argument was given, or the missing-command message when only label pairs
/// were; `Ok` carries the label and the space-joined command text.
pub fn parse_add_args(args: &Vec<String>) -> (r: Result<(String, String), String>)
    ensures
        args@.len() == 0 ==> (r matches Err(m) && m@ == "Usage: bank add [-L <label>] <cmd>"@),
        args@.len() > 0 && add_scan(string_views(args@)).parts.len() == 0 ==> (r matches Err(m)
            && m@ == "No command specified"@),
        add_scan(string_views(args@)).parts.len() > 0 ==> (r matches Ok(dc)
            && dc.1@ == join_spaces(add_scan(string_views(args@)).parts)
            && dc.0@ == spec_add_desc(string_views(args@))),
{
    let ghost sv = string_views(args@);
    if args.len() == 0 {
        return Err(String::from_str("Usage: bank add [-L <label>] <cmd>"));
    }
    let flag = String::from_str("-L");
    let mut label: Option<String> = None;
    let mut parts: Vec<String> = Vec::new();
    let mut i: usize = 0;
    proof {
        assert(sv.skip(0) =~= sv);
        assert(string_views(parts@) =~= Seq::<Seq<char>>::empty());
        assert(string_views(parts@) + add_scan(sv).parts =~= add_scan(sv).parts);
    }
    while i < args.len()
        invariant
            sv == string_views(args@),
            flag@ == label_flag(),
            i <= args.len(),
            add_scan(sv).parts == string_views(parts@) + add_scan(sv.skip(i as int)).parts,
            add_scan(sv).label == or_opt(add_scan(sv.skip(i as int)).label, opt_str_view(label)),
        decreases args.len() - i,
    {
        let is_flag = args[i].eq(&flag);
        if is_flag && i + 1 < args.len() {
            proof {
                assert(sv.skip(i as int).skip(2) =~= sv.skip(i + 2));
                assert(sv.skip(i as int)[0] == sv[i as int]);
                assert(sv.skip(i as int)[1] == sv[i + 1]);
            }
            label = Some(args[i + 1].clone());
            i = i + 2;
        } else {
            proof {
                assert(sv.skip(i as int).skip(1) =~= sv.skip(i + 1));
                assert(sv.skip(i as int)[0] == sv[i as int]);
            }
            parts.push(args[i].clone());
            proof {
                assert(string_views(parts@) =~= string_views(parts@.drop_last()).push(
                    parts@.last()@,
                ));
                assert(string_views(parts@.drop_last()) + (seq![sv[i as int]] + add_scan(
                    sv.skip(i + 1),
                ).parts) =~= string_views(parts@) + add_scan(sv.skip(i + 1)).parts);
            }
            i = i + 1;
        }
    }
    proof {
        assert(sv.skip(args@.len() as int) =~= Seq::<Seq<char>>::empty());
        assert(add_scan(sv).parts =~= string_views(parts@));
    }
    if parts.len() == 0 {
        return Err(String::from_str("No command specified"));
    }
    let cmd = join_with_spaces(&parts);
    let desc = match label {
        Some(l) => l,
        None => cmd.clone(),
    };
    Ok((desc, cmd))
}

} // verus!
