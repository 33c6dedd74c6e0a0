//! The help page: a static usage manual. Every registered command is shown
//! as one row - name, invocation form, description, and an optional extra
//! hint on a continuation line - with the name and invocation columns
//! aligned two spaces past the longest of each.

use crate::args::opt_str_view;
use vstd::prelude::*;
use vstd::string::StrSliceExecFns;
use vstd::string::StringExecFns;

verus! {

/// One command's manual row.
pub struct HelpEntry {
    pub name: String,
    pub invocation: String,
    pub description: String,
    pub extra: Option<String>,
}

/// The mathematical image of a [`HelpEntry`].
pub ghost struct HelpRowView {
    pub name: Seq<char>,
    pub invocation: Seq<char>,
    pub description: Seq<char>,
    pub extra: Option<Seq<char>>,
}

impl View for HelpEntry {
    type V = HelpRowView;

    open spec fn view(&self) -> HelpRowView {
        HelpRowView {
            name: self.name@,
            invocation: self.invocation@,
            description: self.description@,
            extra: opt_str_view(self.extra),
        }
    }
}

/// The views of a sequence of rows.
pub open spec fn help_row_views(s: Seq<HelpEntry>) -> Seq<HelpRowView> {
    s.map_values(|e: HelpEntry| e@)
}

/// The registered commands, in display order.
pub open spec fn spec_help_table() -> Seq<HelpRowView> {
    seq![
        HelpRowView {
            name: "add"@,
            invocation: "bank add [-L <label>] <cmd>"@,
            description: "Add a command to the bank"@,
            extra: Some("Use 'bank add !!' to add last shell command with auto-label"@),
        },
        HelpRowView {
            name: "list"@,
            invocation: "bank list [fav]"@,
            description: "List all commands or favorites only"@,
            extra: Some("Use 'bank list fav' to show only favorites"@),
        },
        HelpRowView {
            name: "listfav"@,
            invocation: "bank listfav"@,
            description: "List favorite commands only"@,
            extra: None,
        },
        HelpRowView {
            name: "fav"@,
            invocation: "bank fav <index>"@,
            description: "Mark command as favorite"@,
            extra: None,
        },
        HelpRowView {
            name: "unfav"@,
            invocation: "bank unfav <index>"@,
            description: "Remove favorite mark from command"@,
            extra: None,
        },
        HelpRowView {
            name: "runfav"@,
            invocation: "bank runfav <fav_index>"@,
            description: "Run favorite command at favorite slot index"@,
            extra: Some("Use 'bank runfav 1' to run first favorite command"@),
        },
        HelpRowView {
            name: "echo"@,
            invocation: "bank echo <index>"@,
            description: "Print command without running it"@,
            extra: None,
        },
        HelpRowView {
            name: "del"@,
            invocation: "bank del <index>"@,
            description: "Delete command from bank"@,
            extra: None,
        },
        HelpRowView {
            name: "help"@,
            invocation: "bank help"@,
            description: "Show this help message"@,
            extra: None,
        },
    ]
}

/// The registered commands as strings.
pub fn commands() -> (r: Vec<HelpEntry>)
    ensures
        help_row_views(r@) == spec_help_table(),
{
    let mut r: Vec<HelpEntry> = Vec::new();
    r.push(
        HelpEntry {
            name: String::from_str("add"),
            invocation: String::from_str("bank add [-L <label>] <cmd>"),
            description: String::from_str("Add a command to the bank"),
            extra: Some(
                String::from_str("Use 'bank add !!' to add last shell command with auto-label"),
            ),
        },
    );
    r.push(
        HelpEntry {
            name: String::from_str("list"),
            invocation: String::from_str("bank list [fav]"),
            description: String::from_str("List all commands or favorites only"),
            extra: Some(String::from_str("Use 'bank list fav' to show only favorites")),
        },
    );
    r.push(
        HelpEntry {
            name: String::from_str("listfav"),
            invocation: String::from_str("bank listfav"),
            description: String::from_str("List favorite commands only"),
            extra: None,
        },
    );
    r.push(
        HelpEntry {
            name: String::from_str("fav"),
            invocation: String::from_str("bank fav <index>"),
            description: String::from_str("Mark command as favorite"),
            extra: None,
        },
    );
    r.push(
        HelpEntry {
            name: String::from_str("unfav"),
            invocation: String::from_str("bank unfav <index>"),
            description: String::from_str("Remove favorite mark from command"),
            extra: None,
        },
    );
    r.push(
        HelpEntry {
            name: String::from_str("runfav"),
            invocation: String::from_str("bank runfav <fav_index>"),
            description: String::from_str("Run favorite command at favorite slot index"),
            extra: Some(String::from_str("Use 'bank runfav 1' to run first favorite command")),
        },
    );
    r.push(
        HelpEntry {
            name: String::from_str("echo"),
            invocation: String::from_str("bank echo <index>"),
            description: String::from_str("Print command without running it"),
            extra: None,
        },
    );
    r.push(
        HelpEntry {
            name: String::from_str("del"),
            invocation: String::from_str("bank del <index>"),
            description: String::from_str("Delete command from bank"),
            extra: None,
        },
    );
    r.push(
        HelpEntry {
            name: String::from_str("help"),
            invocation: String::from_str("bank help"),
            description: String::from_str("Show this help message"),
            extra: None,
        },
    );
    proof {
        assert(help_row_views(r@) =~= spec_help_table());
    }
    r
}

/// `n` spaces.
pub open spec fn spaces(n: nat) -> Seq<char>
    decreases n,
{
    if n == 0 {
        Seq::empty()
    } else {
        spaces((n - 1) as nat).push(' ')
    }
}

/// `s` padded on the right with spaces to width `w`; a longer `s` is kept
/// whole.
pub open spec fn pad_to(s: Seq<char>, w: nat) -> Seq<char> {
    if s.len() >= w {
        s
    } else {
        s + spaces((w - s.len()) as nat)
    }
}

/// The longest name length among the rows from `i` on.
pub open spec fn max_name_from(t: Seq<HelpRowView>, i: int) -> nat
    decreases t.len() - i,
{
    if i < 0 || i >= t.len() {
        0
    } else {
        let rest = max_name_from(t, i + 1);
        if t[i].name.len() >= rest {
            t[i].name.len()
        } else {
            rest
        }
    }
}

/// The longest invocation length among the rows from `i` on.
pub open spec fn max_invocation_from(t: Seq<HelpRowView>, i: int) -> nat
    decreases t.len() - i,
{
    if i < 0 || i >= t.len() {
        0
    } else {
        let rest = max_invocation_from(t, i + 1);
        if t[i].invocation.len() >= rest {
            t[i].invocation.len()
        } else {
            rest
        }
    }
}

/// One manual row: seven spaces, the name and invocation columns padded to
/// their widths, the description, and - when the row has an extra hint - a
/// continuation line indented past both columns.
pub open spec fn spec_help_row(row: HelpRowView, w1: nat, w2: nat) -> Seq<char> {
    "       "@ + pad_to(row.name, w1) + " "@ + pad_to(row.invocation, w2) + " "@ + row.description
        + (match row.extra {
        Some(x) => "\n"@ + "       "@ + pad_to(Seq::<char>::empty(), w1) + " "@ + pad_to(
            Seq::<char>::empty(),
            w2,
        ) + " "@ + x,
        None => Seq::<char>::empty(),
    }) + "\n"@
}

/// All manual rows, in display order.
pub open spec fn spec_help_rows(t: Seq<HelpRowView>, w1: nat, w2: nat) -> Seq<char>
    decreases t.len(),
{
    if t.len() == 0 {
        Seq::empty()
    } else {
        spec_help_rows(t.drop_last(), w1, w2) + spec_help_row(t.last(), w1, w2)
    }
}

/// The manual's text above the command rows.
pub open spec fn help_head() -> Seq<char> {
    "BANK(1)                     User Commands                    BANK(1)\n‾‾‾‾‾‾‾‾‾‾‾‾‾‾‾‾‾‾‾‾‾‾‾‾‾‾‾‾‾‾‾‾‾‾‾‾‾‾‾‾‾‾‾‾‾‾‾‾‾‾‾‾‾‾‾‾‾‾‾‾‾‾‾‾‾‾‾‾\n\nNAME\n       bank — minimal command storage utility\n\nSYNOPSIS\n       bank <index>\n       bank <command> [arguments...]\n\nDESCRIPTION\n       bank keeps frequently-used shell commands in a private ledger\n       (~/.bank.txt).  Commands can be listed, starred, executed, or\n       deleted.  A bare numeric argument runs the command at that index.\n\nCOMMANDS\n"@
}

/// The manual's text below the command rows.
pub open spec fn help_tail() -> Seq<char> {
    "\n\nFILES\n       ~/.bank.txt          Plain-text ledger (editable)\n\nENVIRONMENT\n       HOME                 Used to locate ~/.bank.txt\n\n"@
}

/// The whole manual: head, one row per command with the columns aligned
/// two spaces past the longest name and the longest invocation, tail.
pub open spec fn spec_help_text() -> Seq<char> {
    help_head() + spec_help_rows(
        spec_help_table(),
        max_name_from(spec_help_table(), 0) + 2,
        max_invocation_from(spec_help_table(), 0) + 2,
    ) + help_tail()
}

/// Pads `s` on the right with spaces to width `w`.
fn pad_width(s: &String, w: usize) -> (r: String)
    ensures
        r@ == pad_to(s@, w as nat),
{
    let mut r = s.clone();
    let mut k = s.as_str().unicode_len();
    proof {
        reveal_strlit(" ");
        assert(r@ =~= s@ + spaces(0));
    }
    while k < w
        invariant
            s@.len() <= k,
            k == s@.len() || k <= w,
            r@ == s@ + spaces((k - s@.len()) as nat),
        decreases w - k,
    {
        r.append(" ");
        k = k + 1;
        proof {
            reveal_strlit(" ");
            assert(r@ =~= s@ + spaces((k - s@.len()) as nat));
        }
    }
    proof {
        if s@.len() >= w {
            assert(r@ =~= s@);
        }
    }
    r
}

/// The longest name among the commands.
fn max_name_width(table: &Vec<HelpEntry>) -> (r: usize)
    ensures
        r == max_name_from(help_row_views(table@), 0),
{
    let ghost tv = help_row_views(table@);
    let mut m: usize = 0;
    let mut i: usize = table.len();
    while i > 0
        invariant
            tv == help_row_views(table@),
            i <= table.len(),
            m == max_name_from(tv, i as int),
        decreases i,
    {
        i = i - 1;
        let l = table[i].name.as_str().unicode_len();
        if l > m {
            m = l;
        }
    }
    m
}

/// The longest invocation among the commands.
fn max_invocation_width(table: &Vec<HelpEntry>) -> (r: usize)
    ensures
        r == max_invocation_from(help_row_views(table@), 0),
{
    let ghost tv = help_row_views(table@);
    let mut m: usize = 0;
    let mut i: usize = table.len();
    while i > 0
        invariant
            tv == help_row_views(table@),
            i <= table.len(),
            m == max_invocation_from(tv, i as int),
        decreases i,
    {
        i = i - 1;
        let l = table[i].invocation.as_str().unicode_len();
        if l > m {
            m = l;
        }
    }
    m
}

/// Renders every manual row at the given column widths.
fn render_rows(table: &Vec<HelpEntry>, w1: usize, w2: usize) -> (r: String)
    ensures
        r@ == spec_help_rows(help_row_views(table@), w1 as nat, w2 as nat),
{
    let ghost tv = help_row_views(table@);
    let empty = String::new();
    let mut r = String::new();
    let mut i: usize = 0;
    while i < table.len()
        invariant
            tv == help_row_views(table@),
            i <= table.len(),
            empty@ == Seq::<char>::empty(),
            r@ == spec_help_rows(tv.take(i as int), w1 as nat, w2 as nat),
        decreases table.len() - i,
    {
        proof {
            assert(tv.take(i + 1).drop_last() =~= tv.take(i as int));
            assert(tv.take(i + 1).last() == tv[i as int]);
        }
        let e = &table[i];
        r.append("       ");
        r.append(pad_width(&e.name, w1).as_str());
        r.append(" ");
        r.append(pad_width(&e.invocation, w2).as_str());
        r.append(" ");
        r.append(e.description.as_str());
        match &e.extra {
            Some(x) => {
                r.append("\n");
                r.append("       ");
                r.append(pad_width(&empty, w1).as_str());
                r.append(" ");
                r.append(pad_width(&empty, w2).as_str());
                r.append(" ");
                r.append(x.as_str());
            },
            None => {},
        }
        r.append("\n");
        proof {
            assert(r@ =~= spec_help_rows(tv.take(i + 1), w1 as nat, w2 as nat));
        }
        i = i + 1;
    }
    proof {
        assert(tv.take(table@.len() as int) =~= tv);
    }
    r
}

/// The whole manual text, as [`spec_help_text`] states it.
pub fn help_text() -> (r: String)
    ensures
        r@ == spec_help_text(),
{
    let table = commands();
    let m1 = max_name_width(&table);
    let m2 = max_invocation_width(&table);
    proof {
        reveal_strlit("add");
        reveal_strlit("list");
        reveal_strlit("listfav");
        reveal_strlit("fav");
        reveal_strlit("unfav");
        reveal_strlit("runfav");
        reveal_strlit("echo");
        reveal_strlit("del");
        reveal_strlit("help");
        reveal_strlit("bank add [-L <label>] <cmd>");
        reveal_strlit("bank list [fav]");
        reveal_strlit("bank listfav");
        reveal_strlit("bank fav <index>");
        reveal_strlit("bank unfav <index>");
        reveal_strlit("bank runfav <fav_index>");
        reveal_strlit("bank echo <index>");
        reveal_strlit("bank del <index>");
        reveal_strlit("bank help");
        assert(max_name_from(spec_help_table(), 0) == 7) by {
            reveal_with_fuel(max_name_from, 11);
        };
        assert(max_invocation_from(spec_help_table(), 0) == 27) by {
            reveal_with_fuel(max_invocation_from, 11);
        };
    }
    let w1 = m1 + 2;
    let w2 = m2 + 2;
    let mut r = String::from_str("BANK(1)                     User Commands                    BANK(1)\n‾‾‾‾‾‾‾‾‾‾‾‾‾‾‾‾‾‾‾‾‾‾‾‾‾‾‾‾‾‾‾‾‾‾‾‾‾‾‾‾‾‾‾‾‾‾‾‾‾‾‾‾‾‾‾‾‾‾‾‾‾‾‾‾‾‾‾‾\n\nNAME\n       bank — minimal command storage utility\n\nSYNOPSIS\n       bank <index>\n       bank <command> [arguments...]\n\nDESCRIPTION\n       bank keeps frequently-used shell commands in a private ledger\n       (~/.bank.txt).  Commands can be listed, starred, executed, or\n       deleted.  A bare numeric argument runs the command at that index.\n\nCOMMANDS\n");
    r.append(render_rows(&table, w1, w2).as_str());
    r.append("\n\nFILES\n       ~/.bank.txt          Plain-text ledger (editable)\n\nENVIRONMENT\n       HOME                 Used to locate ~/.bank.txt\n\n");
    proof {
        assert(r@ =~= spec_help_text());
    }
    r
}

} // verus!
