use bank::dispatch::dispatch_first;
use bank::dispatch::unknown_command_message;
use bank::dispatch::CommandName;
use bank::dispatch::Dispatch;
use bank::entry::Entry;
use bank::handlers::step_run;
use bank::help::help_text;

#[test]
fn numeric_dispatch_takes_precedence() {
    // A digits-only first argument is run-by-index, never an unknown
    // command, and with a stored entry it resolves to that entry's command.
    assert_eq!(dispatch_first(&"1".to_string()), Dispatch::Numeric);
    let entries = vec![Entry {
        id: 1,
        desc: "a".to_string(),
        cmd: "echo hi".to_string(),
        fav: false,
    }];
    let plan = step_run(&vec!["1".to_string()], &entries).unwrap();
    assert_eq!(plan.command, "echo hi");
}

#[test]
fn named_dispatch() {
    assert_eq!(dispatch_first(&"add".to_string()), Dispatch::Named(CommandName::Add));
    assert_eq!(dispatch_first(&"list".to_string()), Dispatch::Named(CommandName::List));
    assert_eq!(dispatch_first(&"listfav".to_string()), Dispatch::Named(CommandName::ListFav));
    assert_eq!(dispatch_first(&"fav".to_string()), Dispatch::Named(CommandName::Fav));
    assert_eq!(dispatch_first(&"unfav".to_string()), Dispatch::Named(CommandName::Unfav));
    assert_eq!(dispatch_first(&"runfav".to_string()), Dispatch::Named(CommandName::RunFav));
    assert_eq!(dispatch_first(&"echo".to_string()), Dispatch::Named(CommandName::Echo));
    assert_eq!(dispatch_first(&"del".to_string()), Dispatch::Named(CommandName::Del));
    assert_eq!(dispatch_first(&"help".to_string()), Dispatch::Named(CommandName::Help));
}

#[test]
fn unknown_and_empty_dispatch() {
    assert_eq!(dispatch_first(&"frobnicate".to_string()), Dispatch::Unknown);
    assert_eq!(dispatch_first(&"ADD".to_string()), Dispatch::Unknown);
    // All characters of the empty string are digits, so it dispatches as
    // numeric (and then fails index parsing).
    assert_eq!(dispatch_first(&"".to_string()), Dispatch::Numeric);
    assert_eq!(
        unknown_command_message(&"frobnicate".to_string()),
        "Unknown command: frobnicate"
    );
}

#[test]
fn help_text_matches_reference_rendering() {
    // The expected text, rendered the straightforward way: every command
    // row column-aligned two spaces past the longest name and invocation.
    let rows: Vec<(&str, &str, &str, &str)> = vec![
        (
            "add",
            "bank add [-L <label>] <cmd>",
            "Add a command to the bank",
            "Use 'bank add !!' to add last shell command with auto-label",
        ),
        (
            "list",
            "bank list [fav]",
            "List all commands or favorites only",
            "Use 'bank list fav' to show only favorites",
        ),
        ("listfav", "bank listfav", "List favorite commands only", ""),
        ("fav", "bank fav <index>", "Mark command as favorite", ""),
        ("unfav", "bank unfav <index>", "Remove favorite mark from command", ""),
        (
            "runfav",
            "bank runfav <fav_index>",
            "Run favorite command at favorite slot index",
            "Use 'bank runfav 1' to run first favorite command",
        ),
        ("echo", "bank echo <index>", "Print command without running it", ""),
        ("del", "bank del <index>", "Delete command from bank", ""),
        ("help", "bank help", "Show this help message", ""),
    ];
    let w1 = rows.iter().map(|r| r.0.len()).max().unwrap() + 2;
    let w2 = rows.iter().map(|r| r.1.len()).max().unwrap() + 2;
    let mut cmd_rows = String::new();
    for (name, usage, desc, extra) in rows {
        cmd_rows.push_str(&format!(
            "       {:<w1$} {:<w2$} {}",
            name,
            usage,
            desc,
            w1 = w1,
            w2 = w2
        ));
        if !extra.is_empty() {
            cmd_rows.push('\n');
            cmd_rows.push_str(&format!(
                "       {:<w1$} {:<w2$} {}",
                "",
                "",
                extra,
                w1 = w1,
                w2 = w2
            ));
        }
        cmd_rows.push('\n');
    }
    let expected = format!(
        "{title}\n{underline}\n\nNAME\n       bank \u{2014} minimal command storage utility\n\nSYNOPSIS\n       bank <index>\n       bank <command> [arguments...]\n\nDESCRIPTION\n       bank keeps frequently-used shell commands in a private ledger\n       (~/.bank.txt).  Commands can be listed, starred, executed, or\n       deleted.  A bare numeric argument runs the command at that index.\n\nCOMMANDS\n{cmd_rows}\n\nFILES\n       ~/.bank.txt          Plain-text ledger (editable)\n\nENVIRONMENT\n       HOME                 Used to locate ~/.bank.txt\n\n",
        title = "BANK(1)                     User Commands                    BANK(1)",
        underline = "\u{203e}".repeat(68),
        cmd_rows = cmd_rows
    );
    assert_eq!(help_text(), expected);
}
