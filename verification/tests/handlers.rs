use bank::entry::Entry;
use bank::handlers::step_add;
use bank::handlers::step_del;
use bank::handlers::step_echo;
use bank::handlers::step_fav;
use bank::handlers::step_list;
use bank::handlers::step_listfav;
use bank::handlers::step_run;
use bank::handlers::step_runfav;
use bank::handlers::step_unfav;
use bank::store::encode_lines;

fn entry(id: u64, desc: &str, cmd: &str, fav: bool) -> Entry {
    Entry { id: id, desc: desc.to_string(), cmd: cmd.to_string(), fav: fav }
}

fn args(xs: &[&str]) -> Vec<String> {
    xs.iter().map(|s| s.to_string()).collect()
}

#[test]
fn add_builds_entry_from_label_and_tokens() {
    let e = step_add(&args(&["-L", "lbl", "echo", "hi"]), 42).unwrap();
    assert_eq!(e.id, 42);
    assert_eq!(e.desc, "lbl");
    assert_eq!(e.cmd, "echo hi");
    assert!(!e.fav);
}

#[test]
fn add_label_defaults_to_command_text() {
    let e = step_add(&args(&["echo", "hi"]), 1).unwrap();
    assert_eq!(e.desc, "echo hi");
    assert_eq!(e.cmd, "echo hi");
}

#[test]
fn add_flag_anywhere_and_last_label_wins() {
    let e = step_add(&args(&["echo", "-L", "one", "hi", "-L", "two"]), 1).unwrap();
    assert_eq!(e.desc, "two");
    assert_eq!(e.cmd, "echo hi");
}

#[test]
fn add_trailing_flag_is_a_command_token() {
    let e = step_add(&args(&["-L"]), 1).unwrap();
    assert_eq!(e.cmd, "-L");
    assert_eq!(e.desc, "-L");
}

#[test]
fn add_usage_errors() {
    assert_eq!(
        step_add(&args(&[]), 1).unwrap_err(),
        "Usage: bank add [-L <label>] <cmd>"
    );
    assert_eq!(step_add(&args(&["-L", "x"]), 1).unwrap_err(), "No command specified");
}

#[test]
fn list_empty_prints_message() {
    let out = step_list(&args(&[]), &Vec::new());
    assert_eq!(out, vec!["No commands stored yet.".to_string()]);
}

#[test]
fn list_rows_format_and_numbering() {
    let entries = vec![
        entry(1, "a", "x", false),
        entry(2, "b", "y", true),
        entry(3, "c", "z", false),
    ];
    let out = step_list(&args(&[]), &entries);
    assert_eq!(
        out,
        vec![
            "[1]  a: x".to_string(),
            "[2]* b: y".to_string(),
            "[3]  c: z".to_string(),
        ]
    );
    // The favorites filter renumbers the shown rows from 1.
    let favs = step_list(&args(&["fav"]), &entries);
    assert_eq!(favs, vec!["[1]* b: y".to_string()]);
}

#[test]
fn add_then_list_appends_unstarred_row() {
    let mut entries = vec![entry(1, "a", "x", true)];
    let favs_before = step_listfav(&entries);
    let e = step_add(&args(&["-L", "L", "C"]), 9).unwrap();
    entries.push(e);
    let out = step_list(&args(&[]), &entries);
    assert_eq!(out[1], "[2]  L: C");
    assert!(out[1].ends_with("L: C"));
    // The favorites view is untouched by an unstarred addition.
    assert_eq!(step_listfav(&entries), favs_before);
}

#[test]
fn listfav_format_and_message() {
    assert_eq!(
        step_listfav(&vec![entry(1, "a", "x", false)]),
        vec!["No favorite commands stored yet.".to_string()]
    );
    let entries = vec![
        entry(1, "a", "x", false),
        entry(2, "b", "y", true),
        entry(3, "c", "z", true),
    ];
    assert_eq!(
        step_listfav(&entries),
        vec!["[1] b: y".to_string(), "[2] c: z".to_string()]
    );
}

#[test]
fn fav_marks_and_reports() {
    let mut entries = vec![entry(1, "a", "x", false), entry(2, "b", "y", false)];
    let msg = step_fav(&args(&["2"]), &mut entries).unwrap();
    assert_eq!(msg, "Command at index 2 marked as favorite.");
    assert!(entries[1].fav);
    assert!(!entries[0].fav);
}

#[test]
fn unfav_unmarks_and_reports() {
    let mut entries = vec![entry(1, "a", "x", true)];
    let msg = step_unfav(&args(&["1"]), &mut entries).unwrap();
    assert_eq!(msg, "Command at index 1 unmarked as favorite.");
    assert!(!entries[0].fav);
}

#[test]
fn fav_out_of_range_leaves_ledger_unchanged() {
    let mut entries = vec![entry(1, "a", "x", false), entry(2, "b", "y", false)];
    let before = encode_lines(&entries);
    assert_eq!(
        step_fav(&args(&["0"]), &mut entries).unwrap_err(),
        "Index out of range."
    );
    assert_eq!(encode_lines(&entries), before);
    assert_eq!(
        step_fav(&args(&["999"]), &mut entries).unwrap_err(),
        "Index out of range."
    );
    assert_eq!(encode_lines(&entries), before);
}

#[test]
fn fav_usage_and_invalid_index() {
    let mut entries = vec![entry(1, "a", "x", false)];
    assert_eq!(
        step_fav(&args(&[]), &mut entries).unwrap_err(),
        "Usage: bank fav <index>"
    );
    assert_eq!(
        step_fav(&args(&["two"]), &mut entries).unwrap_err(),
        "Invalid index provided."
    );
    assert_eq!(
        step_unfav(&args(&[]), &mut entries).unwrap_err(),
        "Usage: bank unfav <index>"
    );
}

#[test]
fn favorite_index_isolation() {
    // The second entry becomes the first favorite: favorite-view index 1
    // refers to it, whatever its position in the full list.
    let mut entries = vec![entry(1, "a", "x", false), entry(2, "b", "y", false)];
    step_fav(&args(&["2"]), &mut entries).unwrap();
    assert_eq!(step_listfav(&entries), vec!["[1] b: y".to_string()]);
    let plan = step_runfav(&args(&["1"]), &entries).unwrap();
    assert_eq!(plan.command, "y");
    assert_eq!(plan.announce, "Running favorite command: y");
}

#[test]
fn delete_renumbers() {
    let mut entries = vec![
        entry(1, "a", "x", false),
        entry(2, "b", "y", false),
        entry(3, "c", "z", false),
    ];
    let msg = step_del(&args(&["2"]), &mut entries).unwrap();
    assert_eq!(msg, "Deleted command: b");
    let out = step_list(&args(&[]), &entries);
    assert_eq!(out, vec!["[1]  a: x".to_string(), "[2]  c: z".to_string()]);
}

#[test]
fn delete_errors() {
    let mut entries = vec![entry(1, "a", "x", false)];
    assert_eq!(
        step_del(&args(&[]), &mut entries).unwrap_err(),
        "Usage: bank del <index>"
    );
    assert_eq!(
        step_del(&args(&["nope"]), &mut entries).unwrap_err(),
        "Invalid index provided."
    );
    assert_eq!(
        step_del(&args(&["2"]), &mut entries).unwrap_err(),
        "Index out of range."
    );
    assert_eq!(entries.len(), 1);
}

#[test]
fn echo_returns_raw_command() {
    let entries = vec![entry(1, "a", "echo hi", false)];
    assert_eq!(step_echo(&args(&["1"]), &entries).unwrap(), "echo hi");
    assert_eq!(
        step_echo(&args(&[]), &entries).unwrap_err(),
        "Usage: bank echo <index>"
    );
    assert_eq!(
        step_echo(&args(&["0"]), &entries).unwrap_err(),
        "Index out of range."
    );
}

#[test]
fn run_plan_against_full_list() {
    let entries = vec![entry(1, "a", "x", false), entry(2, "b", "y", true)];
    let plan = step_run(&args(&["1"]), &entries).unwrap();
    assert_eq!(plan.command, "x");
    assert_eq!(plan.announce, "Running command: x");
    assert_eq!(
        step_run(&args(&[]), &entries).unwrap_err(),
        "Usage: bank <index>"
    );
    assert_eq!(
        step_run(&args(&["3"]), &entries).unwrap_err(),
        "Index out of range."
    );
}

#[test]
fn runfav_errors() {
    let entries = vec![entry(1, "a", "x", false)];
    assert_eq!(
        step_runfav(&args(&[]), &entries).unwrap_err(),
        "Usage: bank runfav <fav_index>"
    );
    assert_eq!(
        step_runfav(&args(&["one"]), &entries).unwrap_err(),
        "Invalid favorite index provided."
    );
    assert_eq!(
        step_runfav(&args(&["1"]), &entries).unwrap_err(),
        "Favorite index out of range."
    );
}
