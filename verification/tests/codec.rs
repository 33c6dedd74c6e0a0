use bank::entry::Entry;
use bank::store::encode_lines;
use bank::store::load_from_lines;

fn entry(id: u64, desc: &str, cmd: &str, fav: bool) -> Entry {
    Entry { id: id, desc: desc.to_string(), cmd: cmd.to_string(), fav: fav }
}

#[test]
fn encode_exact() {
    assert_eq!(entry(7, "d", "c", true).to_line(), "7|d|c|1");
    assert_eq!(entry(0, "build", "make all", false).to_line(), "0|build|make all|0");
    assert_eq!(
        entry(1700000000, "", "", false).to_line(),
        "1700000000|||0"
    );
}

#[test]
fn decode_exact() {
    let e = Entry::from_line("7|d|c|1").unwrap();
    assert_eq!(e.id, 7);
    assert_eq!(e.desc, "d");
    assert_eq!(e.cmd, "c");
    assert!(e.fav);
}

#[test]
fn round_trip() {
    let cases = [
        entry(7, "d", "c", true),
        entry(0, "", "", false),
        entry(u64::MAX, "a label with spaces", "cargo build --release", false),
        entry(123, "unicode \u{2014} label", "echo caf\u{e9}", true),
    ];
    for e in cases {
        let back = Entry::from_line(&e.to_line()).unwrap();
        assert_eq!(back.id, e.id);
        assert_eq!(back.desc, e.desc);
        assert_eq!(back.cmd, e.cmd);
        assert_eq!(back.fav, e.fav);
    }
}

#[test]
fn decode_rejects_missing_fields() {
    assert!(Entry::from_line("").is_none());
    assert!(Entry::from_line("no bars at all").is_none());
    assert!(Entry::from_line("1|desc").is_none());
    assert!(Entry::from_line("1|desc|cmd").is_none());
}

#[test]
fn decode_rejects_bad_id() {
    assert!(Entry::from_line("|a|b|1").is_none());
    assert!(Entry::from_line("x|a|b|1").is_none());
    assert!(Entry::from_line("12x|a|b|1").is_none());
    assert!(Entry::from_line("-3|a|b|1").is_none());
    assert!(Entry::from_line("18446744073709551616|a|b|1").is_none());
}

#[test]
fn decode_accepts_plus_and_leading_zeros() {
    assert_eq!(Entry::from_line("+5|a|b|1").unwrap().id, 5);
    assert_eq!(Entry::from_line("007|a|b|0").unwrap().id, 7);
    assert_eq!(
        Entry::from_line("18446744073709551615|a|b|0").unwrap().id,
        u64::MAX
    );
}

#[test]
fn decode_extra_bars_go_to_fav_field() {
    // Everything after the third bar is the favorite field; `1|extra` is
    // not `1`, so the flag stays off.
    let e = Entry::from_line("1|a|b|1|extra").unwrap();
    assert_eq!(e.cmd, "b");
    assert!(!e.fav);
    let f = Entry::from_line("1|a|b|0").unwrap();
    assert!(!f.fav);
    let g = Entry::from_line("1|a|b|yes").unwrap();
    assert!(!g.fav);
}

#[test]
fn load_tolerance_keeps_well_formed_in_order() {
    let lines = vec![
        "10|first|echo 1|0".to_string(),
        "garbage".to_string(),
        "20|second|echo 2|1".to_string(),
        "not|enough".to_string(),
        "x|bad id|echo 3|0".to_string(),
        "30|third|echo 3|0".to_string(),
    ];
    let entries = load_from_lines(&lines);
    assert_eq!(entries.len(), 3);
    assert_eq!(entries[0].desc, "first");
    assert_eq!(entries[1].desc, "second");
    assert!(entries[1].fav);
    assert_eq!(entries[2].desc, "third");
}

#[test]
fn load_of_empty_ledger_is_empty() {
    let entries = load_from_lines(&Vec::new());
    assert!(entries.is_empty());
}

#[test]
fn encode_lines_round_trip() {
    let entries = vec![entry(1, "a", "x", false), entry(2, "b", "y", true)];
    let lines = encode_lines(&entries);
    assert_eq!(lines, vec!["1|a|x|0".to_string(), "2|b|y|1".to_string()]);
    let back = load_from_lines(&lines);
    assert_eq!(back.len(), 2);
    assert_eq!(back[0].desc, "a");
    assert!(back[1].fav);
}
