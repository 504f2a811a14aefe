//! Scenarios of the decisions taken while actions run.

use orchy::enums::action::ActionResult;
use orchy::enums::action_steps::{
    archive_command, backup_path, extract_command, extract_command_for, finish_batch,
    grep_file_text, grep_pattern, grep_pattern_error, modified_timestamp, next_in_batch, permission_mode, replace_text,
};

#[test]
fn backups_take_the_given_suffix_or_bak() {
    assert_eq!(backup_path("notes.txt", &None), "notes.txt.bak");
    assert_eq!(backup_path("notes.txt", &Some(".orig".to_string())), "notes.txt.orig");
}

#[test]
fn archives_are_unpacked_by_extension() {
    assert_eq!(extract_command("a.zip", "out").unwrap(), "unzip -q 'a.zip' -d 'out'");
    assert_eq!(extract_command("a.tar", "out").unwrap(), "tar -xf 'a.tar' -C 'out'");
    assert_eq!(extract_command("dir/a.tar.gz", "out").unwrap(), "tar -xzf 'dir/a.tar.gz' -C 'out'");
    assert_eq!(extract_command("a.gz", "out").unwrap_err(), "Unsupported archive format: gz");
    assert_eq!(extract_command("a.rar", "out").unwrap_err(), "Unsupported archive format: rar");
    assert_eq!(extract_command("archive", "out").unwrap_err(), "Unsupported archive format: ");
    assert_eq!(extract_command_for("x.tgz", "d", "zip").unwrap(), "unzip -q 'x.tgz' -d 'd'");
}

#[test]
fn archives_are_made_by_format() {
    let sources = vec!["src".to_string(), "Cargo.toml".to_string()];
    assert_eq!(archive_command(&sources, "out.zip", "zip").unwrap(), "zip -r 'out.zip' src Cargo.toml");
    assert_eq!(archive_command(&sources, "out.tar", "tar").unwrap(), "tar -cf 'out.tar' src Cargo.toml");
    assert_eq!(
        archive_command(&sources, "out.tgz", "tar.gz").unwrap(),
        "tar -czf 'out.tgz' src Cargo.toml"
    );
    assert_eq!(archive_command(&sources, "out.7z", "7z").unwrap_err(), "Unsupported archive format: 7z");
    assert_eq!(archive_command(&vec![], "e.zip", "zip").unwrap(), "zip -r 'e.zip' ");
}

#[test]
fn modification_times_are_approximate_timestamps() {
    assert_eq!(modified_timestamp(0), "1970-01-01T00:00:00Z");
    assert_eq!(modified_timestamp(1_700_000_000), "2023-11-27T22:13:20Z");
    assert_eq!(modified_timestamp(59), "1970-01-01T00:00:59Z");
}

#[test]
fn grep_is_case_insensitive_unless_asked() {
    assert_eq!(grep_pattern("fn main", true), "fn main");
    assert_eq!(grep_pattern("fn main", false), "(?i)fn main");
}

#[test]
fn grep_numbers_matching_lines_from_one() {
    let content = "fn main() {\n    println!(\"hi\");\n}\nFN other() {}\r\n";
    let found = grep_file_text(&grep_pattern("fn ", false), "src/main.rs", content).unwrap();
    assert_eq!(found.len(), 2);
    assert_eq!(found[0].file_path, "src/main.rs");
    assert_eq!(found[0].line_number, 1);
    assert_eq!(found[0].line_content, "fn main() {");
    assert_eq!((found[0].match_start, found[0].match_end), (0, 3));
    assert_eq!(found[1].line_number, 4);
    assert_eq!(found[1].line_content, "FN other() {}");

    let case_sensitive = grep_file_text("fn ", "f", content).unwrap();
    assert_eq!(case_sensitive.len(), 1);
}

#[test]
fn invalid_patterns_are_refused() {
    assert!(grep_pattern_error("(unclosed").is_some());
    assert!(grep_pattern_error("ok+").is_none());
    assert!(grep_file_text("(unclosed", "f", "text").is_err());
}

#[test]
fn permissions_are_octal() {
    assert_eq!(permission_mode("755").unwrap(), 0o755);
    assert_eq!(permission_mode("0644").unwrap(), 0o644);
    assert!(permission_mode("9").is_err());
    assert!(permission_mode("").is_err());
}

#[test]
fn a_batch_keeps_content_and_stops_at_the_first_failure() {
    let ok: Vec<Result<ActionResult, String>> = vec![
        Ok(ActionResult::NoContent),
        Ok(ActionResult::Text("hello".to_string())),
        Ok(ActionResult::NoContent),
    ];
    let results = finish_batch(ok).unwrap();
    assert_eq!(results.len(), 1);
    assert!(matches!(&results[0], ActionResult::Text(t) if t == "hello"));

    let failed: Vec<Result<ActionResult, String>> = vec![
        Ok(ActionResult::Text("a".to_string())),
        Err("first".to_string()),
        Err("second".to_string()),
    ];
    assert_eq!(finish_batch(failed).unwrap_err(), "first");

    let empty: Vec<Result<ActionResult, String>> = vec![];
    assert!(finish_batch(empty).unwrap().is_empty());
}

#[test]
fn replace_text_replaces_every_occurrence_left_to_right() {
    assert_eq!(replace_text("fn old() { old(); }", "old", "new"), "fn new() { new(); }");
    assert_eq!(replace_text("aaaa", "aa", "b"), "bb");
    assert_eq!(replace_text("aaa", "aa", "b"), "ba");
    assert_eq!(replace_text("nothing here", "xyz", "q"), "nothing here");
    assert_eq!(replace_text("héllo wörld", "ö", "o"), "héllo world");
    assert_eq!(replace_text("abc", "abc", ""), "");
}

#[test]
fn replace_text_with_an_empty_pattern_fills_between_characters() {
    assert_eq!(replace_text("ab", "", "-"), "-a-b-");
    assert_eq!(replace_text("", "", "x"), "x");
    assert_eq!(replace_text("", "a", "x"), "");
}

#[test]
fn permission_modes_read_as_from_str_radix_reads_them() {
    assert_eq!(permission_mode("+17"), Ok(15));
    assert_eq!(permission_mode("37777777777"), Ok(u32::MAX));
    assert_eq!(permission_mode(""), Err("cannot parse integer from empty string".to_string()));
    assert_eq!(permission_mode("+"), Err("invalid digit found in string".to_string()));
    assert_eq!(permission_mode("-"), Err("invalid digit found in string".to_string()));
    assert_eq!(permission_mode("-5"), Err("invalid digit found in string".to_string()));
    assert_eq!(permission_mode("78"), Err("invalid digit found in string".to_string()));
    assert_eq!(permission_mode("40000000000"), Err("number too large to fit in target type".to_string()));
    assert_eq!(permission_mode("777777777777z"), Err("number too large to fit in target type".to_string()));
    for text in ["", "+", "-", "+17", "0755", "9", "12a", "37777777777", "40000000000", "é"] {
        assert_eq!(
            permission_mode(text),
            u32::from_str_radix(text, 8).map_err(|e| e.to_string()),
            "{}",
            text
        );
    }
}

/// Runs a batch whose action `i` gives `results[i]`, the way the program
/// drives it, and returns the indices that ran and how the batch ended.
fn drive_batch(results: &[Result<ActionResult, String>]) -> (Vec<usize>, Result<Vec<ActionResult>, String>) {
    let mut ran = Vec::new();
    let mut outcomes = Vec::new();
    while let Some(i) = next_in_batch(results.len(), &outcomes) {
        ran.push(i);
        outcomes.push(results[i].clone());
    }
    (ran, finish_batch(outcomes))
}

#[test]
fn a_batch_stops_at_its_first_failure() {
    let results = vec![
        Ok(ActionResult::NoContent),
        Ok(ActionResult::Text("a".to_string())),
        Err("disk full".to_string()),
        Ok(ActionResult::Text("never".to_string())),
    ];
    let (ran, end) = drive_batch(&results);
    assert_eq!(ran, vec![0, 1, 2]);
    assert_eq!(end, Err("disk full".to_string()));

    let two_writes = vec![Ok(ActionResult::NoContent), Ok(ActionResult::NoContent)];
    let (ran, end) = drive_batch(&two_writes);
    assert_eq!(ran, vec![0, 1]);
    assert_eq!(end, Ok(vec![]));

    let (ran, end) = drive_batch(&[]);
    assert!(ran.is_empty());
    assert_eq!(end, Ok(vec![]));
}

#[test]
fn next_in_batch_names_the_next_action_while_all_succeeded() {
    let none: Vec<Result<ActionResult, String>> = vec![];
    assert_eq!(next_in_batch(2, &none), Some(0));
    assert_eq!(next_in_batch(2, &vec![Ok::<ActionResult, String>(ActionResult::NoContent)]), Some(1));
    assert_eq!(next_in_batch(1, &vec![Ok::<ActionResult, String>(ActionResult::NoContent)]), None);
    assert_eq!(next_in_batch(3, &vec![Err::<ActionResult, String>("x".to_string())]), None);
}
