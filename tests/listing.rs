use lsx::date::{format_modified, Timestamp};
use lsx::decimal::decimal_text;
use lsx::entry::{fallback_entry, get_files, map_data, DirChild, EntryMetadata, FileEntry, FileType};
use lsx::json::{entry_to_json, render_json};
use lsx::present;
use lsx::resolve::{path_outcome, PathOutcome, DEFAULT_PATH};
use lsx::table::{render_table, table_rows};

fn file(name: &str, len: u64, is_dir: bool) -> FileEntry {
    FileEntry {
        name: name.to_string(),
        len_bytes: len,
        last_modified: String::new(),
        file_type: if is_dir { FileType::Dir } else { FileType::File },
    }
}

fn child(name: Option<&str>, metadata: Option<EntryMetadata>) -> DirChild {
    DirChild { name: name.map(|n| n.to_string()), metadata }
}

fn meta(len: u64, is_dir: bool) -> Option<EntryMetadata> {
    Some(EntryMetadata { len, modified: None, is_dir })
}

fn assert_fallback(e: &FileEntry) {
    assert_eq!(e.name, "UNKNOWN");
    assert_eq!(e.len_bytes, 0);
    assert_eq!(e.last_modified, "");
    assert_eq!(e.file_type, FileType::File);
}

#[test]
fn fallback_record_has_placeholder_fields() {
    assert_fallback(&fallback_entry());
}

#[test]
fn missing_metadata_gives_fallback_whatever_the_name() {
    assert_fallback(&map_data(&child(Some("report.pdf"), None)));
    assert_fallback(&map_data(&child(None, None)));
}

#[test]
fn undecodable_name_becomes_unknown() {
    let e = map_data(&child(None, meta(7, false)));
    assert_eq!(e.name, "UNKNOWN");
    assert_eq!(e.len_bytes, 7);
    assert_eq!(e.file_type, FileType::File);
}

#[test]
fn metadata_fills_the_record() {
    let m = EntryMetadata {
        len: 4096,
        modified: Some(Timestamp { secs: 1_704_412_800, nanos: 0 }),
        is_dir: true,
    };
    let e = map_data(&child(Some("src"), Some(m)));
    assert_eq!(e.name, "src");
    assert_eq!(e.len_bytes, 4096);
    assert_eq!(e.last_modified, "Jan  5 2024 (Fri)");
    assert_eq!(e.file_type, FileType::Dir);
}

#[test]
fn date_label_formats_month_day_year_weekday() {
    let t = Timestamp { secs: 1_704_412_800 + 86_399, nanos: 999_999_999 };
    assert_eq!(format_modified(Some(t)), "Jan  5 2024 (Fri)");
    assert_eq!(format_modified(Some(Timestamp { secs: 0, nanos: 0 })), "Jan  1 1970 (Thu)");
    assert_eq!(format_modified(Some(Timestamp { secs: -86_400, nanos: 0 })), "Dec 31 1969 (Wed)");
}

#[test]
fn date_label_empty_when_unknown_or_out_of_range() {
    assert_eq!(format_modified(None), "");
    assert_eq!(format_modified(Some(Timestamp { secs: i64::MAX, nanos: 0 })), "");
}

#[test]
fn unreadable_directory_gives_no_records() {
    assert!(get_files(&None).is_empty());
}

#[test]
fn empty_directory_gives_no_records() {
    assert!(get_files(&Some(Vec::new())).is_empty());
}

#[test]
fn one_record_per_child_despite_metadata_failures() {
    let steps = vec![
        Some(child(Some("a.txt"), meta(10, false))),
        Some(child(Some("gone"), None)),
        Some(child(Some("b"), meta(0, true))),
        Some(child(None, None)),
    ];
    let r = get_files(&Some(steps));
    assert_eq!(r.len(), 4);
    assert_eq!(r[0].name, "a.txt");
    assert_eq!(r[0].len_bytes, 10);
    assert_fallback(&r[1]);
    assert_eq!(r[2].name, "b");
    assert_eq!(r[2].file_type, FileType::Dir);
    assert_fallback(&r[3]);
}

#[test]
fn failed_iteration_steps_are_skipped() {
    let steps = vec![None, Some(child(Some("x"), meta(1, false))), None];
    let r = get_files(&Some(steps));
    assert_eq!(r.len(), 1);
    assert_eq!(r[0].name, "x");
}

#[test]
fn decimal_text_of_sizes() {
    assert_eq!(decimal_text(0), "0");
    assert_eq!(decimal_text(10), "10");
    assert_eq!(decimal_text(1_234_567_890), "1234567890");
    assert_eq!(decimal_text(u64::MAX), "18446744073709551615");
}

#[test]
fn kind_labels() {
    assert_eq!(FileType::File.as_str(), "File");
    assert_eq!(FileType::Dir.as_str(), "Dir");
}

#[test]
fn empty_listing_is_empty_json_array() {
    assert_eq!(render_json(&Vec::new()), "[]");
    assert_eq!(present(&Vec::new(), true), "[]");
}

#[test]
fn empty_listing_is_header_only_table() {
    let rows = table_rows(&Vec::new());
    assert_eq!(rows, vec![vec!["Name", "Size (Bytes)", "Last Modified", "Type"]]);
    let t = render_table(&Vec::new());
    assert_eq!(t.lines().filter(|l| l.contains('│')).count(), 1);
    assert!(t.contains("Name") && t.contains("Size (Bytes)"));
}

#[test]
fn json_of_file_and_directory() {
    let entries = vec![file("a.txt", 10, false), file("b", 4096, true)];
    let out = render_json(&entries);
    assert_eq!(
        out,
        "[{\"name\":\"a.txt\",\"len_bytes\":10,\"last_modified\":\"\",\"file_type\":\"File\"},\
         {\"name\":\"b\",\"len_bytes\":4096,\"last_modified\":\"\",\"file_type\":\"Dir\"}]"
    );
    let v: serde_json::Value = serde_json::from_str(&out).unwrap();
    let arr = v.as_array().unwrap();
    assert_eq!(arr.len(), 2);
    assert_eq!(arr[0]["file_type"], "File");
    assert_eq!(arr[0]["len_bytes"], 10);
    assert_eq!(arr[1]["file_type"], "Dir");
}

#[test]
fn json_fields_round_trip() {
    let entries = vec![
        FileEntry {
            name: "quote\"back\\slash\ttab é".to_string(),
            len_bytes: u64::MAX,
            last_modified: "Jan  5 2024 (Fri)".to_string(),
            file_type: FileType::File,
        },
        file("dir", 0, true),
    ];
    let out = present(&entries, true);
    let v: serde_json::Value = serde_json::from_str(&out).unwrap();
    let arr = v.as_array().unwrap();
    assert_eq!(arr.len(), entries.len());
    for (o, e) in arr.iter().zip(entries.iter()) {
        assert_eq!(o.as_object().unwrap().len(), 4);
        assert_eq!(o["name"].as_str().unwrap(), e.name);
        assert_eq!(o["len_bytes"].as_u64().unwrap(), e.len_bytes);
        assert_eq!(o["last_modified"].as_str().unwrap(), e.last_modified);
        assert_eq!(o["file_type"].as_str().unwrap(), e.file_type.as_str());
    }
}

#[test]
fn json_escapes_names() {
    let t = entry_to_json(&file("a\"b", 1, false)).unwrap();
    assert_eq!(
        t,
        "{\"name\":\"a\\\"b\",\"len_bytes\":1,\"last_modified\":\"\",\"file_type\":\"File\"}"
    );
}

#[test]
fn table_of_file_and_directory() {
    let entries = vec![file("a.txt", 10, false), file("b", 4096, true)];
    let rows = table_rows(&entries);
    assert_eq!(rows.len(), 3);
    assert_eq!(rows[1], vec!["a.txt", "10", "", "File"]);
    assert_eq!(rows[2], vec!["b", "4096", "", "Dir"]);
    let t = present(&entries, false);
    assert_eq!(t, render_table(&entries));
    assert_eq!(t.lines().filter(|l| l.contains('│')).count(), 3);
    assert!(t.starts_with('╭'));
    assert!(t.contains('╮') && t.contains('╰') && t.contains('╯'));
    assert!(t.contains("\u{1b}[96ma.txt"));
    assert!(t.contains("\u{1b}[95m4096"));
    assert!(t.contains("\u{1b}[92m"));
}

#[test]
fn missing_path_notice() {
    match path_outcome(Some(false)) {
        PathOutcome::Notice(m) => assert_eq!(m, "\u{1b}[31mPath does not exist\u{1b}[39m"),
        PathOutcome::List => panic!("a missing path is not listed"),
    }
}

#[test]
fn failed_probe_notice() {
    match path_outcome(None) {
        PathOutcome::Notice(m) => {
            assert_eq!(m, "\u{1b}[33mError reading directory (missing permissions?)\u{1b}[39m")
        }
        PathOutcome::List => panic!("a failed probe is not listed"),
    }
}

#[test]
fn existing_path_is_listed() {
    assert!(matches!(path_outcome(Some(true)), PathOutcome::List));
    assert_eq!(DEFAULT_PATH, ".");
}
