use rit::git::{
    get_changed_files, get_current_branch, get_staged_indices, parse_line, staged_indices,
    Changed, Status,
};
use std::collections::HashSet;

fn record(path: &str, index: Status, worktree: Status) -> Changed {
    Changed { path: path.to_string(), index, worktree }
}

#[test]
fn rename_keeps_the_destination_only() {
    assert_eq!(
        parse_line("R  old.txt -> new.txt"),
        Some(record("new.txt", Status::Renamed, Status::Unmodified))
    );
}

#[test]
fn untracked_file_is_not_staged() {
    let r = parse_line("?? newfile.rs").unwrap();
    assert_eq!(r, record("newfile.rs", Status::Untracked, Status::Untracked));
    assert!(!r.is_staged());
    assert!(!r.is_dirty());
}

#[test]
fn modified_in_worktree_is_dirty_and_not_staged() {
    let r = parse_line(" M tracked.rs").unwrap();
    assert_eq!(r.path, "tracked.rs");
    assert_eq!(r.index, Status::Unmodified);
    assert_eq!(r.worktree, Status::Modified);
    assert!(!r.is_staged());
    assert!(r.is_dirty());
}

#[test]
fn staged_and_dirty_at_once() {
    let r = parse_line("MM both.rs").unwrap();
    assert!(r.is_staged());
    assert!(r.is_dirty());
    let r = parse_line("A  added.rs").unwrap();
    assert!(r.is_staged());
    assert!(!r.is_dirty());
}

#[test]
fn every_glyph_of_the_table() {
    assert_eq!(Status::from_char(' '), Status::Unmodified);
    assert_eq!(Status::from_char('M'), Status::Modified);
    assert_eq!(Status::from_char('A'), Status::Added);
    assert_eq!(Status::from_char('D'), Status::Deleted);
    assert_eq!(Status::from_char('R'), Status::Renamed);
    assert_eq!(Status::from_char('C'), Status::Copied);
    assert_eq!(Status::from_char('U'), Status::Unmerged);
    assert_eq!(Status::from_char('?'), Status::Untracked);
}

#[test]
fn unknown_glyph_is_kept() {
    assert_eq!(Status::from_char('!'), Status::Other('!'));
    assert_eq!(Status::from_char('T'), Status::Other('T'));
    assert_eq!(Status::from_char('m'), Status::Other('m'));
    let r = parse_line("!! ignored.log").unwrap();
    assert_eq!(r, record("ignored.log", Status::Other('!'), Status::Other('!')));
    assert!(r.is_staged());
}

#[test]
fn as_char_writes_the_glyph_back() {
    for code in 0u32..=0x10FFFF {
        if let Some(c) = char::from_u32(code) {
            assert_eq!(Status::from_char(c).as_char(), c);
        }
    }
    assert_eq!(Status::Other('x').as_char(), 'x');
}

#[test]
fn short_lines_are_skipped() {
    assert_eq!(parse_line(""), None);
    assert_eq!(parse_line("M"), None);
    assert_eq!(parse_line("M a"), None);
    assert_eq!(parse_line("?? "), None);
    assert_eq!(parse_line("M  a"), Some(record("a", Status::Modified, Status::Unmodified)));
}

#[test]
fn length_counts_characters() {
    assert_eq!(parse_line(" M é"), Some(record("é", Status::Unmodified, Status::Modified)));
    assert_eq!(parse_line("éé x"), Some(record("x", Status::Other('é'), Status::Other('é'))));
}

#[test]
fn path_is_trimmed() {
    assert_eq!(parse_line(" M   spaced.rs  ").unwrap().path, "spaced.rs");
    assert_eq!(parse_line("R  a.txt ->   b.txt \t").unwrap().path, "b.txt");
    assert_eq!(parse_line("M     ").unwrap().path, "");
}

#[test]
fn character_at_offset_two_is_not_looked_at() {
    assert_eq!(parse_line("M-_x.rs"), Some(record("x.rs", Status::Modified, Status::Other('-'))));
    assert_eq!(parse_line("AMXy.rs"), Some(record("y.rs", Status::Added, Status::Modified)));
}

#[test]
fn first_arrow_separates_source_and_destination() {
    assert_eq!(parse_line("R  a -> b -> c").unwrap().path, "b -> c");
    assert_eq!(parse_line("C  src/one.rs -> src/two.rs").unwrap().path, "src/two.rs");
    assert_eq!(parse_line("R  a-> b").unwrap().path, "a-> b");
    assert_eq!(parse_line("R  a ->b").unwrap().path, "a ->b");
    assert_eq!(parse_line("R  a -> ").unwrap().path, "");
    assert_eq!(parse_line("R   -> b").unwrap().path, "b");
    assert_eq!(parse_line("R  a -> -> b").unwrap().path, "-> b");
}

#[test]
fn report_is_read_in_order() {
    let text = " M src/app.rs\nA  src/new.rs\n?? notes.txt\nR  old.rs -> fresh.rs\n";
    assert_eq!(
        get_changed_files(text),
        vec![
            record("src/app.rs", Status::Unmodified, Status::Modified),
            record("src/new.rs", Status::Added, Status::Unmodified),
            record("notes.txt", Status::Untracked, Status::Untracked),
            record("fresh.rs", Status::Renamed, Status::Unmodified),
        ]
    );
}

#[test]
fn empty_and_malformed_lines_are_dropped() {
    assert_eq!(get_changed_files(""), vec![]);
    assert_eq!(get_changed_files("\n\n"), vec![]);
    assert_eq!(get_changed_files("xx\n M a.rs\n\nM\nD  b.rs"), vec![
        record("a.rs", Status::Unmodified, Status::Modified),
        record("b.rs", Status::Deleted, Status::Unmodified),
    ]);
}

#[test]
fn last_line_needs_no_line_feed() {
    assert_eq!(get_changed_files(" M a.rs"), vec![record(
        "a.rs",
        Status::Unmodified,
        Status::Modified
    )]);
}

#[test]
fn carriage_return_before_line_feed_is_no_part_of_the_line() {
    assert_eq!(get_changed_files(" M a.rs\r\nM  b\r\n"), vec![
        record("a.rs", Status::Unmodified, Status::Modified),
        record("b", Status::Modified, Status::Unmodified),
    ]);
    // "M a" has three characters once the line ending is taken off.
    assert_eq!(get_changed_files("M a\r\n"), vec![]);
    // Without a line feed the carriage return belongs to the line.
    assert_eq!(get_changed_files("M a\r"), vec![record("", Status::Modified, Status::Unmodified)]);
}

#[test]
fn report_agrees_with_lines_of_std() {
    let samples = [
        "",
        "\n",
        " M a\n",
        " M a\n?? b\n",
        " M a\r\n?? b",
        "x\n\n M long/path with space.rs\nR  a -> b\r\n\r\nUU conflict\n",
        "M  a\rb\nA  c",
        "\r\n\r\n",
        "DD gone\n\n\n",
    ];
    for text in samples {
        let expected: Vec<Changed> = text.lines().filter_map(parse_line).collect();
        assert_eq!(get_changed_files(text), expected, "{:?}", text);
    }
}

#[test]
fn staged_indices_are_the_places_of_staged_records() {
    let text = " M a\nA  b\n?? c\nMM d\nxx\nD  e\n";
    let expected: HashSet<usize> = [1, 3, 4].into_iter().collect();
    assert_eq!(get_staged_indices(text), expected);
    assert_eq!(staged_indices(&get_changed_files(text)), expected);
    assert_eq!(get_staged_indices(" M a\n?? b\n"), HashSet::new());
    assert_eq!(get_staged_indices(""), HashSet::new());
}

#[test]
fn staged_indices_agree_with_is_staged() {
    let files = get_changed_files("M  a\n M b\nR  c -> d\n?? e\n! f\nUU g\n D h\n");
    let staged = staged_indices(&files);
    for (i, f) in files.iter().enumerate() {
        assert_eq!(staged.contains(&i), f.is_staged(), "{}", i);
    }
    assert!(staged.iter().all(|i| *i < files.len()));
}

#[test]
fn branch_name_is_the_trimmed_output() {
    assert_eq!(get_current_branch("main\n"), "main");
    assert_eq!(get_current_branch("  feature/x \r\n"), "feature/x");
    assert_eq!(get_current_branch(""), "");
    assert_eq!(get_current_branch("\n"), "");
    assert_eq!(get_current_branch("two words\n"), "two words");
}

#[test]
fn line_of_a_record_reads_back() {
    let records = [
        record("src/app.rs", Status::Unmodified, Status::Modified),
        record("new file.txt", Status::Added, Status::Unmodified),
        record("x", Status::Untracked, Status::Untracked),
        record("weird", Status::Other('!'), Status::Other('T')),
    ];
    for r in records {
        assert_eq!(parse_line(&r.line()), Some(r.clone()));
    }
    assert_eq!(record("a.rs", Status::Modified, Status::Deleted).line(), "MD a.rs");
    assert_eq!(record("b", Status::Unmodified, Status::Other('x')).line(), " x b");
}
