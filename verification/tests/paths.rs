use dir_listing::{Path, Paths};

fn path(name: &str, is_dir: bool, size: &str) -> Path {
    Path {
        file_name: name.to_owned(),
        is_dir,
        size: size.to_owned(),
        time: "30 Jan 20:37".to_owned(),
    }
}

#[test]
fn names_should_have_same_length() {
    let path1 = Path {
        file_name: "test".to_owned(),
        is_dir: false,
        size: "1kb".to_owned(),
        time: "test".to_owned(),
    };
    let path2 = Path {
        file_name: "test_test".to_owned(),
        is_dir: false,
        size: "1kb".to_owned(),
        time: "test".to_owned(),
    };
    let mut paths = Paths::default();
    paths.paths.push(path1);
    paths.paths.push(path2);

    paths.indentate_paths();

    assert_eq!(
        paths.paths.get(0).unwrap().file_name.len(),
        paths.paths.get(1).unwrap().file_name.len(),
    );
}

#[test]
fn size_should_have_same_length() {
    let path1 = Path {
        file_name: "test".to_owned(),
        is_dir: false,
        size: "1kb".to_owned(),
        time: "test".to_owned(),
    };
    let path2 = Path {
        file_name: "test_test".to_owned(),
        is_dir: false,
        size: "1kb".to_owned(),
        time: "test".to_owned(),
    };
    let mut paths = Paths::default();
    paths.paths.push(path1);
    paths.paths.push(path2);

    paths.indentate_paths();

    assert_eq!(
        paths.paths.get(0).unwrap().size.len(),
        paths.paths.get(1).unwrap().size.len(),
    );
}

#[test]
fn setup_args_should_setup() {
    let mut paths = Paths::default();
    let all = true;
    let long = true;
    let tree = Some("dir".to_owned());

    paths.setup_args((all, long, tree));

    assert_eq!(paths.all, all);
    assert_eq!(paths.long, long);
    assert_eq!(paths.tree, (true, "dir".to_owned()));
}

#[test]
fn default_is_empty_and_unpadded() {
    let paths = Paths::default();
    assert!(paths.paths.is_empty());
    assert!(!paths.long);
    assert!(!paths.all);
    assert_eq!(paths.tree, (false, String::new()));
    assert!(!paths.padded);
}

#[test]
fn setup_args_without_a_root_keeps_the_tree() {
    let mut paths = Paths::default();
    paths.setup_args((false, true, Some("dir".to_owned())));
    paths.setup_args((true, false, None));
    assert!(paths.all);
    assert!(!paths.long);
    assert_eq!(paths.tree, (true, "dir".to_owned()));
}

#[test]
fn setup_args_keeps_the_entries() {
    let mut paths = Paths::default();
    paths.paths.push(path("a", false, "1B"));
    paths.setup_args((true, true, None));
    assert_eq!(paths.paths.len(), 1);
    assert_eq!(paths.paths[0].file_name, "a");
    assert_eq!(paths.tree, (false, String::new()));
    assert!(!paths.padded);
}

#[test]
fn biggest_len_of_nothing_is_zero() {
    let paths = Paths::default();
    assert_eq!(paths.get_biggest_str_len(), (0, 0));
}

#[test]
fn biggest_len_is_the_maximum_of_each_column() {
    let mut paths = Paths::default();
    paths.paths.push(path("test", false, "299MB"));
    paths.paths.push(path("test_test", true, "-"));
    paths.paths.push(path("a", false, "1KB"));
    assert_eq!(paths.get_biggest_str_len(), (9, 5));
}

#[test]
fn biggest_len_counts_characters_and_hidden_entries() {
    let mut paths = Paths::default();
    paths.paths.push(path(".é🦀x", false, "1B"));
    paths.paths.push(path("abc", false, ""));
    assert_eq!(paths.get_biggest_str_len(), (4, 2));
}

#[test]
fn indentate_pads_to_one_more_than_the_widest() {
    let mut paths = Paths::default();
    paths.paths.push(path("test", false, "299MB"));
    paths.paths.push(path("test_test", true, "-"));
    paths.indentate_paths();
    assert_eq!(paths.paths[0].file_name, "test      ");
    assert_eq!(paths.paths[0].size, "299MB ");
    assert_eq!(paths.paths[1].file_name, "test_test ");
    assert_eq!(paths.paths[1].size, "-     ");
    assert!(paths.padded);
}

#[test]
fn indentate_keeps_kind_time_and_order() {
    let mut paths = Paths::default();
    paths.paths.push(path("b", true, "-"));
    paths.paths.push(path("a", false, "1KB"));
    paths.indentate_paths();
    assert_eq!(paths.paths.len(), 2);
    assert_eq!(paths.paths[0].file_name, "b ");
    assert!(paths.paths[0].is_dir);
    assert_eq!(paths.paths[0].time, "30 Jan 20:37");
    assert_eq!(paths.paths[1].file_name, "a ");
    assert!(!paths.paths[1].is_dir);
    assert_eq!(paths.paths[1].time, "30 Jan 20:37");
}

#[test]
fn indentate_of_a_single_entry_adds_one_space() {
    let mut paths = Paths::default();
    paths.paths.push(path("only", false, "1KB"));
    paths.indentate_paths();
    assert_eq!(paths.paths[0].file_name, "only ");
    assert_eq!(paths.paths[0].size, "1KB ");
}

#[test]
fn indentate_of_nothing_marks_the_listing() {
    let mut paths = Paths::default();
    paths.indentate_paths();
    assert!(paths.paths.is_empty());
    assert!(paths.padded);
}

#[test]
fn indentate_twice_pads_once() {
    let mut paths = Paths::default();
    paths.paths.push(path("test", false, "1kb"));
    paths.paths.push(path("test_test", false, "299MB"));
    paths.indentate_paths();
    let names: Vec<String> = paths.paths.iter().map(|p| p.file_name.clone()).collect();
    let sizes: Vec<String> = paths.paths.iter().map(|p| p.size.clone()).collect();
    paths.indentate_paths();
    let names_again: Vec<String> = paths.paths.iter().map(|p| p.file_name.clone()).collect();
    let sizes_again: Vec<String> = paths.paths.iter().map(|p| p.size.clone()).collect();
    assert_eq!(names, names_again);
    assert_eq!(sizes, sizes_again);
    assert_eq!(names, vec!["test      ".to_owned(), "test_test ".to_owned()]);
    assert!(paths.padded);
}

#[test]
fn indentate_leaves_the_options_alone() {
    let mut paths = Paths::default();
    paths.setup_args((true, true, Some("dir".to_owned())));
    paths.paths.push(path("a", false, "1B"));
    paths.indentate_paths();
    assert!(paths.all);
    assert!(paths.long);
    assert_eq!(paths.tree, (true, "dir".to_owned()));
}

#[test]
fn padded_widths_agree_with_wide_characters() {
    let mut paths = Paths::default();
    paths.paths.push(path("é", false, "1B"));
    paths.paths.push(path("abc", false, "10KB"));
    paths.paths.push(path("", true, "-"));
    paths.indentate_paths();
    for p in paths.paths.iter() {
        assert_eq!(p.file_name.chars().count(), 4);
        assert_eq!(p.size.chars().count(), 5);
    }
    assert_eq!(paths.paths[0].file_name, "é   ");
    assert_eq!(paths.paths[1].file_name, "abc ");
    assert_eq!(paths.paths[2].file_name, "    ");
}

#[test]
fn padded_names_of_one_and_two_characters() {
    let mut paths = Paths::default();
    paths.paths.push(path("é", false, "-"));
    paths.paths.push(path("ab", false, "-"));
    paths.indentate_paths();
    assert_eq!(paths.paths[0].file_name, "é  ");
    assert_eq!(paths.paths[1].file_name, "ab ");
    assert_eq!(paths.paths[0].file_name.chars().count(), 3);
    assert_eq!(paths.paths[1].file_name.chars().count(), 3);
}

#[test]
fn print_of_nothing_is_nothing() {
    let paths = Paths::default();
    assert!(paths.print().is_empty());
}

#[test]
fn print_skips_hidden_entries_but_keeps_their_width() {
    colored::control::set_override(false);
    let mut paths = Paths::default();
    paths.paths.push(path(".gitignore", false, "299MB"));
    paths.paths.push(path("README", false, "1KB"));
    let lines = paths.print();
    assert_eq!(lines, vec!["README      1KB    30 Jan 20:37".to_owned()]);
}

#[test]
fn print_of_git_and_readme_is_one_line() {
    colored::control::set_override(false);
    let mut paths = Paths::default();
    paths.paths.push(path(".git", true, "-"));
    paths.paths.push(path("README", false, "1KB"));
    let lines = paths.print();
    assert_eq!(lines.len(), 1);
    assert_eq!(lines[0], "README  1KB  30 Jan 20:37");
}

#[test]
fn print_shows_hidden_entries_when_asked() {
    colored::control::set_override(false);
    let mut paths = Paths::default();
    paths.setup_args((true, false, None));
    paths.paths.push(path(".git", true, "-"));
    paths.paths.push(path("README", false, "1KB"));
    let lines = paths.print();
    assert_eq!(
        lines,
        vec![".git    -    30 Jan 20:37".to_owned(), "README  1KB  30 Jan 20:37".to_owned()]
    );
}

#[test]
fn print_with_all_entries_hidden_is_nothing() {
    let mut paths = Paths::default();
    paths.paths.push(path(".git", true, "-"));
    paths.paths.push(path(".cargo", true, "-"));
    assert!(paths.print().is_empty());
}

#[test]
fn print_keeps_the_order_of_the_entries() {
    colored::control::set_override(false);
    let mut paths = Paths::default();
    paths.paths.push(path("b", false, "2B"));
    paths.paths.push(path(".x", false, "9B"));
    paths.paths.push(path("a", true, "-"));
    paths.paths.push(path("c", false, "3B"));
    let lines = paths.print();
    assert_eq!(
        lines,
        vec![
            "b   2B  30 Jan 20:37".to_owned(),
            "a   -   30 Jan 20:37".to_owned(),
            "c   3B  30 Jan 20:37".to_owned(),
        ]
    );
}

#[test]
fn print_after_indentate_does_not_pad_again() {
    colored::control::set_override(false);
    let mut paths = Paths::default();
    paths.paths.push(path("a", false, "1KB"));
    paths.indentate_paths();
    let lines = paths.print();
    assert_eq!(lines, vec!["a  1KB  30 Jan 20:37".to_owned()]);
}

#[test]
fn print_judges_hidden_by_the_first_character_only() {
    colored::control::set_override(false);
    let mut paths = Paths::default();
    paths.paths.push(path("a.b", false, "1B"));
    paths.paths.push(path(" .c", false, "1B"));
    paths.paths.push(path("", false, "1B"));
    let lines = paths.print();
    assert_eq!(lines.len(), 3);
}
