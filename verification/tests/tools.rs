use mehen::git::shorten_ref_name;
use mehen::git::GitError;
use mehen::git::{pushed_files, ChangeStatus};
use mehen::preproc::{fix_includes, get_macros, preprocess, PreprocFile, PreprocResults};
use mehen::concurrent_files::{is_hidden, worker_count};
use mehen::output::dump::{branch, DumpCfg};
use mehen::output::dump_ops::entry;
use mehen::langs::{get_from_emacs_mode, get_from_ext, LANG};
use mehen::tools::{
    choose_in_line, choose_language, choose_mode, get_emacs_mode, guess_language,
    remove_blank_lines, LineSearch,
};

#[test]
fn test_guess_language() {
    let buf = b"// -*- foo: bar; bar-mode: python; hello: world\n";
    assert_eq!(guess_language(buf, "foo.py"), (Some(LANG::Python), "python"));

    let buf = b"\n\n\n\n\n\n\n\n\n\n\n\n";
    assert_eq!(guess_language(buf, "foo.txt"), (None, ""));
}

#[test]
fn language_by_extension_and_by_mode() {
    assert_eq!(guess_language(b"x\n", "a/b.c/main.RS"), (Some(LANG::Rust), "rust"));
    assert_eq!(guess_language(b"x\n", "foo.tsx"), (Some(LANG::Tsx), "typescript"));
    assert_eq!(guess_language(b"x\n", "foo.jsmw"), (Some(LANG::Typescript), "typescript"));
    assert_eq!(guess_language(b"x\n", ".go"), (None, ""));
    assert_eq!(guess_language(b"x\n", "dir.go/file"), (None, ""));
    // separators at the end of a path do not count
    assert_eq!(guess_language(b"x\n", "a/foo.py/"), (Some(LANG::Python), "python"));
    assert_eq!(guess_language(b"x\n", "a/foo.py//"), (Some(LANG::Python), "python"));
    assert_eq!(guess_language(b"x\n", "foo.py/bar/"), (None, ""));
    // a part that is the current directory does not count either
    assert_eq!(guess_language(b"x\n", "foo.rs/."), (Some(LANG::Rust), "rust"));
    assert_eq!(guess_language(b"x\n", "foo.GO"), (Some(LANG::Go), "go"));
    assert_eq!(guess_language(b"x\n", "foo."), (None, ""));
    assert_eq!(guess_language(b"x\n", ".."), (None, ""));
    assert_eq!(guess_language(b"# -*- Go -*-\n", "script"), (Some(LANG::Go), "go"));
    // the extension wins over the mode
    assert_eq!(guess_language(b"# -*- go -*-\n", "foo.py"), (Some(LANG::Python), "python"));
    assert_eq!(get_from_ext("rs"), Some(LANG::Rust));
    assert_eq!(get_from_ext("RS"), None);
    assert_eq!(get_from_emacs_mode("typescript"), Some(LANG::Typescript));
    assert_eq!(get_from_emacs_mode("tsx"), None);
    assert_eq!(LANG::Tsx.get_name(), "typescript");
}

#[test]
fn mode_is_read_from_the_first_and_last_lines() {
    assert_eq!(get_emacs_mode(b"// -*- mode: Python -*-\n"), Some("python".to_string()));
    assert_eq!(get_emacs_mode(b"// -*- RUST -*-\n"), Some("rust".to_string()));
    assert_eq!(get_emacs_mode(b"a\nb\nc\n// vim: set ft=Go:\n"), Some("go".to_string()));
    // the fifth line is not looked at from the front
    assert_eq!(get_emacs_mode(b"a\nb\nc\nd\n// -*- rust -*-\ne\nf\ng\nh\ni"), None);
    // but the fourth from the end is looked at for vim
    assert_eq!(get_emacs_mode(b"a\nb\nc\nd\ne\nf\n// vim: ft=python\ng\nh\ni"), Some("python".to_string()));
    assert_eq!(get_emacs_mode(b"a\nb\nc\nd\ne\n// vim: ft=python\nf\ng\nh\ni"), None);
    assert_eq!(get_emacs_mode(b""), None);
    assert_eq!(get_emacs_mode(b"// -*- \xff -*-\n"), None);
}

#[test]
fn trailing_line_breaks_become_one() {
    let mut data = b"abc\n\r\n\n".to_vec();
    remove_blank_lines(&mut data);
    assert_eq!(data, b"abc\n".to_vec());
    let mut data = b"abcdef".to_vec();
    remove_blank_lines(&mut data);
    assert_eq!(data, b"abcdef\n".to_vec());
    let mut data = b"a\nb".to_vec();
    remove_blank_lines(&mut data);
    assert_eq!(data, b"a\nb\n".to_vec());
    let mut data = b"\n\n".to_vec();
    remove_blank_lines(&mut data);
    assert_eq!(data, b"\n".to_vec());
    let mut data = Vec::new();
    remove_blank_lines(&mut data);
    assert_eq!(data, b"\n".to_vec());
}

#[test]
fn references_are_shortened() {
    assert_eq!(shorten_ref_name("refs/heads/main"), "main");
    assert_eq!(shorten_ref_name("refs/heads/feature/x"), "feature/x");
    assert_eq!(shorten_ref_name("refs/remotes/origin/develop"), "develop");
    assert_eq!(shorten_ref_name("refs/remotes/fork/topic/y"), "topic/y");
    assert_eq!(shorten_ref_name("refs/remotes/fork"), "refs/remotes/fork");
    assert_eq!(shorten_ref_name("refs/tags/v1"), "refs/tags/v1");
    assert_eq!(shorten_ref_name("refs/heads/"), "");
    assert_eq!(shorten_ref_name("refs/heads/\u{e9}t\u{e9}"), "\u{e9}t\u{e9}");
}

#[test]
fn git_errors_have_messages() {
    assert_eq!(GitError::RepoNotFound.message(), "Not a git repository.");
    assert_eq!(
        GitError::ShallowClone { hint: "Fetch more.".to_string() }.message(),
        "Shallow clone detected. Fetch more."
    );
    assert_eq!(GitError::RefNotFound("x".to_string()).message(), "Could not resolve ref 'x'.");
    assert_eq!(
        GitError::BlobNotFound { rev: "r".to_string(), path: "p".to_string() }.message(),
        "Could not find 'p' at rev 'r'."
    );
    assert_eq!(GitError::Internal("boom".to_string()).message(), "Git error: boom");
}

#[test]
fn pushed_files_count_as_modified() {
    let changes = pushed_files(&vec!["a.rs".to_string(), "b.py".to_string()]);
    assert_eq!(changes.len(), 2);
    assert_eq!(changes[0].path, "a.rs");
    assert_eq!(changes[1].path, "b.py");
    assert_eq!(changes[0].status, ChangeStatus::Modified);
    assert_eq!(changes[1].status, ChangeStatus::Modified);
}

#[test]
fn macros_of_a_file_and_of_what_it_draws_on() {
    let mut a = PreprocFile::new_macros(&["A", "B", "A"]);
    assert_eq!(a.macros, vec!["A".to_string(), "B".to_string()]);
    a.indirect_includes.push("b.h".to_string());
    a.indirect_includes.push("missing.h".to_string());
    let b = PreprocFile::new_macros(&["B", "C"]);
    let c = PreprocFile::new_macros(&["D"]);
    let files = vec![("a.c".to_string(), a), ("b.h".to_string(), b), ("c.h".to_string(), c)];
    let mut macros = get_macros("a.c", &files);
    macros.sort();
    assert_eq!(macros, vec!["A".to_string(), "B".to_string(), "C".to_string()]);
    assert_eq!(get_macros("c.h", &files), vec!["D".to_string()]);
    assert!(get_macros("d.h", &files).is_empty());
    let mut results = PreprocResults { files };
    preprocess("a.c", &mut results);
    assert_eq!(results.files.len(), 3);
}

#[test]
fn walking_rules() {
    assert_eq!(worker_count(0), 1);
    assert_eq!(worker_count(2), 1);
    assert_eq!(worker_count(3), 2);
    assert_eq!(worker_count(8), 7);
    assert!(is_hidden(".git"));
    assert!(!is_hidden("src"));
    assert!(!is_hidden(""));
}

#[test]
fn dump_rules() {
    let all = DumpCfg { line_start: None, line_end: None };
    assert!(all.displays(1));
    let some = DumpCfg { line_start: Some(2), line_end: Some(4) };
    assert!(!some.displays(1));
    assert!(some.displays(2));
    assert!(some.displays(4));
    assert!(!some.displays(5));
    let from = DumpCfg { line_start: Some(3), line_end: None };
    assert!(!from.displays(2));
    assert!(from.displays(300));
    assert_eq!(branch(true, true), ("", ""));
    assert_eq!(branch(false, true), ("   ", "\u{256e}\u{2500} "));
    assert_eq!(branch(false, false), ("\u{2502}  ", "\u{251c}\u{2500} "));
    assert_eq!(entry(true), ("   ", "`- "));
    assert_eq!(entry(false), ("|  ", "|- "));
}

fn found(text: &str) -> Option<Vec<u8>> {
    Some(text.as_bytes().to_vec())
}

fn line(first: Option<Vec<u8>>, second: Option<Vec<u8>>, vim: Option<Vec<u8>>) -> LineSearch {
    LineSearch { first, second, vim }
}

#[test]
fn the_first_search_that_found_a_mode_wins() {
    assert_eq!(choose_in_line(&line(found("a"), found("b"), found("c"))), found("a"));
    assert_eq!(choose_in_line(&line(None, found("b"), found("c"))), found("b"));
    assert_eq!(choose_in_line(&line(None, None, found("c"))), found("c"));
    assert_eq!(choose_in_line(&line(None, None, None)), None);
}

#[test]
fn the_first_line_that_names_a_mode_wins() {
    let head = vec![line(None, None, None), line(None, found("second"), None), line(found("x"), None, None)];
    let tail = vec![found("last"), found("before")];
    assert_eq!(choose_mode(&head, &tail), found("second"));
    let head = vec![line(None, None, None), line(None, None, None)];
    assert_eq!(choose_mode(&head, &tail), found("last"));
    assert_eq!(choose_mode(&head, &vec![None, found("before")]), found("before"));
    assert_eq!(choose_mode(&head, &vec![None, None]), None);
    assert_eq!(choose_mode(&vec![], &vec![]), None);
    assert_eq!(choose_mode(&vec![line(None, None, found("v"))], &vec![found("w")]), found("v"));
}

#[test]
fn the_extension_wins_over_the_mode() {
    assert_eq!(choose_language(Some(LANG::Rust), Some(LANG::Go)), (Some(LANG::Rust), "rust"));
    assert_eq!(choose_language(Some(LANG::Go), Some(LANG::Go)), (Some(LANG::Go), "go"));
    assert_eq!(choose_language(Some(LANG::Tsx), None), (Some(LANG::Tsx), "typescript"));
    assert_eq!(choose_language(None, Some(LANG::Python)), (Some(LANG::Python), "python"));
    assert_eq!(choose_language(None, None), (None, ""));
}

fn file(direct: &[&str]) -> PreprocFile {
    PreprocFile {
        direct_includes: direct.iter().map(|d| d.to_string()).collect(),
        indirect_includes: vec![],
        macros: vec!["M".to_string()],
    }
}

fn sorted_names(v: &[String]) -> Vec<String> {
    let mut s = v.to_vec();
    s.sort();
    s
}

#[test]
fn files_drawn_in_through_directives() {
    // a.c draws in b.h, b.h draws in c.h and, in a cycle, a.c
    let mut files = vec![
        ("a.c".to_string(), file(&["b.h", "missing.h", "a.c"])),
        ("b.h".to_string(), file(&["c.h", "a.c"])),
        ("c.h".to_string(), file(&[])),
        ("d.c".to_string(), file(&["e.h"])),
    ];
    files[2].1.indirect_includes.push("x.h".to_string());
    let all_files = vec![
        ("a.c".to_string(), vec!["a.c".to_string()]),
        ("b.h".to_string(), vec!["b.h".to_string()]),
        ("c.h".to_string(), vec!["c.h".to_string()]),
        ("e.h".to_string(), vec!["one/e.h".to_string(), "two/e.h".to_string()]),
    ];
    fix_includes(&mut files, &all_files);
    assert_eq!(files.len(), 4);
    assert_eq!(files[0].0, "a.c");
    assert_eq!(files[0].1.macros, vec!["M".to_string()]);
    assert_eq!(files[0].1.direct_includes.len(), 3);
    assert_eq!(sorted_names(&files[0].1.indirect_includes), vec!["a.c", "b.h", "c.h"]);
    assert_eq!(sorted_names(&files[1].1.indirect_includes), vec!["a.c", "b.h", "c.h"]);
    assert_eq!(sorted_names(&files[2].1.indirect_includes), vec!["c.h", "x.h"]);
    assert_eq!(sorted_names(&files[3].1.indirect_includes), vec!["d.c", "one/e.h", "two/e.h"]);
    let mut none: Vec<(String, PreprocFile)> = vec![];
    fix_includes(&mut none, &all_files);
    assert!(none.is_empty());
}
