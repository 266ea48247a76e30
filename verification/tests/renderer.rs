use zedc::changes::{LineSet, UncoveredLines};
use zedc::diff::SourceFile;
use zedc::order::{padded_number, sorted};
use zedc::render::{display_uncovered_lines, RenderOptions};
use zedc::status::format_git_status;

fn uncovered(entries: &[(&str, usize)]) -> UncoveredLines {
    let mut set = LineSet::new();
    for (path, line) in entries {
        set.insert(&path.to_string(), *line);
    }
    set
}

fn plain() -> RenderOptions {
    RenderOptions { hyperlinks: false, current_dir: "/repo".to_string() }
}

fn text(chars: Vec<char>) -> String {
    chars.into_iter().collect()
}

#[test]
fn numbers_are_sorted_ascending() {
    assert_eq!(sorted(&vec![5, 1, 4, 2, 3]), vec![1, 2, 3, 4, 5]);
    assert_eq!(sorted(&vec![2, 2, 1]), vec![1, 2, 2]);
    assert_eq!(sorted(&Vec::new()), Vec::<usize>::new());
    assert_eq!(sorted(&vec![usize::MAX, 0]), vec![0, usize::MAX]);
}

#[test]
fn numbers_are_written_in_decimal() {
    assert_eq!(text(padded_number(0, 0)), "0");
    assert_eq!(text(padded_number(7, 3)), "  7");
    assert_eq!(text(padded_number(42, 3)), " 42");
    assert_eq!(text(padded_number(123, 3)), "123");
    assert_eq!(text(padded_number(12345, 3)), "12345");
    assert_eq!(text(padded_number(usize::MAX, 0)), usize::MAX.to_string());
    assert_eq!(text(padded_number(1000, 3)), format!("{:>3}", 1000));
    assert_eq!(text(padded_number(10, 3)), format!("{:>3}", 10));
}

#[test]
fn nothing_uncovered_shows_nothing() {
    let rows = display_uncovered_lines(&uncovered(&[]), &[], &plain());
    assert!(rows.is_empty());
}

#[test]
fn uncovered_lines_are_shown_with_their_text() {
    let set = uncovered(&[("src/a.ts", 4), ("src/a.ts", 2), ("src/a.ts", 1)]);
    let sources = vec![SourceFile {
        path: "src/a.ts".to_string(),
        content: Ok("one();\n  two();  \nthree();\nfour();\n".to_string()),
    }];
    let rows = display_uncovered_lines(&set, &sources, &plain());
    assert_eq!(
        rows,
        vec![
            "".to_string(),
            "\x1b[33m\x1b[1mUncovered lines in patch:\x1b[0m\x1b[39m".to_string(),
            "  \x1b[2msrc/a.ts\x1b[0m".to_string(),
            "  \x1b[2m  1\x1b[0m  \x1b[90m│\x1b[39m \x1b[31mone();\x1b[39m".to_string(),
            "  \x1b[2m  2\x1b[0m  \x1b[90m│\x1b[39m \x1b[31mtwo();\x1b[39m".to_string(),
            "     \x1b[2m···\x1b[0m".to_string(),
            "  \x1b[2m  4\x1b[0m  \x1b[90m│\x1b[39m \x1b[31mfour();\x1b[39m".to_string(),
        ]
    );
}

#[test]
fn hyperlinks_point_to_the_line() {
    let set = uncovered(&[("src/a.ts", 1)]);
    let sources =
        vec![SourceFile { path: "src/a.ts".to_string(), content: Ok("one();\n".to_string()) }];
    let options = RenderOptions { hyperlinks: true, current_dir: "/repo".to_string() };
    let rows = display_uncovered_lines(&set, &sources, &options);
    assert_eq!(
        rows[3],
        "  \x1b]8;;vscode://file//repo/src/a.ts:1\x1b\\\x1b[2m  1\x1b[0m  \x1b[90m│\x1b[39m \x1b[31mone();\x1b[39m\x1b]8;;\x1b\\"
    );
}

#[test]
fn lines_beyond_the_file_are_shown_by_number() {
    let set = uncovered(&[("src/a.ts", 9), ("src/a.ts", 0)]);
    let sources =
        vec![SourceFile { path: "src/a.ts".to_string(), content: Ok("one();\n".to_string()) }];
    let rows = display_uncovered_lines(&set, &sources, &plain());
    assert_eq!(
        rows[3],
        "    \x1b[31m0\x1b[39m: \x1b[31m<LINE CONTENT UNAVAILABLE - INDEX OUT OF BOUNDS>\x1b[39m"
    );
    assert_eq!(rows[4], "     \x1b[2m···\x1b[0m");
    assert_eq!(
        rows[5],
        "    \x1b[31m9\x1b[39m: \x1b[31m<LINE CONTENT UNAVAILABLE - INDEX OUT OF BOUNDS>\x1b[39m"
    );
}

#[test]
fn unread_files_are_shown_with_the_reason() {
    let set = uncovered(&[("src/b.ts", 3), ("src/a.ts", 1), ("src/b.ts", 2)]);
    let sources = vec![SourceFile {
        path: "src/b.ts".to_string(),
        content: Err("permission denied".to_string()),
    }];
    let rows = display_uncovered_lines(&set, &sources, &plain());
    assert_eq!(
        rows[2..],
        [
            "  \x1b[2msrc/b.ts\x1b[0m".to_string(),
            "    \x1b[31m2\x1b[39m: \x1b[31m<COULD NOT READ FILE: permission denied>\x1b[39m"
                .to_string(),
            "    \x1b[31m3\x1b[39m: \x1b[31m<COULD NOT READ FILE: permission denied>\x1b[39m"
                .to_string(),
            "  \x1b[2msrc/a.ts\x1b[0m".to_string(),
            "    \x1b[31m1\x1b[39m: \x1b[31m<COULD NOT READ FILE: file was not loaded>\x1b[39m"
                .to_string(),
        ]
    );
}

#[test]
fn git_status_lines_get_symbols() {
    let shown = format_git_status(" M src/a.ts\n?? new.ts\nA  added.ts\nXY odd\nD\n");
    assert_eq!(
        shown,
        "  \x1b[1m●\x1b[0m src/a.ts\n  \x1b[1m \x1b[0m new.ts\n  \x1b[1m✚\x1b[0m added.ts\n  \x1b[1m \x1b[0m odd\n  D"
    );
    assert_eq!(format_git_status(""), "");
    assert_eq!(format_git_status("? x"), "  \x1b[1m?\x1b[0m x");
    assert_eq!(format_git_status("!  y\r\nU  z"), "  \x1b[1m!\x1b[0m y\n  \x1b[1m⚠\x1b[0m z");
    assert_eq!(
        format_git_status("R  a -> b\nC  c\nD  d"),
        "  \x1b[1m↻\x1b[0m a -> b\n  \x1b[1m⊕\x1b[0m c\n  \x1b[1m✖\x1b[0m d"
    );
}
