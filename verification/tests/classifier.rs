use zedc::classify::{classify, is_line_entirely_comment, is_line_in_block_comment, LineKind};

fn lines(src: &[&str]) -> Vec<String> {
    src.iter().map(|s| s.to_string()).collect()
}

#[test]
fn line_comment_is_entirely_comment() {
    assert!(is_line_entirely_comment("   // hello"));
    assert!(is_line_entirely_comment("//"));
    assert!(!is_line_entirely_comment("let x = 1; // trailing"));
}

#[test]
fn block_comment_on_one_line_is_entirely_comment() {
    assert!(is_line_entirely_comment("  /* note */  "));
    assert!(is_line_entirely_comment("/**/"));
    assert!(!is_line_entirely_comment("/*/"));
    assert!(!is_line_entirely_comment("/* open"));
    assert!(!is_line_entirely_comment("close */"));
}

#[test]
fn block_comment_spans_lines() {
    let file = lines(&["let a = 1;", "/* start", "middle", "end */", "let b = 2;"]);
    assert!(!is_line_in_block_comment(&file, 0));
    assert!(is_line_in_block_comment(&file, 1));
    assert!(is_line_in_block_comment(&file, 2));
    assert!(is_line_in_block_comment(&file, 3));
    assert!(!is_line_in_block_comment(&file, 4));
    assert!(!is_line_in_block_comment(&file, 5));
}

#[test]
fn classify_kinds() {
    let file = lines(&["", "  \t ", "// c", "code();", "/* a", "b */ x();", "y();"]);
    assert_eq!(classify(&file, 0), Some(LineKind::Blank));
    assert_eq!(classify(&file, 1), Some(LineKind::Blank));
    assert_eq!(classify(&file, 2), Some(LineKind::CommentOnly));
    assert_eq!(classify(&file, 3), Some(LineKind::Executable));
    assert_eq!(classify(&file, 4), Some(LineKind::InBlockComment));
    assert_eq!(classify(&file, 5), Some(LineKind::InBlockComment));
    assert_eq!(classify(&file, 6), Some(LineKind::Executable));
    assert_eq!(classify(&file, 7), None);
}

#[test]
fn comment_markers_inside_double_quoted_strings_do_not_count() {
    let file = lines(&["let s = \"/* not a comment\";", "code();", "let t = \"*/\";"]);
    assert!(!is_line_in_block_comment(&file, 0));
    assert!(!is_line_in_block_comment(&file, 1));
    assert!(!is_line_in_block_comment(&file, 2));
}

#[test]
fn escaped_quotes_do_not_end_a_string() {
    let file = lines(&["let s = \"a \\\" /* still a string\";", "code();"]);
    assert!(!is_line_in_block_comment(&file, 0));
    assert!(!is_line_in_block_comment(&file, 1));
    let file = lines(&["let s = \"a \\\\\"; /* comment", "inside", "*/ code();"]);
    assert!(is_line_in_block_comment(&file, 0));
    assert!(is_line_in_block_comment(&file, 1));
    assert!(is_line_in_block_comment(&file, 2));
}

#[test]
fn single_quoted_strings_are_not_tracked() {
    let file = lines(&["let s = '/*';", "code();", "let t = '*/';", "more();"]);
    assert!(is_line_in_block_comment(&file, 0));
    assert!(is_line_in_block_comment(&file, 1));
    assert!(is_line_in_block_comment(&file, 2));
    assert!(!is_line_in_block_comment(&file, 3));
}

#[test]
fn line_comment_hides_the_rest_of_the_line() {
    let file = lines(&["code(); // note /* not opened", "next();", "x = \"a\"; // \" /*", "y();"]);
    assert!(!is_line_in_block_comment(&file, 0));
    assert!(!is_line_in_block_comment(&file, 1));
    assert!(!is_line_in_block_comment(&file, 2));
    assert!(!is_line_in_block_comment(&file, 3));
}

#[test]
fn quotes_inside_block_comments_do_not_open_strings() {
    let file = lines(&["/* say \"hi", "*/ code(); /* again */", "after();"]);
    assert!(is_line_in_block_comment(&file, 0));
    assert!(is_line_in_block_comment(&file, 1));
    assert!(!is_line_in_block_comment(&file, 2));
}

#[test]
fn block_comment_opened_and_closed_on_a_line_with_code() {
    let file = lines(&["a(); /* note */ b();", "c();"]);
    assert!(is_line_in_block_comment(&file, 0));
    assert_eq!(classify(&file, 0), Some(LineKind::InBlockComment));
    assert_eq!(classify(&file, 1), Some(LineKind::Executable));
}

#[test]
fn slash_star_slash_is_one_opening() {
    let file = lines(&["/*/", "inside", "*/", "code();"]);
    assert!(!is_line_entirely_comment(&file[0]));
    assert!(is_line_in_block_comment(&file, 0));
    assert!(is_line_in_block_comment(&file, 1));
    assert!(is_line_in_block_comment(&file, 2));
    assert!(!is_line_in_block_comment(&file, 3));
}

#[test]
fn unicode_white_space_is_blank() {
    let file = lines(&["\u{a0}\u{2003}\t", "\u{a0}// c\u{3000}", "\u{a0}x();"]);
    assert_eq!(classify(&file, 0), Some(LineKind::Blank));
    assert_eq!(classify(&file, 1), Some(LineKind::CommentOnly));
    assert_eq!(classify(&file, 2), Some(LineKind::Executable));
}
