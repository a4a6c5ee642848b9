use dictation::headings::{extract_headings, split_lines};

#[test]
fn lines_split_like_the_standard_reader() {
    assert_eq!(split_lines(""), Vec::<String>::new());
    assert_eq!(split_lines("a"), vec!["a"]);
    assert_eq!(split_lines("a\n"), vec!["a"]);
    assert_eq!(split_lines("a\nb"), vec!["a", "b"]);
    assert_eq!(split_lines("a\r\nb\r\n"), vec!["a", "b"]);
    assert_eq!(split_lines("a\n\nb"), vec!["a", "", "b"]);
    // A carriage return not followed by a line feed stays.
    assert_eq!(split_lines("a\rb"), vec!["a\rb"]);
}

#[test]
fn headings_carry_level_text_and_index() {
    let md = "# Title\n\nsome text\n\n## Section one\n### Deep\n";
    let hs = extract_headings(md);
    assert_eq!(hs.len(), 3);
    assert_eq!(hs[0].level, 1);
    assert_eq!(hs[0].text, "Title");
    assert_eq!(hs[0].index, 0);
    assert_eq!(hs[1].level, 2);
    assert_eq!(hs[1].text, "Section one");
    assert_eq!(hs[1].index, 1);
    assert_eq!(hs[2].level, 3);
    assert_eq!(hs[2].text, "Deep");
    assert_eq!(hs[2].index, 2);
}

#[test]
fn fenced_code_hides_its_headings() {
    let md = "# Real\n```\n# not a heading\n```\n## After\n";
    let hs = extract_headings(md);
    assert_eq!(hs.len(), 2);
    assert_eq!(hs[0].text, "Real");
    assert_eq!(hs[1].text, "After");
}

#[test]
fn only_levels_one_to_four_count() {
    let md = "##### five\n#### four\n";
    let hs = extract_headings(md);
    assert_eq!(hs.len(), 1);
    assert_eq!(hs[0].level, 4);
    assert_eq!(hs[0].text, "four");
}

#[test]
fn bare_or_empty_marks_are_not_headings() {
    let md = "##\n#   \n# ok\n";
    let hs = extract_headings(md);
    assert_eq!(hs.len(), 1);
    assert_eq!(hs[0].text, "ok");
}

#[test]
fn indented_headings_are_trimmed_first() {
    let md = "   ## padded heading   \n";
    let hs = extract_headings(md);
    assert_eq!(hs.len(), 1);
    assert_eq!(hs[0].level, 2);
    assert_eq!(hs[0].text, "padded heading");
}
