use prerender_hook::extract::{extract_fragment, fragment_from_search, holds_key, HOOK_KEY, HOOK_PATTERN};

fn fragment(document: &str) -> String {
    extract_fragment(document).expect("the engine answers for a small document")
}

#[test]
fn document_without_key_has_empty_fragment() {
    assert_eq!(fragment("image: alpine\nshell: bash\n"), "");
    assert_eq!(fragment(""), "");
    assert_eq!(fragment("pre_render_hook\n  - echo\n"), "");
}

#[test]
fn two_item_block_is_isolated_exactly() {
    let document = "image: alpine\npre_render_hook:\n  - echo\n  - hello\nshell: bash\nmount: /src\n";
    assert_eq!(fragment(document), "pre_render_hook:\n  - echo\n  - hello");
}

#[test]
fn block_at_end_of_document_is_isolated() {
    assert_eq!(
        fragment("pre_render_hook:\n  - echo\n  - hello"),
        "pre_render_hook:\n  - echo\n  - hello"
    );
    assert_eq!(
        fragment("pre_render_hook:\n  - echo\n  - hello\n"),
        "pre_render_hook:\n  - echo\n  - hello"
    );
}

#[test]
fn surrounding_text_need_not_be_yaml() {
    let document = "{% if x %}\nimage: {{ name }}\n{% endif %}\npre_render_hook:\n  - make\n{{ tail }}\n";
    assert_eq!(fragment(document), "pre_render_hook:\n  - make");
}

#[test]
fn extracting_twice_gives_identical_fragments() {
    let document = "a: 1\n  pre_render_hook:\n    - gen\n    - \"two words\"\nb: 2\n";
    let first = fragment(document);
    let second = fragment(document);
    assert_eq!(first, "  pre_render_hook:\n    - gen\n    - \"two words\"");
    assert_eq!(first.as_bytes(), second.as_bytes());
}

#[test]
fn items_indented_less_than_key_end_the_block() {
    assert_eq!(fragment("    pre_render_hook:\n  - echo\n  - hello\n"), "    pre_render_hook:");
    assert_eq!(fragment("  pre_render_hook:\n - echo\n"), "  pre_render_hook:");
    assert_eq!(fragment(" pre_render_hook:\n- echo\n"), " pre_render_hook:");
}

#[test]
fn items_at_key_indentation_continue_the_block() {
    assert_eq!(
        fragment("pre_render_hook:\n- echo\n- hello\nshell: bash\n"),
        "pre_render_hook:\n- echo\n- hello"
    );
    assert_eq!(
        fragment("  pre_render_hook:\n  - echo\n  - hello\n  shell: bash\n"),
        "  pre_render_hook:\n  - echo\n  - hello"
    );
}

#[test]
fn line_at_key_indentation_without_dash_ends_the_block() {
    assert_eq!(
        fragment("  pre_render_hook:\n    - echo\n  other:\n    - nested\n"),
        "  pre_render_hook:\n    - echo"
    );
}

#[test]
fn deeper_lines_continue_the_block() {
    let document = "pre_render_hook:\n  - sh\n  - -c\n  - |\n      echo one\n      echo two\nnext: 1\n";
    assert_eq!(
        fragment(document),
        "pre_render_hook:\n  - sh\n  - -c\n  - |\n      echo one\n      echo two"
    );
}

#[test]
fn marker_without_content_ends_the_block() {
    assert_eq!(fragment("pre_render_hook:\n  - echo\n-\n  - late\n"), "pre_render_hook:\n  - echo");
}

#[test]
fn value_on_the_key_line_is_kept() {
    assert_eq!(
        fragment("pre_render_hook: [echo, hello]\nshell: bash\n"),
        "pre_render_hook: [echo, hello]"
    );
}

#[test]
fn only_first_declaration_is_taken() {
    let document = "pre_render_hook:\n  - first\nx: 1\npre_render_hook:\n  - second\n";
    assert_eq!(fragment(document), "pre_render_hook:\n  - first");
}

#[test]
fn key_after_other_text_on_its_line_is_no_declaration() {
    assert!(holds_key("note: see pre_render_hook: below\n"));
    assert_eq!(fragment("note: see pre_render_hook: below\n"), "");
    assert_eq!(fragment("# pre_render_hook:\n#   - echo\n"), "");
}

#[test]
fn holds_key_looks_for_the_key_with_its_colon() {
    assert!(holds_key("pre_render_hook:"));
    assert!(holds_key("a\n   pre_render_hook: x"));
    assert!(!holds_key("pre_render_hook"));
    assert!(!holds_key("pre_render_hooks: []"));
    assert!(!holds_key("Pre_Render_Hook:"));
    assert!(!holds_key(""));
}

#[test]
fn key_and_pattern_are_as_documented() {
    assert_eq!(HOOK_KEY, "pre_render_hook:");
    assert_eq!(HOOK_PATTERN, "(?m)^([ \\t]*)pre_render_hook:.*(\\n\\1[ \\t\\-].+$)*");
}

#[test]
fn fragment_from_search_maps_each_answer() {
    assert_eq!(
        fragment_from_search(Ok(Some(String::from("pre_render_hook: []")))),
        Some(String::from("pre_render_hook: []"))
    );
    assert_eq!(fragment_from_search(Ok(None)), Some(String::new()));
    let refused = fancy_regex::Regex::new("(").map(|_| ()).unwrap_err();
    assert_eq!(fragment_from_search(Err(refused)), None);
}

#[test]
fn non_ascii_text_is_kept_as_it_is() {
    let document = "título: añejo\npre_render_hook:\n  - echo\n  - \"héllo wörld ✓\"\nfin: sí\n";
    assert_eq!(fragment(document), "pre_render_hook:\n  - echo\n  - \"héllo wörld ✓\"");
}

#[test]
fn blank_line_below_unindented_block_ends_it() {
    let document = "pre_render_hook:\n  - echo\n  - hello\n\nimage: foo\nshell: bash\n";
    assert_eq!(fragment(document), "pre_render_hook:\n  - echo\n  - hello");
    assert_eq!(
        fragment("pre_render_hook:\n- echo\n\n- late\n"),
        "pre_render_hook:\n- echo"
    );
}

#[test]
fn blank_line_below_indented_block_ends_it() {
    assert_eq!(
        fragment("  pre_render_hook:\n  - echo\n\n  image: foo\n"),
        "  pre_render_hook:\n  - echo"
    );
}

#[test]
fn blank_lines_above_the_key_are_no_part_of_its_indentation() {
    assert_eq!(
        fragment("\n\n  pre_render_hook:\n    - echo\n"),
        "  pre_render_hook:\n    - echo"
    );
    assert_eq!(
        fragment("image: ubuntu\n\npre_render_hook:\n  - echo\n  - hello\n"),
        "pre_render_hook:\n  - echo\n  - hello"
    );
    assert_eq!(
        fragment("image: ubuntu\n\n\n\tpre_render_hook:\n\t- echo\n\t  continued\nnext: 1\n"),
        "\tpre_render_hook:\n\t- echo\n\t  continued"
    );
}

#[test]
fn line_of_blanks_inside_the_block_continues_it() {
    assert_eq!(
        fragment("pre_render_hook:\n  - echo\n   \n  - hello\nnext: 1\n"),
        "pre_render_hook:\n  - echo\n   \n  - hello"
    );
}

#[test]
fn indentation_is_compared_blank_for_blank() {
    assert_eq!(fragment("\tpre_render_hook:\n  - echo\n"), "\tpre_render_hook:");
    assert_eq!(fragment("  pre_render_hook:\n\t\t- echo\n"), "  pre_render_hook:");
    assert_eq!(fragment(" \tpre_render_hook:\n \t- echo\n"), " \tpre_render_hook:\n \t- echo");
}

#[test]
fn carriage_returns_stay_in_the_fragment() {
    assert_eq!(
        fragment("pre_render_hook:\r\n  - echo\r\nnext: 1\r\n"),
        "pre_render_hook:\r\n  - echo\r"
    );
}
