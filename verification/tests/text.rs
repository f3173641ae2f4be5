use prerender_hook::text::{chars_of, contains, join, stands_at};

fn chars(text: &str) -> Vec<char> {
    text.chars().collect()
}

fn strings(tokens: &[&str]) -> Vec<String> {
    tokens.iter().map(|token| token.to_string()).collect()
}

#[test]
fn join_puts_one_space_between_tokens() {
    assert_eq!(join(&strings(&[])), "");
    assert_eq!(join(&strings(&["echo"])), "echo");
    assert_eq!(join(&strings(&["echo", "hello"])), "echo hello");
    assert_eq!(join(&strings(&["sh", "-c", "echo a  b"])), "sh -c echo a  b");
    assert_eq!(join(&strings(&["", ""])), " ");
    assert_eq!(join(&strings(&["a", "", "b"])), "a  b");
}

#[test]
fn join_agrees_with_slice_join() {
    let tokens = strings(&["make", "-C", "gen", "all"]);
    assert_eq!(join(&tokens), tokens.join(" "));
}

#[test]
fn chars_of_gives_each_character() {
    assert_eq!(chars_of(""), Vec::<char>::new());
    assert_eq!(chars_of("añ✓"), vec!['a', 'ñ', '✓']);
}

#[test]
fn stands_at_checks_one_offset() {
    let text = chars("abcabc");
    assert!(stands_at(&text, &chars("abc"), 0));
    assert!(stands_at(&text, &chars("abc"), 3));
    assert!(!stands_at(&text, &chars("abc"), 1));
    assert!(!stands_at(&text, &chars("abc"), 4));
    assert!(!stands_at(&text, &chars("abc"), 7));
    assert!(stands_at(&text, &chars(""), 6));
    assert!(!stands_at(&text, &chars(""), 7));
    assert!(!stands_at(&chars("ab"), &chars("abc"), 0));
}

#[test]
fn contains_finds_a_piece_anywhere() {
    assert!(contains(&chars("hello world"), &chars("lo w")));
    assert!(contains(&chars("hello world"), &chars("hello world")));
    assert!(contains(&chars("hello world"), &chars("d")));
    assert!(contains(&chars("hello"), &chars("")));
    assert!(contains(&chars(""), &chars("")));
    assert!(!contains(&chars(""), &chars("a")));
    assert!(!contains(&chars("hello"), &chars("hello!")));
    assert!(!contains(&chars("aab"), &chars("aba")));
    assert!(contains(&chars("aaab"), &chars("aab")));
}
