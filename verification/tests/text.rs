use predict_os_be::text::{text_after_prefix, text_contains, to_chars};

#[test]
fn text_contains_finds_a_part_anywhere() {
    assert!(text_contains("Bitcoin Up 15m", "Up"));
    assert!(text_contains("Up", "Up"));
    assert!(text_contains("xxUp", "Up"));
    assert!(text_contains("Upxx", "Up"));
    assert!(!text_contains("up", "Up"));
    assert!(!text_contains("U", "Up"));
    assert!(!text_contains("U p", "Up"));
    assert!(!text_contains("", "Up"));
}

#[test]
fn text_contains_the_empty_text() {
    assert!(text_contains("abc", ""));
    assert!(text_contains("", ""));
}

#[test]
fn text_contains_counts_characters_not_bytes() {
    assert!(text_contains("prix à la hausse Up", "Up"));
    assert!(text_contains("日本語のテキスト", "のテ"));
    assert!(!text_contains("日本語のテキスト", "テの"));
    assert!(text_contains("aaab", "aab"));
    assert!(!text_contains("aaab", "aba"));
}

#[test]
fn text_after_prefix_gives_the_rest() {
    assert_eq!(text_after_prefix("/event/will-it-rain", "/event/"), Some("will-it-rain"));
    assert_eq!(text_after_prefix("/event/", "/event/"), Some(""));
    assert_eq!(text_after_prefix("/event", "/event/"), None);
    assert_eq!(text_after_prefix("/trade/x", "/event/"), None);
    assert_eq!(text_after_prefix("x/event/y", "/event/"), None);
    assert_eq!(text_after_prefix("anything", ""), Some("anything"));
    assert_eq!(text_after_prefix("éàü-rest", "éà"), Some("ü-rest"));
}

#[test]
fn text_to_chars_keeps_every_character() {
    assert_eq!(to_chars("aé日"), vec!['a', 'é', '日']);
    assert_eq!(to_chars(""), Vec::<char>::new());
}
