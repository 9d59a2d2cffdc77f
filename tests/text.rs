use advent_of_time::identity::{generate_username, str_to_u64seed, username_from_words};
use advent_of_time::text::{capitalize, markdown_to_html, parse_u32, prettify_error, split_at_colon, str_eq};

#[test]
fn test_str_to_u64seed() {
    let hash = str_to_u64seed("hello world!");
    assert_eq!(16348622334315420128, hash);
}

#[test]
fn seed_depends_on_the_text() {
    assert_eq!(str_to_u64seed("1234"), str_to_u64seed("1234"));
    assert_ne!(str_to_u64seed("1234"), str_to_u64seed("1235"));
}

#[test]
fn generated_name_joins_adjective_and_noun() {
    let nouns = vec!["bun".to_string(), "cat".to_string(), "owl".to_string()];
    let adjectives = vec!["many".to_string(), "shy".to_string()];
    let name = generate_username(42, &nouns, &adjectives).unwrap();
    let (adj, noun) = name.split_once('-').unwrap();
    assert!(adjectives.iter().any(|a| a == adj));
    assert!(nouns.iter().any(|n| n == noun));
    assert_eq!(Some(name), generate_username(42, &nouns, &adjectives));
    assert_eq!(None, generate_username(42, &vec![], &adjectives));
    assert_eq!(None, generate_username(42, &nouns, &vec![]));
    assert_eq!("many-bun", username_from_words("bun", "many"));
}

#[test]
fn capitalize_first_letter() {
    assert_eq!("Hello", capitalize("hello"));
    assert_eq!("", capitalize(""));
    assert_eq!("Éclair", capitalize("éclair"));
    assert_eq!("SSt", capitalize("ßt"));
}

#[test]
fn provider_errors_read_as_sentences() {
    assert_eq!("Access denied", prettify_error("access_denied"));
    assert_eq!("Invalid request uri", prettify_error("invalid_request_uri"));
}

#[test]
fn decimal_parsing_follows_std() {
    assert_eq!(Some(42), parse_u32("42"));
    assert_eq!(Some(7), parse_u32("+7"));
    assert_eq!(Some(0), parse_u32("000"));
    assert_eq!(Some(u32::MAX), parse_u32("4294967295"));
    assert_eq!(None, parse_u32("4294967296"));
    assert_eq!(None, parse_u32(""));
    assert_eq!(None, parse_u32("+"));
    assert_eq!(None, parse_u32("-1"));
    assert_eq!(None, parse_u32("1a"));
    assert_eq!(None, parse_u32(" 1"));
}

#[test]
fn split_at_first_colon() {
    assert_eq!(Some(("1", "2:3")), split_at_colon("1:2:3"));
    assert_eq!(Some(("", "")), split_at_colon(":"));
    assert_eq!(None, split_at_colon("12"));
    assert!(str_eq("abc", "abc"));
    assert!(!str_eq("abc", "abd"));
}

#[test]
fn markdown_subset_becomes_html() {
    assert_eq!(
        Some("see <a href=\"/about\">the rules</a>, <b>now</b> or <i>later</i> with <code>x</code>".to_string()),
        markdown_to_html("see [the rules](/about), **now** or *later* with `x`")
    );
    assert_eq!(Some("plain".to_string()), markdown_to_html("plain"));
}

#[test]
fn capitalize_with_a_given_upper_case() {
    assert_eq!("Hello", advent_of_time::text::capitalize_with("H", "hello"));
    assert_eq!("SSe", advent_of_time::text::capitalize_with("SS", "ße"));
}
