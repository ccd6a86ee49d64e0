use wasm_plugin_sdk::plugins::markdown::render_markdown;
use wasm_plugin_sdk::plugins::tag_manager::{extract_tags_internal, keep_tag, TagSet};
use wasm_plugin_sdk::plugins::word_counter::{count_stats, Stats};
use wasm_plugin_sdk::strings::{char_is_whitespace, chars_of, compare_text, same_text, Order};

fn reference_stats(text: &str) -> Stats {
    Stats {
        words: text.split_whitespace().filter(|s| !s.is_empty()).count(),
        characters: text.chars().count(),
        characters_no_spaces: text.chars().filter(|c| !c.is_whitespace()).count(),
        lines: text.lines().count().max(1),
        paragraphs: text.split("\n\n").filter(|s| !s.trim().is_empty()).count().max(1),
    }
}

fn reference_tags(text: &str) -> Vec<String> {
    let mut tags: Vec<String> = Vec::new();
    for word in text.split_whitespace() {
        if word.starts_with('#') && word.len() > 1 {
            let tag = word
                .trim_start_matches('#')
                .trim_end_matches(|c: char| !c.is_alphanumeric() && c != '-' && c != '_')
                .to_lowercase();
            if !tag.is_empty() && !tags.contains(&tag) {
                tags.push(tag);
            }
        }
    }
    tags.sort();
    tags
}

const SAMPLES: [&str; 24] = [
    "",
    " ",
    "\n",
    "\n\n",
    "a",
    "a\n",
    "a\n\n",
    "a\n\n\n",
    "a\n\n\nb",
    "a\n\n\n\nb",
    "a\n \nb",
    "a\r\n\r\nb",
    "\n\na\n\n",
    "Hello world\n\nSecond paragraph",
    "one  two\tthree\u{a0}four\u{2003}five",
    "  leading and trailing  ",
    "#Rust #rust #RUST",
    "#a, #b! ##c #d-e_f. # ## #!? #é #Straße",
    "x#y #z#w #-- #__ #1.",
    "tabs\there\nand\u{85}next\u{2028}line",
    "\n\n\n\n",
    "p1\n\n \n\np2\n\n\t\n\n\n p3",
    "#ΑΣ #ΑΣ. #İ",
    "#tag\u{3000}#other",
];

#[test]
fn word_count_scenario() {
    let stats = count_stats("Hello world\n\nSecond paragraph");
    assert_eq!(stats.words, 4);
    assert_eq!(stats.lines, 3);
    assert_eq!(stats.paragraphs, 2);
    assert_eq!(stats.characters, 29);
    assert_eq!(stats.characters_no_spaces, 29 - 2 - 2);
}

#[test]
fn stats_of_empty_text() {
    assert_eq!(
        count_stats(""),
        Stats { words: 0, characters: 0, characters_no_spaces: 0, lines: 1, paragraphs: 1 }
    );
}

#[test]
fn stats_trailing_newline_ends_the_line() {
    assert_eq!(count_stats("a\n").lines, 1);
    assert_eq!(count_stats("a\nb").lines, 2);
    assert_eq!(count_stats("a\n\n").lines, 2);
}

#[test]
fn stats_paragraphs_need_an_empty_line() {
    assert_eq!(count_stats("a\nb").paragraphs, 1);
    assert_eq!(count_stats("a\n\nb").paragraphs, 2);
    assert_eq!(count_stats("a\n \nb").paragraphs, 1);
    assert_eq!(count_stats("a\n\n\n\nb\n\nc").paragraphs, 3);
    assert_eq!(count_stats("\n\n\n").paragraphs, 1);
}

#[test]
fn stats_agree_with_the_standard_library() {
    for text in SAMPLES {
        assert_eq!(count_stats(text), reference_stats(text), "text {:?}", text);
    }
}

#[test]
fn whitespace_agrees_with_the_standard_library() {
    for code in 0u32..=0x10FFFF {
        if let Some(c) = char::from_u32(code) {
            assert_eq!(char_is_whitespace(c), c.is_whitespace(), "U+{:04X}", code);
        }
    }
}

#[test]
fn duplicate_hashtags_give_one_tag() {
    assert_eq!(extract_tags_internal("#Rust #rust #RUST"), vec!["rust".to_string()]);
}

#[test]
fn tags_are_sorted_and_trimmed() {
    assert_eq!(
        extract_tags_internal("see #zeta, #Alpha! and ##beta. not# this, nor # or #!!"),
        vec!["alpha".to_string(), "beta".to_string(), "zeta".to_string()]
    );
}

#[test]
fn tags_keep_dashes_and_underscores() {
    assert_eq!(
        extract_tags_internal("#a-b_ #_c- #d#e"),
        vec!["_c-".to_string(), "a-b_".to_string(), "d#e".to_string()]
    );
}

#[test]
fn tags_of_text_without_hashtags() {
    assert_eq!(extract_tags_internal("no tags here"), Vec::<String>::new());
    assert_eq!(extract_tags_internal(""), Vec::<String>::new());
}

#[test]
fn tags_agree_with_the_standard_library() {
    for text in SAMPLES {
        assert_eq!(extract_tags_internal(text), reference_tags(text), "text {:?}", text);
    }
}

#[test]
fn tag_set_keeps_order_and_drops_duplicates() {
    let mut set = TagSet::new();
    for tag in ["m", "a", "z", "m", "b", "a"] {
        set.insert(tag.to_string());
    }
    assert_eq!(set.into_vec(), vec!["a", "b", "m", "z"]);
}

#[test]
fn keep_tag_drops_the_empty_tag() {
    let mut set = TagSet::new();
    keep_tag(&mut set, String::new());
    keep_tag(&mut set, "x".to_string());
    keep_tag(&mut set, String::new());
    assert_eq!(set.into_vec(), vec!["x"]);
}

#[test]
fn markdown_scenario() {
    let html = render_markdown("**bold** and ~~strike~~");
    assert!(html.contains("<strong>bold</strong>"));
    assert!(html.contains("<del>strike</del>"));
}

#[test]
fn markdown_exact_html() {
    assert_eq!(render_markdown("# Title"), "<h1>Title</h1>\n");
    assert_eq!(render_markdown(""), "");
}

#[test]
fn markdown_tables_and_task_lists() {
    let table = render_markdown("| a | b |\n|---|---|\n| 1 | 2 |\n");
    assert!(table.contains("<table>"));
    let tasks = render_markdown("- [x] done\n- [ ] open\n");
    assert!(tasks.contains("type=\"checkbox\""));
}

#[test]
fn text_comparison() {
    assert_eq!(compare_text("a", "b"), Order::Before);
    assert_eq!(compare_text("b", "a"), Order::After);
    assert_eq!(compare_text("ab", "ab"), Order::Same);
    assert_eq!(compare_text("a", "ab"), Order::Before);
    assert_eq!(compare_text("", ""), Order::Same);
    assert_eq!(compare_text("z", "é"), Order::Before);
    assert!(same_text("héllo", "héllo"));
    assert!(!same_text("hello", "hellO"));
    assert!(!same_text("a", "ab"));
}

#[test]
fn characters_of_a_text() {
    assert_eq!(chars_of("aé\u{1F600}"), vec!['a', 'é', '\u{1F600}']);
    assert_eq!(chars_of(""), Vec::<char>::new());
}
