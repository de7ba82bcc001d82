use codex_session_manager::lines::join;
use codex_session_manager::lines::keep_first_occurrences;
use codex_session_manager::lines::lines;
use codex_session_manager::lines::split_line_ending;
use codex_session_manager::lines::split_segments;
use codex_session_manager::numbers::approx_token_count;
use codex_session_manager::numbers::i64_text;
use codex_session_manager::numbers::u128_text;
use codex_session_manager::numbers::u64_text;
use codex_session_manager::order::sort_texts;
use codex_session_manager::paths::is_same_path;
use codex_session_manager::paths::path_components;
use codex_session_manager::progress::emit_progress;
use codex_session_manager::progress::DistillProgressEvent;
use codex_session_manager::progress::OperationProgressEvent;
use codex_session_manager::search::comes_before;
use codex_session_manager::search::contains_text;
use codex_session_manager::search::has_prefix;
use codex_session_manager::search::has_suffix;
use codex_session_manager::search::lower;
use codex_session_manager::search::take_bytes;
use codex_session_manager::search::trim_char;
use codex_session_manager::search::trim_end_char;
use codex_session_manager::search::truncate_for_brief;
use codex_session_manager::text::is_white_space;
use codex_session_manager::text::normalize_message;
use codex_session_manager::text::trim;

fn words(items: &[&str]) -> Vec<String> {
    items.iter().map(|item| item.to_string()).collect()
}

#[test]
fn white_space_is_that_of_unicode() {
    for code in 0..=0x10FFFF_u32 {
        if let Some(ch) = char::from_u32(code) {
            assert_eq!(is_white_space(ch), ch.is_whitespace(), "{code:x}");
        }
    }
}

#[test]
fn messages_are_put_on_one_line() {
    for text in ["", "  ", "a", "  a  b\n\tc ", "\u{3000}标题\u{a0}x", "a b"] {
        assert_eq!(
            normalize_message(text),
            text.split_whitespace().collect::<Vec<_>>().join(" ")
        );
        assert_eq!(trim(text), text.trim());
        assert_eq!(normalize_message(&normalize_message(text)), normalize_message(text));
    }
}

#[test]
fn numbers_are_written_in_decimal() {
    for value in [0, 7, 10, 4096, u64::MAX] {
        assert_eq!(u64_text(value), value.to_string());
    }
    for value in [0, -1, i64::MIN, i64::MAX] {
        assert_eq!(i64_text(value), value.to_string());
    }
}

#[test]
fn tokens_are_four_bytes() {
    assert_eq!(approx_token_count(""), 0);
    assert_eq!(approx_token_count("a"), 1);
    assert_eq!(approx_token_count("abcd"), 1);
    assert_eq!(approx_token_count("abcde"), 2);
    assert_eq!(approx_token_count("标题"), 2);
}

#[test]
fn texts_are_searched() {
    assert!(contains_text("hello world", "lo w"));
    assert!(contains_text("hello", ""));
    assert!(!contains_text("hello", "world"));
    assert!(has_prefix("hello", "he"));
    assert!(!has_prefix("he", "hello"));
    assert!(has_suffix("hello", "lo"));
    assert_eq!(lower("ZH-cn Ä"), "zh-cn Ä");
    assert_eq!(trim_char("\"\"a\"b\"", '"'), "a\"b");
    assert_eq!(trim_end_char("ZaZZ", 'Z'), "Za");
}

#[test]
fn texts_are_cut_at_characters() {
    assert_eq!(truncate_for_brief("a  b c", 3), "a b…");
    assert_eq!(truncate_for_brief("标题标题", 2), "标题…");
    assert_eq!(take_bytes("abcdef", 4), "abcd");
    assert_eq!(take_bytes("ab", 4), "ab");
    assert_eq!(take_bytes("标题", 3), "标");
    assert_eq!(take_bytes("标题", 4), "标题");
    for count in 0..9 {
        let text = "aä标𝄞b";
        assert_eq!(take_bytes(text, count), text.get(..count).unwrap_or(text));
    }
}

#[test]
fn texts_are_ordered_as_std_orders_them() {
    let items = ["", "a", "ab", "b", "B", "标", "ä", "a b"];
    for left in items {
        for right in items {
            assert_eq!(comes_before(left, right), left < right);
        }
    }
    let mut expected = words(&items);
    expected.sort();
    assert_eq!(sort_texts(&words(&items)), expected);
}

#[test]
fn segments_keep_their_endings() {
    let contents = "a\nb\r\n\nlast";
    assert_eq!(split_segments(contents), words(&["a\n", "b\r\n", "\n", "last"]));
    assert_eq!(split_segments(contents).concat(), contents);
    assert_eq!(split_line_ending("b\r\n"), ("b".to_string(), "\r\n".to_string()));
    assert_eq!(split_line_ending("b\n"), ("b".to_string(), "\n".to_string()));
    assert_eq!(split_line_ending("b"), ("b".to_string(), "".to_string()));
    assert_eq!(lines("a\r\nb\n\nc"), words(&["a", "b", "", "c"]));
    assert_eq!(join(&words(&["a", "b"]), ", "), "a, b");
}

#[test]
fn first_occurrences_are_kept() {
    assert_eq!(keep_first_occurrences(&words(&["b", "a", "b"])), words(&["b", "a"]));
}

#[test]
fn progress_is_heard_where_someone_listens() {
    let event = OperationProgressEvent::Distill(DistillProgressEvent::PreviewReady);
    let mut heard = Some(vec![]);
    emit_progress(&mut heard, event.clone());
    assert_eq!(heard, Some(vec![event.clone()]));
    let mut deaf = None;
    emit_progress(&mut deaf, event);
    assert_eq!(deaf, None);
}

#[test]
fn paths_are_compared_by_their_components() {
    let paths = [
        "", "/", "//", "/.", ".", "./", "..", "a", "./a", "././a", "a/", "a//", "a/.", "a/./b",
        "a//b", "a/b", "a/b/", "/a", "/a/", "//a", "/./a", "/a/../b", "/b", "a.b", ".a", "a/.b",
        "D:/tmp", "D:/tmp/", "标题/会话", "标题//会话",
    ];
    for a in paths {
        for b in paths {
            let same = std::path::Path::new(a) == std::path::Path::new(b);
            assert_eq!(is_same_path(a, b), same, "{a:?} and {b:?}");
        }
        let components = std::path::Path::new(a)
            .components()
            .map(|component| component.as_os_str().to_str().unwrap().to_string())
            .collect::<Vec<_>>();
        assert_eq!(path_components(a), components, "{a:?}");
    }
    assert!(is_same_path("/a/", "/a"));
    assert!(!is_same_path("./a", "a"));
}

#[test]
fn large_numbers_are_written_out() {
    assert_eq!(u128_text(0), "0");
    assert_eq!(u128_text(u64::MAX as u128 + 1), "18446744073709551616");
}
