use orchepy::number::Comparison;
use orchepy::text::{
    contains, copy_pairs, decimal, find, find_name, has_name, occurs_at_index, order_texts, slice,
    split_dots, strip_prefix, strip_suffix, text_equal,
};

#[test]
fn split_dots_keeps_empty_pieces() {
    assert_eq!(split_dots("data.a.b"), vec!["data", "a", "b"]);
    assert_eq!(split_dots("status"), vec!["status"]);
    assert_eq!(split_dots(""), vec![""]);
    assert_eq!(split_dots("a."), vec!["a", ""]);
    assert_eq!(split_dots(".a"), vec!["", "a"]);
    assert_eq!(split_dots("a..b"), vec!["a", "", "b"]);
    assert_eq!(split_dots("données.clé"), vec!["données", "clé"]);
}

#[test]
fn split_dots_agrees_with_std() {
    for text in ["", ".", "..", "a.b.c", "data.", "x.yy.zzz.", "no dots"] {
        let expected: Vec<String> = text.split('.').map(|s| s.to_string()).collect();
        assert_eq!(split_dots(text), expected);
    }
}

#[test]
fn find_gives_the_first_occurrence() {
    assert_eq!(find("a${b}${c}", 0, "${"), Some(1));
    assert_eq!(find("a${b}${c}", 2, "${"), Some(5));
    assert_eq!(find("a${b}${c}", 6, "${"), None);
    assert_eq!(find("abc", 0, ""), Some(0));
    assert_eq!(find("abc", 3, ""), Some(3));
    assert_eq!(find("abc", 4, ""), None);
    assert_eq!(find("", 0, "a"), None);
    assert_eq!(find("héllo}", 0, "}"), Some(5));
}

#[test]
fn occurrence_and_equality() {
    assert!(occurs_at_index("hello", 1, "ell"));
    assert!(!occurs_at_index("hello", 2, "ell"));
    assert!(!occurs_at_index("hello", 4, "lo"));
    assert!(occurs_at_index("hello", 5, ""));
    assert!(!occurs_at_index("hello", 6, ""));
    assert!(text_equal("", ""));
    assert!(text_equal("abc", "abc"));
    assert!(!text_equal("abc", "abd"));
    assert!(!text_equal("abc", "ab"));
}

#[test]
fn contains_agrees_with_std() {
    let cases = [
        ("user@company.com", "@company.com"),
        ("user@company.com", "@other.com"),
        ("Urgent: Please review ASAP", "Urgent"),
        ("abc", ""),
        ("", ""),
        ("", "a"),
        ("aaa", "aaaa"),
    ];
    for (text, pattern) in cases {
        assert_eq!(contains(text, pattern), text.contains(pattern));
    }
}

#[test]
fn stripping() {
    assert_eq!(strip_suffix("amount_gt", "_gt"), Some("amount".to_string()));
    assert_eq!(strip_suffix("amount_gte", "_gt"), None);
    assert_eq!(strip_suffix("_gt", "_gt"), Some("".to_string()));
    assert_eq!(strip_suffix("gt", "_gt"), None);
    assert_eq!(strip_prefix("event.data.id", "event.data."), Some("id".to_string()));
    assert_eq!(strip_prefix("event.id", "event.data."), None);
    assert_eq!(strip_prefix("${x}", "${"), Some("x}".to_string()));
    assert_eq!(slice("héllo", 1, 3), "él");
}

#[test]
fn decimal_rendering() {
    assert_eq!(decimal(0), "0");
    assert_eq!(decimal(7), "7");
    assert_eq!(decimal(10), "10");
    assert_eq!(decimal(500), "500");
    assert_eq!(decimal(60_000), "60000");
    assert_eq!(decimal(u64::MAX), u64::MAX.to_string());
}

#[test]
fn texts_order_character_by_character() {
    assert_eq!(order_texts("a", "b"), Comparison::Less);
    assert_eq!(order_texts("b", "a"), Comparison::Greater);
    assert_eq!(order_texts("abc", "abc"), Comparison::Equal);
    assert_eq!(order_texts("ab", "abc"), Comparison::Less);
    assert_eq!(order_texts("abc", "ab"), Comparison::Greater);
    assert_eq!(order_texts("", ""), Comparison::Equal);
    assert_eq!(order_texts("10", "2"), Comparison::Less);
    assert_eq!(order_texts("Z", "a"), Comparison::Less);
    assert_eq!(order_texts("é", "z"), Comparison::Greater);
}

#[test]
fn texts_order_as_std_orders_them() {
    let words = ["", "a", "ab", "b", "B", "é", "z", "zz", "10", "2", "日本"];
    for a in words {
        for b in words {
            let expected = match a.cmp(b) {
                std::cmp::Ordering::Less => Comparison::Less,
                std::cmp::Ordering::Equal => Comparison::Equal,
                std::cmp::Ordering::Greater => Comparison::Greater,
            };
            assert_eq!(order_texts(a, b), expected);
        }
    }
}

#[test]
fn names_in_lists() {
    let names = vec!["New".to_string(), "Review".to_string(), "New".to_string()];
    assert_eq!(find_name(&names, "New"), Some(0));
    assert_eq!(find_name(&names, "Review"), Some(1));
    assert_eq!(find_name(&names, "Done"), None);
    assert!(has_name(&names, "Review"));
    assert!(!has_name(&names, "review"));
    assert!(!has_name(&vec![], "Review"));
    let pairs = vec![("a".to_string(), "b".to_string())];
    assert_eq!(copy_pairs(&pairs), pairs);
}
