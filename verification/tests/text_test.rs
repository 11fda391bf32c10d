use usermon::text::{
    contains_str, find_char_str, push_decimal, split_char_str, split_pair_str,
    split_whitespace_str, str_eq, strip_suffix_str, trim_end_char_str, trim_str,
};

#[test]
fn text_operations_agree_with_std() {
    for s in ["", "  a b  ", "\u{a0}x\u{2003}", "///", "a/b//", "héllo wörld", "\t\r\n"] {
        assert_eq!(trim_str(s), s.trim());
        assert_eq!(trim_end_char_str(s, '/'), s.trim_end_matches('/'));
        assert_eq!(split_whitespace_str(s), s.split_whitespace().collect::<Vec<_>>());
        assert_eq!(split_char_str(s, '/'), s.split('/').collect::<Vec<_>>());
        assert_eq!(find_char_str(s, 'b').is_some(), s.find('b').is_some());
        assert_eq!(contains_str(s, "b"), s.contains("b"));
        assert_eq!(strip_suffix_str(s, "//"), s.strip_suffix("//"));
    }
    assert_eq!(find_char_str("a?b?c", '?'), Some(1));
    assert!(str_eq("abc", "abc"));
    assert!(!str_eq("abc", "abd"));
    assert_eq!(split_pair_str("k=v=w", '='), ("k".to_string(), "v=w".to_string()));
    assert_eq!(split_pair_str("k", '='), ("k".to_string(), String::new()));
    let mut s = String::from("n=");
    push_decimal(&mut s, 0);
    push_decimal(&mut s, 1234567890);
    assert_eq!(s, "n=01234567890");
    assert_eq!(contains_str("abc", ""), true);
}
