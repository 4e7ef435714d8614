use distillate::replace_last_bsp_with_nbsp;

#[test]
fn replaces_the_last_space_only() {
    assert_eq!(replace_last_bsp_with_nbsp("a b c"), "a b\u{00A0}c");
}

#[test]
fn text_without_space_is_unchanged() {
    assert_eq!(replace_last_bsp_with_nbsp("abc"), "abc");
}

#[test]
fn empty_text_is_unchanged() {
    assert_eq!(replace_last_bsp_with_nbsp(""), "");
}

#[test]
fn single_space_pair_is_glued() {
    assert_eq!(replace_last_bsp_with_nbsp("a b"), "a\u{00A0}b");
}

#[test]
fn trailing_space_is_the_last_space() {
    assert_eq!(replace_last_bsp_with_nbsp("ab "), "ab\u{00A0}");
}

#[test]
fn earlier_spaces_are_kept() {
    assert_eq!(replace_last_bsp_with_nbsp("one two three four"), "one two three\u{00A0}four");
}

#[test]
fn existing_nbsp_is_not_a_space() {
    assert_eq!(replace_last_bsp_with_nbsp("a\u{00A0}b"), "a\u{00A0}b");
}
