use sonor::utils::escape_str_pcdata;

#[test]
fn escape_test_escape_multibyte_code_points() {
    assert_eq!(escape_str_pcdata("☃<"), "☃&lt;");
}

#[test]
fn utils_test_escape_multibyte_code_points() {
    assert_eq!(escape_str_pcdata("☃<"), "☃&lt;");
}

#[test]
fn test_escape_ampersand_and_less_than() {
    assert_eq!(escape_str_pcdata("a&b<c"), "a&amp;b&lt;c");
}

#[test]
fn test_escape_leaves_plain_text_alone() {
    assert_eq!(escape_str_pcdata("abc"), "abc");
}

#[test]
fn test_escape_empty_string() {
    assert_eq!(escape_str_pcdata(""), "");
}
