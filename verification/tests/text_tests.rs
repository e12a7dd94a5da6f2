use engine_bindgen::text::begins;
use engine_bindgen::text::cut;
use engine_bindgen::text::decimal_text;
use engine_bindgen::text::ends;
use engine_bindgen::text::find;
use engine_bindgen::text::has_lowered;
use engine_bindgen::text::holds;
use engine_bindgen::text::join;
use engine_bindgen::text::ordered;
use engine_bindgen::text::parse_i32;
use engine_bindgen::text::replace_all;
use engine_bindgen::text::rfind;
use engine_bindgen::text::same;
use engine_bindgen::text::same_lowered;
use engine_bindgen::text::span_text;
use engine_bindgen::text::split_fields;
use engine_bindgen::text::split_on;
use engine_bindgen::text::split_words;
use engine_bindgen::text::to_chars;
use engine_bindgen::text::trim;

fn strings(items: &[&str]) -> Vec<String> {
    items.iter().map(|s| s.to_string()).collect()
}

#[test]
fn to_chars_gives_each_character() {
    assert_eq!(to_chars("aé€"), vec!['a', 'é', '€']);
    assert_eq!(to_chars(""), Vec::<char>::new());
}

#[test]
fn same_compares_whole_texts() {
    assert!(same("FString", "FString"));
    assert!(!same("FString", "FStrin"));
    assert!(!same("a", "b"));
    assert!(same("", ""));
}

#[test]
fn find_counts_characters_not_bytes() {
    assert_eq!(find("éé//x", "//"), Some(2));
    assert_eq!(find("abcabc", "bc"), Some(1));
    assert_eq!(rfind("abcabc", "bc"), Some(4));
    assert_eq!(find("abc", "x"), None);
    assert_eq!(rfind("abc", "x"), None);
    assert_eq!(find("abc", ""), Some(0));
    assert_eq!(rfind("abc", ""), Some(3));
    assert_eq!(find("ab", "abc"), None);
}

#[test]
fn holds_begins_ends() {
    assert!(holds("class Foo;", ";"));
    assert!(!holds("class Foo", ";"));
    assert!(begins("#define X", "#define"));
    assert!(!begins("x#define", "#define"));
    assert!(ends("virtual void f() = 0;", "= 0;"));
    assert!(!ends("abc", "abcd"));
    assert!(ends("abc", ""));
}

#[test]
fn trim_drops_unicode_white_space_at_both_ends() {
    assert_eq!(trim("  \t a b \r\n"), "a b");
    assert_eq!(trim("\u{a0}x\u{3000}"), "x");
    assert_eq!(trim("   "), "");
    assert_eq!(trim(""), "");
    assert_eq!(trim("x"), "x");
}

#[test]
fn replace_all_goes_left_to_right_without_overlap() {
    assert_eq!(replace_all("aaa", "aa", "b"), "ba");
    assert_eq!(replace_all("a &b &c", " &", "&"), "a&b&c");
    assert_eq!(replace_all("abc", "x", "y"), "abc");
    assert_eq!(replace_all("enum class E", "enum class", "enum"), "enum E");
    assert_eq!(replace_all("abc", "", "y"), "abc");
    assert_eq!(replace_all("a\r\nb", "\r", ""), "a\nb");
}

#[test]
fn split_on_keeps_empty_pieces() {
    assert_eq!(split_on("a,,b", ','), strings(&["a", "", "b"]));
    assert_eq!(split_on("", ','), strings(&[""]));
    assert_eq!(split_on("a,", ','), strings(&["a", ""]));
    assert_eq!(split_on("l1\nl2", '\n'), strings(&["l1", "l2"]));
}

#[test]
fn split_words_drops_empty_pieces_and_fields_keeps_them() {
    assert_eq!(split_words("  const\tint  x "), strings(&["const", "int", "x"]));
    assert_eq!(split_words(""), Vec::<String>::new());
    assert_eq!(split_fields("a  b"), strings(&["a", "", "b"]));
    assert_eq!(split_fields(""), strings(&[""]));
}

#[test]
fn join_puts_the_separator_between() {
    assert_eq!(join(&strings(&["a", "b", "c"]), ", "), "a, b, c");
    assert_eq!(join(&strings(&["a"]), ", "), "a");
    assert_eq!(join(&strings(&[]), ", "), "");
}

#[test]
fn decimal_text_writes_numbers() {
    assert_eq!(decimal_text(0), "0");
    assert_eq!(decimal_text(7), "7");
    assert_eq!(decimal_text(10), "10");
    assert_eq!(decimal_text(1234567890), "1234567890");
    assert_eq!(decimal_text(u64::MAX), "18446744073709551615");
}

#[test]
fn parse_i32_reads_signed_decimal_numerals() {
    assert_eq!(parse_i32("0"), Some(0));
    assert_eq!(parse_i32("42"), Some(42));
    assert_eq!(parse_i32("-42"), Some(-42));
    assert_eq!(parse_i32("+7"), Some(7));
    assert_eq!(parse_i32("2147483647"), Some(i32::MAX));
    assert_eq!(parse_i32("-2147483648"), Some(i32::MIN));
    assert_eq!(parse_i32("2147483648"), None);
    assert_eq!(parse_i32("-2147483649"), None);
    assert_eq!(parse_i32("99999999999999999999"), None);
    assert_eq!(parse_i32(""), None);
    assert_eq!(parse_i32("-"), None);
    assert_eq!(parse_i32("1 "), None);
    assert_eq!(parse_i32("0x10"), None);
    assert_eq!(parse_i32("EFoo::A"), None);
    assert_eq!(parse_i32("000012"), Some(12));
}

#[test]
fn ordered_is_dictionary_order() {
    assert!(ordered("Abc", "Abd"));
    assert!(ordered("Abc", "Abc"));
    assert!(!ordered("Abd", "Abc"));
    assert!(ordered("Ab", "Abc"));
    assert!(!ordered("Abc", "Ab"));
    assert!(ordered("", "a"));
    assert!(ordered("Z", "a"));
}

#[test]
fn span_text_slices_by_byte_offsets() {
    assert_eq!(span_text("float x;", 0, 5), Some("float".to_string()));
    assert_eq!(span_text("é int", 3, 6), Some("int".to_string()));
    assert_eq!(span_text("é int", 1, 6), None);
    assert_eq!(span_text("abc", 2, 1), None);
    assert_eq!(span_text("abc", 1, 4), None);
    assert_eq!(span_text("abc", 3, 3), Some(String::new()));
}

#[test]
fn cut_slices_by_characters() {
    assert_eq!(cut("éabc", 1, 3), "ab");
    assert_eq!(cut("abc", 0, 0), "");
}

#[test]
fn lowered_comparisons_ignore_case_of_basic_letters() {
    assert!(has_lowered("FORCEINLINE", "inline"));
    assert!(has_lowered("forceInline", "inline"));
    assert!(!has_lowered("inlin", "inline"));
    assert!(same_lowered("STATIC", "static"));
    assert!(same_lowered("Virtual", "virtual"));
    assert!(!same_lowered("statics", "static"));
}
