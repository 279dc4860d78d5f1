use tagged_values::text::borrow_and_modify;
use tagged_values::text::borrow_string;
use tagged_values::text::create_user;
use tagged_values::text::first_word;
use tagged_values::text::greet;
use tagged_values::text::i32_to_string;
use tagged_values::text::longest;
use tagged_values::text::take_ownership;
use tagged_values::text::u32_to_string;

#[test]
fn unsigned_rendering_matches_decimal() {
    assert_eq!(u32_to_string(0), "0");
    assert_eq!(u32_to_string(7), "7");
    assert_eq!(u32_to_string(10), "10");
    assert_eq!(u32_to_string(12345), "12345");
    assert_eq!(u32_to_string(u32::MAX), "4294967295");
}

#[test]
fn signed_rendering_adds_the_sign() {
    assert_eq!(i32_to_string(0), "0");
    assert_eq!(i32_to_string(42), "42");
    assert_eq!(i32_to_string(-42), "-42");
    assert_eq!(i32_to_string(i32::MIN), "-2147483648");
    assert_eq!(i32_to_string(i32::MAX), "2147483647");
}

#[test]
fn greet_wraps_the_name() {
    assert_eq!(greet("World"), "Hello, World!");
    assert_eq!(greet(""), "Hello, !");
}

#[test]
fn create_user_reports_a_missing_age_as_unknown() {
    assert_eq!(create_user("Alice".to_string(), Some(25)), "Alice, age 25");
    assert_eq!(create_user("Bob".to_string(), None), "Bob, age unknown");
}

#[test]
fn ownership_helpers_report_the_length() {
    assert_eq!(take_ownership("hello".to_string()), 5);
    assert_eq!(borrow_string(&"hello".to_string()), 5);
    assert_eq!(take_ownership(String::new()), 0);
}

#[test]
fn borrow_and_modify_appends_the_marker() {
    let mut s = "draft".to_string();
    borrow_and_modify(&mut s);
    assert_eq!(s, "draft (modified)");
}

#[test]
fn first_word_stops_at_the_first_space() {
    assert_eq!(first_word("hello world"), "hello");
    assert_eq!(first_word("hello"), "hello");
    assert_eq!(first_word(" leading"), "");
    assert_eq!(first_word(""), "");
    assert_eq!(first_word("a b c"), "a");
}

#[test]
fn first_word_handles_non_ascii_text() {
    assert_eq!(first_word("héllo wörld"), "héllo");
    assert_eq!(first_word("héllo"), "héllo");
}

#[test]
fn longest_prefers_the_first_on_a_tie() {
    assert_eq!(longest("abcd", "xy"), "abcd");
    assert_eq!(longest("xy", "abcd"), "abcd");
    assert_eq!(longest("ab", "cd"), "ab");
}

#[test]
fn rendering_is_repeatable() {
    assert_eq!(i32_to_string(-987), i32_to_string(-987));
    assert_eq!(greet("twice"), greet("twice"));
}
