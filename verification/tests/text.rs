use greeter::text::{acknowledge, greet, unknown};

#[test]
fn greet_wraps_the_text_in_hello_and_a_bang() {
    assert_eq!(greet("World"), "Hello World!");
    assert_eq!(greet("Ada"), "Hello Ada!");
}

#[test]
fn greet_accepts_the_empty_text() {
    assert_eq!(greet(""), "Hello !");
}

#[test]
fn greet_keeps_spaces_and_marks_as_they_are() {
    assert_eq!(greet("  "), "Hello   !");
    assert_eq!(greet("a!b"), "Hello a!b!");
    assert_eq!(greet("Hello "), "Hello Hello !");
    assert_eq!(greet("line\nbreak"), "Hello line\nbreak!");
}

#[test]
fn greet_keeps_text_beyond_ascii() {
    assert_eq!(greet("Zoë"), "Hello Zoë!");
    assert_eq!(greet("名前"), "Hello 名前!");
    assert_eq!(greet("🦀"), "Hello 🦀!");
}

#[test]
fn greet_adds_seven_characters() {
    for who in ["", "x", "Grace Hopper", "名前"] {
        assert_eq!(greet(who).chars().count(), who.chars().count() + 7);
    }
}

#[test]
fn acknowledge_is_nice_name() {
    assert_eq!(acknowledge(), "Nice name!");
}

#[test]
fn unknown_is_the_initial_name() {
    assert_eq!(unknown(), "Unknown");
}
