use window_shell::greeting::{greet, GREETING_PREFIX, GREETING_SUFFIX};

#[test]
fn greets_world() {
    assert_eq!(greet("World"), "Hello, World! You've been greeted from Rust!");
}

#[test]
fn greets_the_empty_name() {
    assert_eq!(greet(""), "Hello, ! You've been greeted from Rust!");
}

#[test]
fn greeting_keeps_the_name_as_given() {
    assert_eq!(
        greet("  Grace Hopper\n"),
        "Hello,   Grace Hopper\n! You've been greeted from Rust!"
    );
    assert_eq!(greet("{}"), "Hello, {}! You've been greeted from Rust!");
    assert_eq!(greet("Zoë 🦀"), "Hello, Zoë 🦀! You've been greeted from Rust!");
}

#[test]
fn greeting_is_prefix_name_suffix() {
    for name in ["", "a", "World", "日本語", "! You've been greeted from Rust!"] {
        let greeting = greet(name);
        assert_eq!(greeting, format!("{}{}{}", GREETING_PREFIX, name, GREETING_SUFFIX));
        assert_eq!(
            greeting.chars().count(),
            GREETING_PREFIX.chars().count() + name.chars().count() + GREETING_SUFFIX.chars().count()
        );
        assert!(greeting.starts_with(GREETING_PREFIX));
        assert!(greeting.ends_with(GREETING_SUFFIX));
        assert_eq!(&greeting[GREETING_PREFIX.len()..GREETING_PREFIX.len() + name.len()], name);
    }
}

#[test]
fn greeting_text_around_the_name_is_fixed() {
    assert_eq!(GREETING_PREFIX, "Hello, ");
    assert_eq!(GREETING_SUFFIX, "! You've been greeted from Rust!");
}

#[test]
fn greeting_a_name_twice_gives_the_same_text() {
    assert_eq!(greet("World"), greet("World"));
    assert_ne!(greet("World"), greet("world"));
}
