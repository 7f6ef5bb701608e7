use crawlers::hello::{say_hello, say_hello_to};

#[test]
fn test_say_hello() {
    assert_eq!(say_hello(), "Hello, World!");
}

#[test]
fn test_say_hello_to() {
    assert_eq!(say_hello_to("Rust"), "Hello, Rust!");
    assert_eq!(say_hello_to("世界"), "Hello, 世界!");
}
