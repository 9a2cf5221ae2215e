use prisma_rust_schema::transform::{identify_case, to_pascal_case, to_snake_case, Case};

#[test]
fn test_identify_case() {
    assert_eq!(identify_case("hello_world"), Case::Snake);
    assert_eq!(identify_case("HelloWorld"), Case::Pascal);
    assert_eq!(identify_case("helloWorld"), Case::Camel);
    assert_eq!(identify_case("hello-world"), Case::Kebab);
    assert_eq!(identify_case("HELLO_WORLD"), Case::ScreamingSnake);
    assert_eq!(identify_case("helloworld"), Case::Snake);
    assert_eq!(identify_case("hello_world_123"), Case::Snake);
    assert_eq!(identify_case("Hello_World"), Case::Unknown);
}

#[test]
fn test_to_snake_case() {
    assert_eq!(to_snake_case("HelloWorld"), "hello_world");
    assert_eq!(to_snake_case("helloWorld"), "hello_world");
    assert_eq!(to_snake_case("hello_world"), "hello_world");
    assert_eq!(to_snake_case("HELLO_WORLD"), "hello_world");
    assert_eq!(to_snake_case("helloworld"), "helloworld");
}

#[test]
fn test_to_pascal_case() {
    assert_eq!(to_pascal_case("hello_world"), "HelloWorld");
    assert_eq!(to_pascal_case("helloWorld"), "HelloWorld");
    assert_eq!(to_pascal_case("hello-world"), "HelloWorld");
    assert_eq!(to_pascal_case("HELLO_WORLD"), "HelloWorld");
    assert_eq!(to_pascal_case("helloworld"), "Helloworld");
    assert_eq!(to_pascal_case("HelloWorld"), "HelloWorld");
}

#[test]
fn unknown_case_conversions() {
    assert_eq!(identify_case("Hello_World"), Case::Unknown);
    // The boundary walk keeps the underscore and inserts one at the
    // uppercase boundary.
    assert_eq!(to_snake_case("Hello_World"), "hello__world");
    // No confident conversion exists, so Pascal conversion is the identity.
    assert_eq!(to_pascal_case("Hello_World"), "Hello_World");
}

#[test]
fn empty_and_numeric_identifiers() {
    assert_eq!(identify_case(""), Case::Snake);
    assert_eq!(to_snake_case(""), "");
    assert_eq!(to_pascal_case(""), "");
    assert_eq!(identify_case("123"), Case::ScreamingSnake);
    assert_eq!(to_snake_case("123"), "123");
}

#[test]
fn kebab_conversions() {
    assert_eq!(to_snake_case("hello-world"), "hello_world");
    assert_eq!(to_pascal_case("hello-big-world"), "HelloBigWorld");
}
