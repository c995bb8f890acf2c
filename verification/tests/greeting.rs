use constraint_resolver::greeting::greet;

#[test]
fn greets_by_name() {
    assert_eq!(greet("World"), "Hello, World!");
    assert_eq!(greet("wasm"), "Hello, wasm!");
}

#[test]
fn greets_the_empty_name() {
    assert_eq!(greet(""), "Hello, !");
}

#[test]
fn keeps_the_name_as_given() {
    assert_eq!(greet("Zoë, {}"), "Hello, Zoë, {}!");
}
