use exercises::greeting;

#[test]
fn greeting_is_the_same_for_everyone() {
    assert_eq!(greeting("Carol"), "Hello!");
    assert_eq!(greeting(""), "Hello!");
    assert_eq!(greeting("Hello!"), "Hello!");
}

#[test]
fn greeting_does_not_name_the_person() {
    assert!(!greeting("Carol").contains("Carol"));
}
