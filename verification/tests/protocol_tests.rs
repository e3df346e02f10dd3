use script_kit_core::protocol::Choice;

#[test]
fn test_choice_creation() {
    let choice = Choice::new("Apple".to_string(), "apple".to_string());
    assert_eq!(choice.name, "Apple");
    assert_eq!(choice.value, "apple");
    assert_eq!(choice.description, None);
}

#[test]
fn test_choice_with_description() {
    let choice = Choice::with_description(
        "Apple".to_string(),
        "apple".to_string(),
        "A red fruit".to_string(),
    );
    assert_eq!(choice.name, "Apple");
    assert_eq!(choice.value, "apple");
    assert_eq!(choice.description, Some("A red fruit".to_string()));
}
