use database_introspection::{Breach, Enum, IntrospectionError, Violation};

fn names(list: &[&str]) -> Vec<String> {
    list.iter().map(|s| s.to_string()).collect()
}

#[test]
fn new_keeps_each_value_once_where_it_came_first() {
    let made = Enum::new("mood".to_string(), names(&["b", "a", "b", "c", "a"]));
    assert_eq!(made.name, "mood");
    assert_eq!(made.values, names(&["b", "a", "c"]));
    assert_eq!(made.check(), Ok(()));
    let empty = Enum::new("none".to_string(), vec![]);
    assert!(empty.values.is_empty());
}

#[test]
fn equality_ignores_the_order_of_values() {
    let one = Enum::new("mood".to_string(), names(&["sad", "ok", "happy"]));
    let two = Enum::new("mood".to_string(), names(&["happy", "sad", "ok"]));
    assert_eq!(one, two);
    assert_ne!(one, Enum::new("mood".to_string(), names(&["sad", "ok"])));
    assert_ne!(one, Enum::new("mood".to_string(), names(&["sad", "ok", "happy", "glad"])));
    assert_ne!(one, Enum::new("feeling".to_string(), names(&["sad", "ok", "happy"])));
    assert_ne!(one, Enum::new("mood".to_string(), names(&["sad", "ok", "Happy"])));
}

#[test]
fn insert_adds_a_new_value_only() {
    let mut mood = Enum { name: "mood".to_string(), values: vec![] };
    assert!(mood.insert("sad".to_string()));
    assert!(mood.insert("happy".to_string()));
    assert!(!mood.insert("sad".to_string()));
    assert_eq!(mood.values, names(&["sad", "happy"]));
    assert!(mood.contains("sad"));
    assert!(mood.contains("happy"));
    assert!(!mood.contains("Sad"));
    assert!(!mood.contains(""));
}

#[test]
fn a_repeated_value_breaks_the_rule() {
    let twice = Enum { name: "mood".to_string(), values: names(&["a", "a"]) };
    assert_eq!(
        twice.check(),
        Err(IntrospectionError::InvariantViolation(Breach {
            rule: Violation::DuplicateEnumValue,
            within: Some("mood".to_string()),
            name: "a".to_string(),
        }))
    );
    // as a set it still equals the enum that lists the value once
    assert_eq!(twice, Enum::new("mood".to_string(), names(&["a"])));
}
