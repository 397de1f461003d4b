use sendflare_sdk::Attributes;

fn pairs_of(attributes: &Attributes) -> Vec<(&str, &str)> {
    attributes.pairs().iter().map(|(k, v)| (k.as_str(), v.as_str())).collect()
}

#[test]
fn a_new_mapping_is_empty() {
    let attributes = Attributes::new();
    assert!(attributes.is_empty());
    assert_eq!(attributes.len(), 0);
    assert_eq!(attributes.get("a"), None);
    assert!(attributes.pairs().is_empty());
}

#[test]
fn insert_adds_a_new_name_at_the_end() {
    let mut attributes = Attributes::new();
    assert_eq!(attributes.insert("firstName".to_string(), "John".to_string()), None);
    assert_eq!(attributes.insert("lastName".to_string(), "Doe".to_string()), None);
    assert_eq!(attributes.insert("".to_string(), "".to_string()), None);
    assert_eq!(attributes.len(), 3);
    assert!(!attributes.is_empty());
    assert_eq!(
        pairs_of(&attributes),
        vec![("firstName", "John"), ("lastName", "Doe"), ("", "")]
    );
}

#[test]
fn insert_replaces_the_value_of_a_name_in_its_place() {
    let mut attributes = Attributes::new();
    attributes.insert("a".to_string(), "1".to_string());
    attributes.insert("b".to_string(), "2".to_string());
    attributes.insert("c".to_string(), "3".to_string());
    assert_eq!(attributes.insert("b".to_string(), "20".to_string()), Some("2".to_string()));
    assert_eq!(attributes.insert("a".to_string(), "10".to_string()), Some("1".to_string()));
    assert_eq!(attributes.len(), 3);
    assert_eq!(pairs_of(&attributes), vec![("a", "10"), ("b", "20"), ("c", "3")]);
}

#[test]
fn get_finds_the_value_of_a_name() {
    let mut attributes = Attributes::new();
    attributes.insert("a".to_string(), "1".to_string());
    attributes.insert("ab".to_string(), "2".to_string());
    assert_eq!(attributes.get("a"), Some(&"1".to_string()));
    assert_eq!(attributes.get("ab"), Some(&"2".to_string()));
    assert_eq!(attributes.get("b"), None);
    assert_eq!(attributes.get("A"), None);
}

#[test]
fn clone_copies_the_pairs() {
    let mut attributes = Attributes::new();
    attributes.insert("a".to_string(), "1".to_string());
    attributes.insert("b".to_string(), "2".to_string());
    let copy = attributes.clone();
    assert_eq!(copy, attributes);
    attributes.insert("a".to_string(), "3".to_string());
    assert_eq!(pairs_of(&copy), vec![("a", "1"), ("b", "2")]);
}

fn made(pairs: &[(&str, &str)]) -> Attributes {
    let mut attributes = Attributes::new();
    for (name, value) in pairs {
        attributes.insert(name.to_string(), value.to_string());
    }
    attributes
}

#[test]
fn mappings_are_equal_whatever_the_order_of_their_names() {
    let one = made(&[("a", "1"), ("b", "2"), ("c", "3")]);
    let other = made(&[("c", "3"), ("a", "1"), ("b", "2")]);
    assert_eq!(one, other);
    assert_eq!(other, one);
    assert_eq!(Attributes::new(), Attributes::new());
}

#[test]
fn mappings_differ_where_a_name_or_a_value_differs() {
    let one = made(&[("a", "1"), ("b", "2")]);
    assert_ne!(one, made(&[("a", "1"), ("b", "3")]));
    assert_ne!(one, made(&[("a", "1"), ("c", "2")]));
    assert_ne!(one, made(&[("a", "1")]));
    assert_ne!(made(&[("a", "1")]), one);
    assert_ne!(one, made(&[("a", "1"), ("b", "2"), ("c", "3")]));
    assert_ne!(one, Attributes::new());
    assert_ne!(made(&[("a", "b")]), made(&[("b", "a")]));
}

#[test]
fn holds_asks_for_the_name_and_the_value_together() {
    let attributes = made(&[("a", "1"), ("b", "2")]);
    assert!(attributes.holds("a", "1"));
    assert!(attributes.holds("b", "2"));
    assert!(!attributes.holds("a", "2"));
    assert!(!attributes.holds("c", "1"));
    assert!(!Attributes::new().holds("", ""));
}
