use deezer::params::QueryParams;

fn owned(pairs: &[(&str, &str)]) -> Vec<(String, String)> {
    pairs.iter().map(|(k, v)| (k.to_string(), v.to_string())).collect()
}

#[test]
fn new_params_are_empty() {
    let params = QueryParams::new();
    assert_eq!(params.len(), 0);
    assert!(params.is_empty());
    assert!(params.pairs().is_empty());
    assert!(!params.contains_key("limit"));
    assert_eq!(params.get("limit"), None);
}

#[test]
fn insert_adds_new_names_at_the_end() {
    let mut params = QueryParams::new();
    assert_eq!(params.insert("q".to_string(), "eminem".to_string()), None);
    assert_eq!(params.insert("order".to_string(), "RANKING".to_string()), None);
    assert_eq!(params.len(), 2);
    assert!(!params.is_empty());
    assert_eq!(params.pairs(), &owned(&[("q", "eminem"), ("order", "RANKING")]));
}

#[test]
fn insert_overwrites_in_place_and_returns_the_former_value() {
    let mut params = QueryParams::new();
    params.insert("a".to_string(), "1".to_string());
    params.insert("b".to_string(), "2".to_string());
    params.insert("c".to_string(), "3".to_string());
    let former = params.insert("b".to_string(), "20".to_string());
    assert_eq!(former, Some("2".to_string()));
    assert_eq!(params.len(), 3);
    assert_eq!(params.pairs(), &owned(&[("a", "1"), ("b", "20"), ("c", "3")]));
}

#[test]
fn get_finds_the_value_of_a_name() {
    let mut params = QueryParams::new();
    params.insert("limit".to_string(), "5".to_string());
    params.insert("offset".to_string(), "10".to_string());
    assert_eq!(params.get("limit"), Some(&"5".to_string()));
    assert_eq!(params.get("offset"), Some(&"10".to_string()));
    assert_eq!(params.get("q"), None);
    assert!(params.contains_key("offset"));
    assert!(!params.contains_key("Offset"));
}

#[test]
fn names_stay_distinct_under_repeated_inserts() {
    let mut params = QueryParams::new();
    for round in 0..4 {
        for name in ["x", "y", "z"] {
            params.insert(name.to_string(), format!("{}{}", name, round));
        }
    }
    assert_eq!(params.len(), 3);
    assert_eq!(params.pairs(), &owned(&[("x", "x3"), ("y", "y3"), ("z", "z3")]));
}

#[test]
fn an_empty_name_and_an_empty_value_are_kept_as_given() {
    let mut params = QueryParams::new();
    params.insert(String::new(), String::new());
    assert_eq!(params.len(), 1);
    assert_eq!(params.get(""), Some(&String::new()));
}
