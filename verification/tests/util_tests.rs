use termbuf::util::dedup_preserve_order;

#[test]
fn test_dedup_preserve_order() {
    let jobs = vec![
        "a".to_string(),
        "f".to_string(),
        "e".to_string(),
        "b".to_string(),
        "a".to_string(),
        "c".to_string(),
        "b".to_string(),
        "d".to_string(),
    ];
    let expected = vec![
        "a".to_string(),
        "f".to_string(),
        "e".to_string(),
        "b".to_string(),
        "c".to_string(),
        "d".to_string(),
    ];
    assert_eq!(dedup_preserve_order(jobs), expected);
}

#[test]
fn dedup_edges() {
    let empty: Vec<String> = Vec::new();
    assert_eq!(dedup_preserve_order(Vec::new()), empty);
    assert_eq!(dedup_preserve_order(vec!["x".to_string()]), vec!["x"]);
    assert_eq!(
        dedup_preserve_order(vec!["x".to_string(), "x".to_string(), "x".to_string()]),
        vec!["x"]
    );
    assert_eq!(
        dedup_preserve_order(vec![String::new(), "a".to_string(), String::new()]),
        vec!["", "a"]
    );
}

#[test]
fn dedup_has_no_repetition() {
    let names: Vec<String> = "the quick the lazy the quick dog"
        .split(' ')
        .map(|s| s.to_string())
        .collect();
    let result = dedup_preserve_order(names.clone());
    assert_eq!(result, vec!["the", "quick", "lazy", "dog"]);
    for (i, a) in result.iter().enumerate() {
        for b in &result[i + 1..] {
            assert_ne!(a, b);
        }
    }
    for name in &names {
        assert!(result.contains(name));
    }
}
