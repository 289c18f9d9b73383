use rvk::params::Params;

#[test]
fn params_last_write_wins_in_place() {
    let mut p = Params::new();
    p.insert("owner_id".to_string(), "1".to_string());
    p.insert("count".to_string(), "10".to_string());
    p.insert("owner_id".to_string(), "2".to_string());
    assert_eq!(p.len(), 2);
    assert_eq!(p.get("owner_id").unwrap(), "2");
    assert_eq!(
        p.to_pairs(),
        vec![
            ("owner_id".to_string(), "2".to_string()),
            ("count".to_string(), "10".to_string())
        ]
    );
}

#[test]
fn params_empty_and_missing() {
    let p = Params::new();
    assert_eq!(p.len(), 0);
    assert!(p.get("v").is_none());
    assert!(p.to_pairs().is_empty());
}

#[test]
fn params_numbers_as_text() {
    let mut p = Params::new();
    p.insert_number("count".to_string(), 100);
    p.insert_number("offset".to_string(), 0);
    assert_eq!(p.get("count").unwrap(), "100");
    assert_eq!(p.get("offset").unwrap(), "0");
}
