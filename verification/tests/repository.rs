use vault_rpg::vault::{list_names, name_of_file, Vault};

#[test]
fn new_vault_maps_name_to_path() {
    let v = Vault::new("demo");
    assert_eq!(v.name, "demo");
    assert_eq!(v.path, "secrets/vault_demo.enc");
}

#[test]
fn distinct_names_map_to_distinct_paths() {
    let a = Vault::new("a");
    let b = Vault::new("b");
    assert_ne!(a.path, b.path);
}

#[test]
fn file_name_parsing_recovers_the_name() {
    assert_eq!(name_of_file("vault_a.enc"), Some("a".to_string()));
    assert_eq!(name_of_file("vault_demo.enc"), Some("demo".to_string()));
    assert_eq!(name_of_file("vault_.enc"), Some("".to_string()));
    assert_eq!(name_of_file("vault_a.txt"), None);
    assert_eq!(name_of_file("other_a.enc"), None);
    assert_eq!(name_of_file("a.enc"), None);
    assert_eq!(name_of_file("vault_"), None);
    assert_eq!(name_of_file(""), None);
}

#[test]
fn listing_filters_and_strips_entries() {
    let entries = vec![
        "vault_a.enc".to_string(),
        "notes.txt".to_string(),
        "vault_b.enc".to_string(),
        "vault_incomplete".to_string(),
    ];
    assert_eq!(list_names(&entries), vec!["a".to_string(), "b".to_string()]);
}

#[test]
fn listing_is_the_same_set_in_either_order() {
    let forward = vec!["vault_a.enc".to_string(), "vault_b.enc".to_string()];
    let backward = vec!["vault_b.enc".to_string(), "vault_a.enc".to_string()];
    let mut names_f = list_names(&forward);
    let mut names_b = list_names(&backward);
    assert_eq!(names_f, vec!["a".to_string(), "b".to_string()]);
    assert_eq!(names_b, vec!["b".to_string(), "a".to_string()]);
    names_f.sort();
    names_b.sort();
    assert_eq!(names_f, names_b);
}
