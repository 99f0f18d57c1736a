use walkpwd::entry::PasswordEntry;
use walkpwd::store::{StoreError, Vault};

fn entry(name: &str, password: &str) -> PasswordEntry {
    PasswordEntry::new(name.to_string(), password.to_string())
}

#[test]
fn new_vault_is_empty() {
    let vault = Vault::new();
    assert_eq!(vault.len(), 0);
    assert!(vault.is_empty());
    assert!(vault.list().is_empty());
    assert!(vault.entries().is_empty());
}

#[test]
fn add_then_find_returns_the_entry() {
    let mut vault = Vault::new();
    let stored = vault.add("github".to_string(), "Sup3r$ecret".to_string());
    assert_eq!(stored, Ok("Sup3r$ecret".to_string()));
    assert_eq!(vault.find("github"), Some(&entry("github", "Sup3r$ecret")));
    assert_eq!(vault.len(), 1);
}

#[test]
fn add_round_trip_for_several_names() {
    let mut vault = Vault::new();
    let pairs = [("a", "1"), ("b", ""), ("", "empty name"), ("long name with blanks", "p w")];
    for (name, password) in pairs {
        assert_eq!(vault.add(name.to_string(), password.to_string()), Ok(password.to_string()));
        assert_eq!(vault.find(name), Some(&entry(name, password)));
    }
    for (name, password) in pairs {
        assert_eq!(vault.find(name), Some(&entry(name, password)));
    }
    assert_eq!(vault.len(), 4);
}

#[test]
fn add_duplicate_fails_and_changes_nothing() {
    let mut vault = Vault::new();
    assert!(vault.add("github".to_string(), "first".to_string()).is_ok());
    assert!(vault.add("mail".to_string(), "second".to_string()).is_ok());
    let before = vault.entries().clone();
    assert_eq!(vault.add("github".to_string(), "third".to_string()), Err(StoreError::Duplicate));
    assert_eq!(vault.entries(), &before);
    assert_eq!(vault.find("github"), Some(&entry("github", "first")));
}

#[test]
fn add_keeps_insertion_order() {
    let mut vault = Vault::new();
    for name in ["zeta", "alpha", "mid"] {
        assert!(vault.add(name.to_string(), "x".to_string()).is_ok());
    }
    assert_eq!(vault.list(), vec!["zeta".to_string(), "alpha".to_string(), "mid".to_string()]);
    assert_eq!(
        vault.entries(),
        &vec![entry("zeta", "x"), entry("alpha", "x"), entry("mid", "x")]
    );
}

#[test]
fn find_is_exact_and_case_sensitive() {
    let mut vault = Vault::new();
    assert!(vault.add("GitHub".to_string(), "pw".to_string()).is_ok());
    assert_eq!(vault.find("github"), None);
    assert_eq!(vault.find("GitHu"), None);
    assert_eq!(vault.find("GitHub "), None);
    assert_eq!(vault.find(""), None);
    assert_eq!(vault.find("GitHub"), Some(&entry("GitHub", "pw")));
}

#[test]
fn position_is_the_first_match() {
    let vault = Vault::from_entries(vec![entry("a", "1"), entry("b", "2"), entry("a", "3")]);
    assert_eq!(vault.position("a"), Some(0));
    assert_eq!(vault.position("b"), Some(1));
    assert_eq!(vault.position("c"), None);
    assert_eq!(vault.find("a"), Some(&entry("a", "1")));
}

#[test]
fn delete_absent_name_changes_nothing() {
    let mut vault = Vault::new();
    assert!(vault.add("github".to_string(), "pw".to_string()).is_ok());
    let before = vault.entries().clone();
    assert!(!vault.delete("nonexistent"));
    assert_eq!(vault.entries(), &before);
}

#[test]
fn delete_on_empty_vault_reports_absence() {
    let mut vault = Vault::new();
    assert!(!vault.delete("anything"));
    assert!(vault.is_empty());
}

#[test]
fn delete_removes_only_the_named_entry() {
    let mut vault = Vault::new();
    for name in ["a", "b", "c"] {
        assert!(vault.add(name.to_string(), name.to_uppercase()).is_ok());
    }
    assert!(vault.delete("b"));
    assert_eq!(vault.entries(), &vec![entry("a", "A"), entry("c", "C")]);
    assert_eq!(vault.find("b"), None);
    assert!(!vault.delete("b"));
}

#[test]
fn delete_takes_the_first_of_equal_names() {
    let mut vault = Vault::from_entries(vec![entry("a", "1"), entry("b", "2"), entry("a", "3")]);
    assert!(vault.delete("a"));
    assert_eq!(vault.entries(), &vec![entry("b", "2"), entry("a", "3")]);
}

#[test]
fn delete_then_add_again_succeeds() {
    let mut vault = Vault::new();
    assert!(vault.add("github".to_string(), "old".to_string()).is_ok());
    assert!(vault.delete("github"));
    assert_eq!(vault.add("github".to_string(), "new".to_string()), Ok("new".to_string()));
    assert_eq!(vault.find("github"), Some(&entry("github", "new")));
}

#[test]
fn from_entries_keeps_order_and_content() {
    let entries = vec![entry("x", "1"), entry("y", "2")];
    let vault = Vault::from_entries(entries.clone());
    assert_eq!(vault.entries(), &entries);
    assert_eq!(vault.len(), 2);
    assert!(!vault.is_empty());
    assert_eq!(vault.list(), vec!["x".to_string(), "y".to_string()]);
}

#[test]
fn entry_clone_is_equal() {
    let original = entry("name", "secret");
    let copy = original.clone();
    assert_eq!(copy, original);
    assert_eq!(copy.name, "name");
    assert_eq!(copy.password, "secret");
}

#[test]
fn store_error_messages() {
    assert_eq!(StoreError::Duplicate.message(), "Password entry already exists");
    assert_eq!(
        StoreError::Serialization.message(),
        "The vault file does not hold a list of entries"
    );
    assert_eq!(StoreError::Io.message(), "The vault file could not be read");
}
