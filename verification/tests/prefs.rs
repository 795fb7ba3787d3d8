use ess_shell::prefs::PrefStore;

#[test]
fn preference_defaults_to_false() {
    let p = PrefStore::new();
    assert!(!p.get());
}

#[test]
fn toggle_flips_and_returns_new_value() {
    let mut p = PrefStore::new();
    let first = p.toggle();
    assert!(first);
    assert!(p.get());
}

#[test]
fn toggle_twice_returns_to_original() {
    let mut p = PrefStore::new();
    let original = p.get();
    p.toggle();
    assert_ne!(p.get(), original);
    p.toggle();
    assert_eq!(p.get(), original);
}
