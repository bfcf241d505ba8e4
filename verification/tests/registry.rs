use wokwi_uart::registry::Registry;

#[test]
fn identifiers_count_up_from_zero() {
    let mut registry: Registry<&str> = Registry::new();
    assert_eq!(registry.register("a"), 0);
    assert_eq!(registry.register("b"), 1);
    assert_eq!(registry.register("a"), 2);
}

#[test]
fn lookup_finds_what_was_registered() {
    let mut registry: Registry<String> = Registry::new();
    let a = registry.register("a".to_string());
    let b = registry.register("b".to_string());
    assert_eq!(registry.lookup(a), Some(&mut "a".to_string()));
    assert_eq!(registry.lookup(b), Some(&mut "b".to_string()));
}

#[test]
fn lookup_of_an_unknown_identifier_finds_nothing() {
    let mut registry: Registry<u32> = Registry::new();
    assert_eq!(registry.lookup(0), None);
    let id = registry.register(7);
    assert_eq!(registry.lookup(id + 1), None);
    assert_eq!(registry.lookup(usize::MAX), None);
    // Nothing was changed by the failed lookups.
    assert_eq!(registry.lookup(id), Some(&mut 7));
    assert_eq!(registry.register(8), id + 1);
}

#[test]
fn lookup_lets_the_record_change() {
    let mut registry: Registry<Vec<u8>> = Registry::new();
    let first = registry.register(vec![1]);
    let second = registry.register(vec![2]);
    if let Some(record) = registry.lookup(first) {
        record.push(9);
    }
    assert_eq!(registry.lookup(first), Some(&mut vec![1, 9]));
    assert_eq!(registry.lookup(second), Some(&mut vec![2]));
}
