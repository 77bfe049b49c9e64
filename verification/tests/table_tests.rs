use lunatic_state::errors::HostError;
use lunatic_state::table::ResourceTable;

#[test]
fn insert_two_values_distinct_handles() {
    let mut t: ResourceTable<u64> = ResourceTable::new();
    let h1 = t.insert(10);
    let h2 = t.insert(20);
    assert_ne!(h1, h2);
    assert_eq!(t.get(h1).copied(), Ok(10));
    assert_eq!(t.get(h2).copied(), Ok(20));
}

#[test]
fn removed_handle_is_not_found() {
    let mut t: ResourceTable<String> = ResourceTable::new();
    let h = t.insert("alpha".to_string());
    assert_eq!(t.remove(h), Ok("alpha".to_string()));
    assert!(matches!(t.get(h), Err(HostError::NotFound)));
    assert!(matches!(t.remove(h), Err(HostError::NotFound)));
}

#[test]
fn foreign_handle_is_not_found() {
    let t: ResourceTable<u64> = ResourceTable::new();
    assert!(matches!(t.get(7), Err(HostError::NotFound)));
    assert!(!t.contains(7));
}

#[test]
fn get_mut_updates_in_place() {
    let mut t: ResourceTable<u64> = ResourceTable::new();
    let h = t.insert(1);
    assert!(t.contains(h));
    *t.get_mut(h).expect("the handle is live") = 5;
    assert_eq!(t.get(h).copied(), Ok(5));
}

#[test]
fn get_mut_on_stale_handle_is_not_found() {
    let mut t: ResourceTable<u64> = ResourceTable::new();
    let h = t.insert(1);
    t.remove(h).expect("the handle is live");
    assert!(matches!(t.get_mut(h), Err(HostError::NotFound)));
    assert!(matches!(t.get_mut(9), Err(HostError::NotFound)));
}

#[test]
fn default_table_is_empty() {
    let t: ResourceTable<u64> = ResourceTable::default();
    assert!(!t.contains(0));
}
