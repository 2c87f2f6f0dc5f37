use audiocore::userdata::UserDataTable;

#[test]
fn set_then_get_returns_the_value() {
    let mut table: UserDataTable<String> = UserDataTable::new();
    table.set(3, String::from("crash"));
    table.set(7, String::from("pad"));
    assert_eq!(table.get(3), Some(&String::from("crash")));
    assert_eq!(table.get(7), Some(&String::from("pad")));
}

#[test]
fn get_missing_key_is_none() {
    let mut table: UserDataTable<u32> = UserDataTable::new();
    assert_eq!(table.get(0), None);
    table.set(1, 10);
    assert_eq!(table.get(0), None);
}

#[test]
fn set_replaces_the_earlier_binding() {
    let mut table: UserDataTable<u32> = UserDataTable::new();
    table.set(5, 100);
    table.set(5, 200);
    assert_eq!(table.get(5), Some(&200));
}

#[test]
fn remove_returns_and_unbinds() {
    let mut table: UserDataTable<u32> = UserDataTable::new();
    table.set(2, 20);
    table.set(4, 40);
    assert_eq!(table.remove(2), Some(20));
    assert_eq!(table.get(2), None);
    assert_eq!(table.get(4), Some(&40));
    assert_eq!(table.remove(2), None);
}
