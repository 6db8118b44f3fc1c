use dramasim::labels::LabelTable;

#[test]
fn a_new_table_is_empty() {
    let table = LabelTable::new();
    assert_eq!(table.len(), 0);
    assert_eq!(table.get("a"), None);
    assert_eq!(table.get(""), None);
}

#[test]
fn a_label_is_found_by_its_name() {
    let mut table = LabelTable::new();
    table.insert("loop", 3);
    table.insert("end", 10);
    assert_eq!(table.get("loop"), Some(3));
    assert_eq!(table.get("end"), Some(10));
    assert_eq!(table.get("Loop"), None);
    assert_eq!(table.get("loop "), None);
    assert_eq!(table.get("lo"), None);
}

#[test]
fn a_later_definition_replaces_an_earlier_one() {
    let mut table = LabelTable::new();
    table.insert("a", 1);
    table.insert("b", 2);
    table.insert("a", 3);
    assert_eq!(table.get("a"), Some(3));
    assert_eq!(table.get("b"), Some(2));
    assert_eq!(table.len(), 3);
    assert_eq!((table.name_at(0), table.address_at(0)), ("a", 1));
    assert_eq!((table.name_at(1), table.address_at(1)), ("b", 2));
    assert_eq!((table.name_at(2), table.address_at(2)), ("a", 3));
}
