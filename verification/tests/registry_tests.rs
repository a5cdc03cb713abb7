use ruche::models::BeeData;
use ruche::registry::Registry;

#[test]
fn registry_lists_ascending_regardless_of_insertion_order() {
    let mut db = Registry::new();
    db.add_bee(BeeData { id: 5, ..Default::default() });
    db.add_bee(BeeData { id: 1, ..Default::default() });
    db.add_bee(BeeData { id: 3, ..Default::default() });

    let bees = db.get_bees();
    let ids: Vec<u8> = bees.iter().map(|b| b.id).collect();

    assert_eq!(ids, vec![1, 3, 5]);
    assert_eq!(db.count_bees(), 3);

    db.delete_bee(3);

    assert_eq!(db.count_bees(), 2);
    assert!(db.get_bee(3).is_none());
}

#[test]
fn registry_add_bees_stores_each_record() {
    let mut db = Registry::new();
    let batch = vec![
        BeeData { id: 9, ..Default::default() },
        BeeData { id: 2, ..Default::default() },
        BeeData { id: 7, ..Default::default() },
    ];

    db.add_bees(batch);

    let ids: Vec<u8> = db.get_bees().iter().map(|b| b.id).collect();
    assert_eq!(ids, vec![2, 7, 9]);
}

#[test]
fn registry_get_returns_the_stored_record() {
    let mut db = Registry::new();
    db.add_bee(BeeData { id: 4, neighborhood: "abc".to_string(), ..Default::default() });

    let found = db.get_bee(4).unwrap();

    assert_eq!(found.id, 4);
    assert_eq!(found.neighborhood, "abc");
    assert!(db.get_bee(5).is_none());
}

#[test]
fn registry_delete_of_absent_id_is_a_no_op() {
    let mut db = Registry::new();
    db.add_bee(BeeData { id: 1, ..Default::default() });

    db.delete_bee(2);

    assert_eq!(db.count_bees(), 1);
    assert!(db.get_bee(1).is_some());
}

#[test]
fn registry_add_does_not_deduplicate() {
    let mut db = Registry::new();
    db.add_bee(BeeData { id: 5, neighborhood: "first".to_string(), ..Default::default() });
    db.add_bee(BeeData { id: 5, neighborhood: "second".to_string(), ..Default::default() });

    assert_eq!(db.count_bees(), 2);

    db.delete_bee(5);

    assert_eq!(db.count_bees(), 1);
}
