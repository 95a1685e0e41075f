use employee_roster::decimal::Decimal;
use employee_roster::dto::RosterItem;
use employee_roster::memory_db::MemoryDb;
use employee_roster::roster_repo::RosterRepo;

#[test]
fn test_create_roster() {
    let mut repo: MemoryDb = RosterRepo::new();
    let roster_item = RosterItem {
        id: uuid::Uuid::nil().as_u128(),
        first_name: "foo".to_string(),
        last_name: "bar".to_string(),
        email: "foo@email.com".to_string(),
        salary: Decimal::new(false, 100000, 2),
    };
    let ret_roster_item = repo.create(&roster_item).unwrap();

    assert_ne!(ret_roster_item.id, uuid::Uuid::nil().as_u128());
    assert_eq!(ret_roster_item.first_name, "foo");
    assert_eq!(ret_roster_item.last_name, "bar");
    assert_eq!(ret_roster_item.email, "foo@email.com");
    assert_eq!(ret_roster_item.salary, Decimal::new(false, 100000, 2));
}

#[test]
fn test_get_whole_roster() {
    let mut repo: MemoryDb = RosterRepo::new();
    let ri = RosterItem {
        id: uuid::Uuid::nil().as_u128(),
        first_name: "run".to_string(),
        last_name: "away".to_string(),
        email: "run@away.com".to_string(),
        salary: Decimal::new(false, 3200000, 2),
    };
    let ret_ri = repo.create(&ri).unwrap();
    let ri2 = RosterItem {
        id: uuid::Uuid::nil().as_u128(),
        first_name: "foo".to_string(),
        last_name: "bar".to_string(),
        email: "this@away.com".to_string(),
        salary: Decimal::new(false, 3000000, 2),
    };
    let ret_ri2 = repo.create(&ri2).unwrap();

    let roster_items: Vec<RosterItem> = repo.get_all().unwrap();
    assert_eq!(roster_items.len(), 2);
    assert_eq!(roster_items[0], ret_ri);
    assert_eq!(roster_items[1], ret_ri2);
}

#[test]
fn test_crud_roster() {
    let mut repo: MemoryDb = RosterRepo::new();
    let ri = RosterItem {
        id: uuid::Uuid::nil().as_u128(),
        first_name: "run".to_string(),
        last_name: "away".to_string(),
        email: "run@away.com".to_string(),
        salary: Decimal::new(false, 3200000, 2),
    };
    let ret_ri = repo.create(&ri).unwrap();

    assert_eq!(ret_ri.first_name, "run");
    assert_eq!(ret_ri.last_name, "away");
    assert_eq!(ret_ri.email, "run@away.com");
    assert_eq!(ret_ri.salary, Decimal::new(false, 3200000, 2));
    assert_ne!(ret_ri.id, uuid::Uuid::nil().as_u128());

    let updated_pet = RosterItem {
        first_name: "bar".to_string(),
        last_name: "another".to_string(),
        email: "bar@another.com".to_string(),
        salary: Decimal::new(false, 4500000, 2),
        id: ret_ri.id,
    };
    let ret2_ri = repo.update(&updated_pet).unwrap();
    assert_eq!(ret2_ri.first_name, "bar");
    assert_eq!(ret2_ri.last_name, "another");
    assert_eq!(ret2_ri.email, "bar@another.com");
    assert_eq!(ret2_ri.salary, Decimal::new(false, 4500000, 2));
    assert_eq!(ret2_ri.id, ret_ri.id.clone());

    let ret3_ri: RosterItem = repo.get(ret_ri.id).unwrap().unwrap();
    assert_eq!(ret3_ri.first_name, "bar");
    assert_eq!(ret3_ri.last_name, "another");
    assert_eq!(ret3_ri.email, "bar@another.com");
    assert_eq!(ret3_ri.salary, Decimal::new(false, 4500000, 2));
    assert_eq!(ret3_ri.id, ret_ri.id.clone());

    repo.delete(ret_ri.id).unwrap();
    let ret3_ri = repo.get(ret_ri.id).unwrap();
    assert!(ret3_ri.is_none());
}
