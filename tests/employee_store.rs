use po_manager::employee::{
    get_employee_status_meaning, DTOEmployee, DTOEmployeeCreate, DTOEmployeeParam, EmployeeStatus,
    EntityEmployee,
};
use po_manager::response::AppError;
use po_manager::store::Collection;

fn no_filter() -> DTOEmployeeParam {
    DTOEmployeeParam { id: None, name: None, status: None, position: None }
}

fn payload(name: &str, status: Option<EmployeeStatus>, position: Option<&str>) -> DTOEmployeeCreate {
    DTOEmployeeCreate {
        name: name.to_string(),
        status,
        position: position.map(|p| p.to_string()),
    }
}

fn names(v: &[EntityEmployee]) -> Vec<String> {
    v.iter().map(|e| e.name.clone()).collect()
}

#[test]
fn alice_lifecycle() {
    let mut db: Collection<EntityEmployee> = Collection::new();
    let created = db.create(payload("Alice", None, None)).unwrap();
    assert_eq!(created.id.len(), 36);
    assert_eq!(created.name, "Alice");
    assert_eq!(created.status, EmployeeStatus::Working);

    let id = created.id.clone();
    let patch = DTOEmployeeParam {
        id: None,
        name: None,
        status: Some(EmployeeStatus::Leave),
        position: None,
    };
    let updated = db.update(&id, patch).unwrap();
    assert_eq!(updated.name, "Alice");
    assert_eq!(updated.status, EmployeeStatus::Leave);

    let filter = DTOEmployeeParam { id: None, name: Some("lic".to_string()), status: None, position: None };
    let found = db.list(&filter);
    assert_eq!(found.len(), 1);
    assert_eq!(found[0].id, id);

    let removed = db.delete(&id).unwrap();
    assert_eq!(removed.id, id);
    assert_eq!(removed.status, EmployeeStatus::Leave);
    assert_eq!(db.len(), 0);
    assert!(db.get(&id).is_none());
    assert_eq!(db.delete(&id).unwrap_err(), AppError::NotFound);
}

#[test]
fn created_ids_are_unique_and_newest_first() {
    let mut db: Collection<EntityEmployee> = Collection::new();
    for i in 0..20 {
        db.create(payload(&format!("e{}", i), None, None)).unwrap();
    }
    let records = db.records();
    assert_eq!(records.len(), 20);
    for a in 0..records.len() {
        for b in 0..records.len() {
            if a != b {
                assert_ne!(records[a].id, records[b].id);
            }
        }
    }
    assert_eq!(records[0].name, "e19");
    assert_eq!(records[19].name, "e0");
}

#[test]
fn create_with_taken_id_is_refused() {
    let mut db: Collection<EntityEmployee> = Collection::new();
    let first = db.create_with_id("a1".to_string(), payload("Bob", Some(EmployeeStatus::Quit), Some("dev"))).unwrap();
    assert_eq!(first.id, "a1");
    assert_eq!(first.status, EmployeeStatus::Quit);
    assert_eq!(first.position.as_deref(), Some("dev"));
    let again = db.create_with_id("a1".to_string(), payload("Carol", None, None));
    assert_eq!(again.unwrap_err(), AppError::DuplicateId);
    assert_eq!(db.len(), 1);
    assert_eq!(db.records()[0].name, "Bob");
}

#[test]
fn empty_filter_lists_everything_in_order() {
    let mut db: Collection<EntityEmployee> = Collection::new();
    db.create(payload("Ann", None, None)).unwrap();
    db.create(payload("Ben", Some(EmployeeStatus::Quit), None)).unwrap();
    db.create(payload("Cid", None, Some("qa"))).unwrap();
    let all = db.list(&no_filter());
    assert_eq!(names(&all), vec!["Cid", "Ben", "Ann"]);
}

#[test]
fn single_slot_filters() {
    let mut db: Collection<EntityEmployee> = Collection::new();
    db.create_with_id("1".to_string(), payload("Alice", None, Some("developer"))).unwrap();
    db.create_with_id("2".to_string(), payload("Malice", Some(EmployeeStatus::Quit), None)).unwrap();
    db.create_with_id("3".to_string(), payload("bob", Some(EmployeeStatus::Leave), Some("tester"))).unwrap();

    let by_id = DTOEmployeeParam { id: Some("2".to_string()), ..no_filter() };
    assert_eq!(names(&db.list(&by_id)), vec!["Malice"]);

    let by_name = DTOEmployeeParam { name: Some("lic".to_string()), ..no_filter() };
    assert_eq!(names(&db.list(&by_name)), vec!["Malice", "Alice"]);

    let case_sensitive = DTOEmployeeParam { name: Some("ALI".to_string()), ..no_filter() };
    assert!(db.list(&case_sensitive).is_empty());

    let by_status = DTOEmployeeParam { status: Some(EmployeeStatus::Working), ..no_filter() };
    assert_eq!(names(&db.list(&by_status)), vec!["Alice"]);

    let by_position = DTOEmployeeParam { position: Some("e".to_string()), ..no_filter() };
    assert_eq!(names(&db.list(&by_position)), vec!["bob", "Alice"]);

    let id_substring_is_not_enough = DTOEmployeeParam { id: Some("".to_string()), ..no_filter() };
    assert!(db.list(&id_substring_is_not_enough).is_empty());
}

#[test]
fn update_writes_only_present_slots() {
    let mut db: Collection<EntityEmployee> = Collection::new();
    db.create_with_id("x".to_string(), payload("Dan", None, Some("pm"))).unwrap();
    let patch = DTOEmployeeParam {
        id: Some("other".to_string()),
        name: Some("Daniel".to_string()),
        status: None,
        position: None,
    };
    let r = db.update(&"x".to_string(), patch).unwrap();
    assert_eq!(r.id, "x");
    assert_eq!(r.name, "Daniel");
    assert_eq!(r.status, EmployeeStatus::Working);
    assert_eq!(r.position.as_deref(), Some("pm"));
    let stored = db.get(&"x".to_string()).unwrap();
    assert_eq!(stored.name, "Daniel");
    assert_eq!(stored.position.as_deref(), Some("pm"));
}

#[test]
fn update_of_missing_id_is_not_found() {
    let mut db: Collection<EntityEmployee> = Collection::new();
    db.create_with_id("x".to_string(), payload("Dan", None, None)).unwrap();
    let r = db.update(&"y".to_string(), no_filter());
    assert_eq!(r.unwrap_err(), AppError::NotFound);
    assert_eq!(db.records()[0].name, "Dan");
}

#[test]
fn delete_removes_exactly_one() {
    let mut db: Collection<EntityEmployee> = Collection::new();
    for id in ["a", "b", "c"] {
        db.create_with_id(id.to_string(), payload(id, None, None)).unwrap();
    }
    let removed = db.delete(&"b".to_string()).unwrap();
    assert_eq!(removed.name, "b");
    assert_eq!(names(db.records()), vec!["c", "a"]);
    assert_eq!(db.delete(&"zz".to_string()).unwrap_err(), AppError::NotFound);
    assert_eq!(names(db.records()), vec!["c", "a"]);
}

#[test]
fn status_meanings() {
    assert_eq!(get_employee_status_meaning(&EmployeeStatus::Working), "在职");
    assert_eq!(get_employee_status_meaning(&EmployeeStatus::Leave), "请假");
    assert_eq!(get_employee_status_meaning(&EmployeeStatus::Quit), "离职");
}

#[test]
fn employee_view_carries_status_meaning() {
    let e = EntityEmployee {
        id: "7".to_string(),
        name: "Eve".to_string(),
        status: EmployeeStatus::Quit,
        position: None,
    };
    let d = DTOEmployee::from_entity(&e);
    assert_eq!(d.id, "7");
    assert_eq!(d.name, "Eve");
    assert_eq!(d.status_meaning, "离职");
    assert!(d.position.is_none());
}

#[test]
fn reloading_records_gives_the_same_collection() {
    let mut db: Collection<EntityEmployee> = Collection::new();
    db.create(payload("Ann", None, None)).unwrap();
    db.create(payload("Ben", Some(EmployeeStatus::Leave), Some("ops"))).unwrap();
    let copy: Vec<EntityEmployee> = db
        .records()
        .iter()
        .map(|e| EntityEmployee {
            id: e.id.clone(),
            name: e.name.clone(),
            status: e.status,
            position: e.position.clone(),
        })
        .collect();
    let back = Collection::from_records(copy).unwrap();
    assert_eq!(back.len(), 2);
    for (a, b) in back.records().iter().zip(db.records().iter()) {
        assert_eq!(a.id, b.id);
        assert_eq!(a.name, b.name);
        assert_eq!(a.status, b.status);
        assert_eq!(a.position, b.position);
    }
}

#[test]
fn duplicate_ids_in_loaded_records_are_refused() {
    let mk = |id: &str| EntityEmployee {
        id: id.to_string(),
        name: "n".to_string(),
        status: EmployeeStatus::Working,
        position: None,
    };
    let r = Collection::from_records(vec![mk("a"), mk("b"), mk("a")]);
    assert_eq!(r.err(), Some(AppError::DuplicateId));
    let ok = Collection::from_records(vec![mk("a"), mk("b")]).unwrap();
    assert_eq!(ok.len(), 2);
    let empty: Collection<EntityEmployee> = Collection::from_records(Vec::new()).unwrap();
    assert_eq!(empty.len(), 0);
}

#[test]
fn substring_filter_on_non_ascii_names() {
    let mut db: Collection<EntityEmployee> = Collection::new();
    db.create_with_id("1".to_string(), payload("张三丰", None, None)).unwrap();
    db.create_with_id("2".to_string(), payload("李四", None, None)).unwrap();
    let f = DTOEmployeeParam { name: Some("三丰".to_string()), ..no_filter() };
    assert_eq!(names(&db.list(&f)), vec!["张三丰"]);
    let f = DTOEmployeeParam { name: Some("".to_string()), ..no_filter() };
    assert_eq!(names(&db.list(&f)), vec!["李四", "张三丰"]);
}
