use po_manager::date::Date;
use po_manager::project::{DTOProjectCreate, DTOProjectParam, DTOProjectUpdate, EntityProject, Price};
use po_manager::store::Collection;
use po_manager::response::{AppError, AppResponse, AppResponseCode};

fn d(y: i32, m: u32, day: u32) -> Date {
    Date::new(y, m, day).unwrap()
}

fn price(x: f64) -> Price {
    Price { bits: x.to_bits() }
}

fn payload(name: &str, code: &str, release: Date, tech: i32, test: i32, p: f64, pm: &str) -> DTOProjectCreate {
    DTOProjectCreate {
        name: name.to_string(),
        code: code.to_string(),
        release_date: release,
        plan_delivery_date: d(2030, 1, 1),
        tech_days: tech,
        test_days: test,
        price: price(p),
        pm: pm.to_string(),
    }
}

fn no_filter() -> DTOProjectParam {
    DTOProjectParam {
        id: None,
        name_or_code: None,
        pm: None,
        release_date_fuzzy: None,
        plan_delivery_date_fuzzy: None,
        price: None,
        days: None,
    }
}

fn no_update() -> DTOProjectUpdate {
    DTOProjectUpdate {
        name: None,
        code: None,
        release_date: None,
        plan_delivery_date: None,
        tech_days: None,
        test_days: None,
        price: None,
        pm: None,
    }
}

fn sample() -> Collection<EntityProject> {
    let mut db = Collection::new();
    db.create_with_id("pa".to_string(), payload("Billing", "BL-01", d(2024, 3, 5), 10, 5, 1000.5, "Wang")).unwrap();
    db.create_with_id("pb".to_string(), payload("Portal", "PT-02", d(2023, 12, 1), 7, 8, 250.0, "Li")).unwrap();
    db.create_with_id("pc".to_string(), payload("Search", "SBL-3", d(2024, 11, 20), 20, 0, 1000.5, "Wang Li")).unwrap();
    db
}

fn ids(v: &[EntityProject]) -> Vec<String> {
    v.iter().map(|p| p.id.clone()).collect()
}

#[test]
fn project_empty_filter_lists_all() {
    assert_eq!(ids(&sample().list(&no_filter())), vec!["pc", "pb", "pa"]);
}

#[test]
fn project_name_or_code_filter() {
    let db = sample();
    let f = DTOProjectParam { name_or_code: Some("BL".to_string()), ..no_filter() };
    assert_eq!(ids(&db.list(&f)), vec!["pc", "pa"]);
    let f = DTOProjectParam { name_or_code: Some("Port".to_string()), ..no_filter() };
    assert_eq!(ids(&db.list(&f)), vec!["pb"]);
}

#[test]
fn project_pm_filter() {
    let db = sample();
    let f = DTOProjectParam { pm: Some("Li".to_string()), ..no_filter() };
    assert_eq!(ids(&db.list(&f)), vec!["pc", "pb"]);
}

#[test]
fn project_fuzzy_date_filters() {
    let db = sample();
    let f = DTOProjectParam { release_date_fuzzy: Some("2024".to_string()), ..no_filter() };
    assert_eq!(ids(&db.list(&f)), vec!["pc", "pa"]);
    let f = DTOProjectParam { release_date_fuzzy: Some("-03-".to_string()), ..no_filter() };
    assert_eq!(ids(&db.list(&f)), vec!["pa"]);
    let f = DTOProjectParam { plan_delivery_date_fuzzy: Some("2030-01".to_string()), ..no_filter() };
    assert_eq!(ids(&db.list(&f)), vec!["pc", "pb", "pa"]);
    let f = DTOProjectParam { plan_delivery_date_fuzzy: Some("2031".to_string()), ..no_filter() };
    assert!(db.list(&f).is_empty());
}

#[test]
fn project_total_days_and_price_filters() {
    let db = sample();
    let f = DTOProjectParam { days: Some(15), ..no_filter() };
    assert_eq!(ids(&db.list(&f)), vec!["pb", "pa"]);
    let f = DTOProjectParam { days: Some(20), ..no_filter() };
    assert_eq!(ids(&db.list(&f)), vec!["pc"]);
    let f = DTOProjectParam { price: Some(price(1000.5)), ..no_filter() };
    assert_eq!(ids(&db.list(&f)), vec!["pc", "pa"]);
    let f = DTOProjectParam { price: Some(price(1000.5)), days: Some(15), ..no_filter() };
    assert_eq!(ids(&db.list(&f)), vec!["pa"]);
}

#[test]
fn project_total_days_does_not_overflow() {
    let mut db = Collection::new();
    db.create_with_id("big".to_string(), payload("Big", "B", d(2024, 1, 1), i32::MAX, i32::MAX, 1.0, "x")).unwrap();
    let f = DTOProjectParam { days: Some(-2), ..no_filter() };
    assert!(db.list(&f).is_empty());
}

#[test]
fn project_update_is_partial() {
    let mut db = sample();
    let patch = DTOProjectUpdate { test_days: Some(9), pm: Some("Zhao".to_string()), ..no_update() };
    let r = db.update(&"pb".to_string(), patch).unwrap();
    assert_eq!(r.id, "pb");
    assert_eq!(r.name, "Portal");
    assert_eq!(r.code, "PT-02");
    assert_eq!(r.release_date, d(2023, 12, 1));
    assert_eq!(r.tech_days, 7);
    assert_eq!(r.test_days, 9);
    assert_eq!(r.price, price(250.0));
    assert_eq!(r.pm, "Zhao");
    assert_eq!(ids(db.records()), vec!["pc", "pb", "pa"]);
}

#[test]
fn project_get_and_delete() {
    let mut db = sample();
    assert_eq!(db.get(&"pa".to_string()).unwrap().name, "Billing");
    let gone = db.delete(&"pc".to_string()).unwrap();
    assert_eq!(gone.name, "Search");
    assert_eq!(ids(db.records()), vec!["pb", "pa"]);
    assert!(db.get(&"pc".to_string()).is_none());
}

#[test]
fn project_update_of_missing_id_says_project_not_found() {
    let mut db = sample();
    let r = po_manager::project::update(&mut db, &"nope".to_string(), no_update());
    assert_eq!(r.as_ref().unwrap_err(), &AppError::ProjectNotFound);
    let resp = AppResponse::from_result(r);
    assert_eq!(resp.code, AppResponseCode::Failure);
    assert_eq!(resp.msg, "项目不存在");
    assert!(resp.data.is_none());
    assert_eq!(ids(db.records()), vec!["pc", "pb", "pa"]);
    let ok = po_manager::project::update(&mut db, &"pa".to_string(), DTOProjectUpdate { name: Some("Bills".to_string()), ..no_update() }).unwrap();
    assert_eq!(ok.name, "Bills");
    assert_eq!(ok.code, "BL-01");
}
