use people_service::model::{Person, Reply};
use people_service::people::{delete_person, get_person, post_person, put_person};
use people_service::store::PersonStore;

fn person(id: usize, name: &str, age: u8) -> Person {
    Person { id, name: name.to_string(), age }
}

fn assert_ok(r: &Reply) {
    match r {
        Reply::DataText(s) => assert_eq!(s, "ok"),
        _ => panic!("expected an acknowledgement"),
    }
}

fn assert_failure(r: &Reply, code: usize, description: &str) {
    match r {
        Reply::Failure(e) => {
            assert_eq!(e.code, code);
            assert_eq!(e.reason, "");
            assert_eq!(e.description, description);
        }
        _ => panic!("expected a failure"),
    }
}

#[test]
fn get_missing_returns_zero_person() {
    let store = PersonStore::new();
    let p = get_person(5, &store);
    assert_eq!(p.id, 0);
    assert_eq!(p.name, "");
    assert_eq!(p.age, 0);
}

#[test]
fn get_zero_is_sentinel() {
    let mut store = PersonStore::new();
    let p = get_person(0, &store);
    assert_eq!(p.id, 0);
    assert_eq!(p.name, "_");
    assert_eq!(p.age, 0);

    // Even a stored record under id 0 does not change the answer.
    let r = post_person(person(0, "stored", 9), &mut store);
    assert_ok(&r);
    let p = get_person(0, &store);
    assert_eq!(p.id, 0);
    assert_eq!(p.name, "_");
    assert_eq!(p.age, 0);
}

#[test]
fn post_then_get_returns_person() {
    let mut store = PersonStore::new();
    let r = post_person(person(7, "Ana", 30), &mut store);
    assert_ok(&r);
    let p = get_person(7, &store);
    assert_eq!(p.id, 7);
    assert_eq!(p.name, "Ana");
    assert_eq!(p.age, 30);
}

#[test]
fn post_duplicate_rejected() {
    let mut store = PersonStore::new();
    let r = post_person(person(7, "Ana", 30), &mut store);
    assert_ok(&r);
    let r = post_person(person(7, "Bo", 44), &mut store);
    assert_failure(&r, 400, "person already exists");
    // The stored record is unchanged.
    let p = get_person(7, &store);
    assert_eq!(p.id, 7);
    assert_eq!(p.name, "Ana");
    assert_eq!(p.age, 30);
}

#[test]
fn put_path_id_wins() {
    let mut store = PersonStore::new();
    let r = post_person(person(7, "Ana", 30), &mut store);
    assert_ok(&r);
    let r = put_person(7, person(9, "Bo", 44), &mut store);
    assert_ok(&r);
    let p = get_person(7, &store);
    assert_eq!(p.id, 7);
    assert_eq!(p.name, "Bo");
    assert_eq!(p.age, 44);
    // Nothing appeared under the body's identifier.
    let p = get_person(9, &store);
    assert_eq!(p.id, 0);
    assert_eq!(p.name, "");
    assert_eq!(p.age, 0);
}

#[test]
fn put_missing_rejected() {
    let mut store = PersonStore::new();
    let r = put_person(7, person(7, "Ana", 30), &mut store);
    assert_failure(&r, 400, "person hasnot been found");
    let p = get_person(7, &store);
    assert_eq!(p.id, 0);
}

#[test]
fn delete_then_get_reverts() {
    let mut store = PersonStore::new();
    let r = post_person(person(7, "Ana", 30), &mut store);
    assert_ok(&r);
    let r = delete_person(7, &mut store);
    match r {
        Reply::DataPerson(p) => {
            assert_eq!(p.id, 7);
            assert_eq!(p.name, "Ana");
            assert_eq!(p.age, 30);
        }
        _ => panic!("expected the removed person"),
    }
    let p = get_person(7, &store);
    assert_eq!(p.id, 0);
    assert_eq!(p.name, "");
    assert_eq!(p.age, 0);
}

#[test]
fn delete_missing_rejected() {
    let mut store = PersonStore::new();
    let r = delete_person(7, &mut store);
    assert_failure(&r, 400, "person hasnot been found");
}
