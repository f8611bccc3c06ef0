use people_service::ex::{delete_ex, get_ex, get_exs, hello, not_found, not_found_base, post_ex,
    put_ex};
use people_service::json::{render_person, render_reply};
use people_service::model::{Person, Task};
use people_service::people::{delete_person, get_person, post_person};
use people_service::store::PersonStore;
use people_service::text::usize_to_string;

fn person(id: usize, name: &str, age: u8) -> Person {
    Person { id, name: name.to_string(), age }
}

#[test]
fn scenario_people_json() {
    let mut store = PersonStore::new();
    let r = post_person(person(7, "Ana", 30), &mut store);
    assert_eq!(render_reply(&r), "{\"data\":\"ok\"}");
    let p = get_person(7, &store);
    assert_eq!(render_person(&p), "{\"id\":7,\"name\":\"Ana\",\"age\":30}");
    let r = delete_person(7, &mut store);
    assert_eq!(render_reply(&r), "{\"data\":{\"id\":7,\"name\":\"Ana\",\"age\":30}}");
    let p = get_person(7, &store);
    assert_eq!(render_person(&p), "{\"id\":0,\"name\":\"\",\"age\":0}");
}

#[test]
fn duplicate_error_json() {
    let mut store = PersonStore::new();
    post_person(person(7, "Ana", 30), &mut store);
    let r = post_person(person(7, "Ana", 30), &mut store);
    assert_eq!(
        render_reply(&r),
        "{\"error\":{\"code\":400,\"reason\":\"\",\"description\":\"person already exists\"}}"
    );
}

#[test]
fn missing_error_json() {
    let mut store = PersonStore::new();
    let r = delete_person(7, &mut store);
    assert_eq!(
        render_reply(&r),
        "{\"error\":{\"code\":400,\"reason\":\"\",\"description\":\"person hasnot been found\"}}"
    );
}

#[test]
fn not_found_bodies() {
    assert_eq!(
        render_reply(&not_found()),
        "{\"error\":{\"code\":404,\"reason\":\"\",\"description\":\"\"}}"
    );
    assert_eq!(
        render_reply(&not_found_base()),
        "{\"error\":{\"code\":404,\"reason\":\"\",\"description\":\"not found base\"}}"
    );
}

#[test]
fn hello_body() {
    assert_eq!(hello(), "hello world");
}

#[test]
fn ex_group_bodies() {
    assert_eq!(render_reply(&get_exs()), "{\"data\":\"ex list\"}");
    assert_eq!(render_reply(&get_ex(7)), "{\"data\":\"7\"}");
    assert_eq!(render_reply(&put_ex(12)), "{\"data\":\"12\"}");
    // Delete answers a bare string, without the envelope its siblings use.
    assert_eq!(render_reply(&delete_ex(7)), "7");
    let t = Task { id: 1, name: "laundry".to_string() };
    assert_eq!(render_reply(&post_ex(t)), "{\"data\":{\"id\":1,\"name\":\"laundry\"}}");
}

#[test]
fn decimal_rendering() {
    assert_eq!(usize_to_string(0), "0");
    assert_eq!(usize_to_string(9), "9");
    assert_eq!(usize_to_string(10), "10");
    assert_eq!(usize_to_string(409), "409");
    assert_eq!(usize_to_string(usize::MAX), "18446744073709551615");
}

#[test]
fn string_escaping() {
    let p = person(1, "a\"b\\c", 2);
    assert_eq!(render_person(&p), "{\"id\":1,\"name\":\"a\\\"b\\\\c\",\"age\":2}");

    let p = person(1, "l1\nl2\rl3\tend", 2);
    assert_eq!(render_person(&p), "{\"id\":1,\"name\":\"l1\\nl2\\rl3\\tend\",\"age\":2}");

    let p = person(1, "\u{8}\u{c}\u{1}\u{1f}", 2);
    assert_eq!(render_person(&p), "{\"id\":1,\"name\":\"\\b\\f\\u0001\\u001f\",\"age\":2}");

    // Characters outside the escape set pass through unchanged.
    let p = person(1, "caf\u{e9} \u{4eba}", 2);
    assert_eq!(render_person(&p), "{\"id\":1,\"name\":\"caf\u{e9} \u{4eba}\",\"age\":2}");
}
