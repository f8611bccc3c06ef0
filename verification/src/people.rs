use vstd::prelude::*;
use vstd::string::StringExecFns;
use crate::model::{
    Person, PersonView, Reply, ReplyView, error_body, sentinel_person, sentinel_person_view,
    spec_error, zero_person, zero_person_view,
};
use crate::store::PersonStore;

verus! {

/// What a lookup answers: identifier `0` is reserved and always yields the
/// sentinel person; otherwise a stored record is handed back as it stands,
/// and a missing one yields the zero-valued person.
pub open spec fn spec_get_person(m: Map<usize, Person>, id: usize) -> PersonView {
    if id == 0 {
        sentinel_person_view()
    } else if m.contains_key(id) {
        m[id]@
    } else {
        zero_person_view()
    }
}

pub fn get_person(id: usize, store: &PersonStore) -> (r: Person)
    ensures
        r@ == spec_get_person(store@, id),
{
    if id == 0 {
        return sentinel_person();
    }
    match store.get(id) {
        None => zero_person(),
        Some(p) => p.clone(),
    }
}

/// The table after a create: unchanged when the identifier is already taken,
/// otherwise extended with the new record under its own identifier.
pub open spec fn spec_post_person(m: Map<usize, Person>, p: Person) -> Map<usize, Person> {
    if m.contains_key(p.id) {
        m
    } else {
        m.insert(p.id, p)
    }
}

/// What a create answers: a duplicate identifier is rejected, anything else
/// is acknowledged.
pub open spec fn spec_post_reply(m: Map<usize, Person>, p: Person) -> ReplyView {
    if m.contains_key(p.id) {
        ReplyView::Failure(spec_error(400, "person already exists"@))
    } else {
        ReplyView::DataText("ok"@)
    }
}

pub fn post_person(person: Person, store: &mut PersonStore) -> (r: Reply)
    ensures
        final(store)@ == spec_post_person(old(store)@, person),
        r@ == spec_post_reply(old(store)@, person),
{
    if store.contains(person.id) {
        Reply::Failure(error_body(400, String::from_str("person already exists")))
    } else {
        let id: usize = person.id;
        store.put(id, person);
        Reply::DataText(String::from_str("ok"))
    }
}

/// The table after an update of `id` with body `p`: unchanged when `id` is
/// absent; otherwise the entry is overwritten with `p`, except that the
/// path identifier wins over whatever identifier the body carried.
pub open spec fn spec_put_person(m: Map<usize, Person>, id: usize, p: Person) -> Map<
    usize,
    Person,
> {
    if m.contains_key(id) {
        m.insert(id, Person { id, name: p.name, age: p.age })
    } else {
        m
    }
}

/// What an update answers: a missing identifier is rejected, an existing one
/// is acknowledged.
pub open spec fn spec_put_reply(m: Map<usize, Person>, id: usize) -> ReplyView {
    if m.contains_key(id) {
        ReplyView::DataText("ok"@)
    } else {
        ReplyView::Failure(spec_error(400, "person hasnot been found"@))
    }
}

pub fn put_person(id: usize, person: Person, store: &mut PersonStore) -> (r: Reply)
    ensures
        final(store)@ == spec_put_person(old(store)@, id, person),
        r@ == spec_put_reply(old(store)@, id),
{
    let mut person = person;
    if store.contains(id) {
        person.id = id;
        store.put(id, person);
        Reply::DataText(String::from_str("ok"))
    } else {
        Reply::Failure(error_body(400, String::from_str("person hasnot been found")))
    }
}

/// The table after a delete: unchanged when `id` is absent, otherwise with
/// the entry for `id` gone.
pub open spec fn spec_delete_person(m: Map<usize, Person>, id: usize) -> Map<usize, Person> {
    if m.contains_key(id) {
        m.remove(id)
    } else {
        m
    }
}

/// What a delete answers: the removed record itself, or a rejection when
/// `id` is absent.
pub open spec fn spec_delete_reply(m: Map<usize, Person>, id: usize) -> ReplyView {
    if m.contains_key(id) {
        ReplyView::DataPerson(m[id]@)
    } else {
        ReplyView::Failure(spec_error(400, "person hasnot been found"@))
    }
}

pub fn delete_person(id: usize, store: &mut PersonStore) -> (r: Reply)
    ensures
        final(store)@ == spec_delete_person(old(store)@, id),
        r@ == spec_delete_reply(old(store)@, id),
{
    match store.remove(id) {
        Some(p) => Reply::DataPerson(p),
        None => {
            proof {
                assert(old(store)@.remove(id) =~= old(store)@);
            }
            Reply::Failure(error_body(400, String::from_str("person hasnot been found")))
        },
    }
}

} // verus!
