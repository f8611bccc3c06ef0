use vstd::prelude::*;
use crate::model::{Person, PersonView, ReplyView, spec_error, sentinel_person_view,
    zero_person_view};
use crate::people::{
    spec_delete_person, spec_delete_reply, spec_get_person, spec_post_person, spec_post_reply,
    spec_put_person, spec_put_reply,
};

verus! {

/// Looking up an identifier other than `0` that the table does not hold
/// yields the zero-valued person.
pub proof fn lemma_get_missing(m: Map<usize, Person>, id: usize)
    requires
        id != 0,
        !m.contains_key(id),
    ensures
        spec_get_person(m, id) == zero_person_view(),
{
}

/// Looking up identifier `0` yields the sentinel person whatever the table
/// holds.
pub proof fn lemma_get_zero(m: Map<usize, Person>)
    ensures
        spec_get_person(m, 0) == sentinel_person_view(),
{
}

/// After a create of a person with a fresh identifier other than `0` is
/// acknowledged, looking that identifier up yields exactly that person.
pub proof fn lemma_post_then_get(m: Map<usize, Person>, p: Person)
    requires
        p.id != 0,
        !m.contains_key(p.id),
    ensures
        spec_post_reply(m, p) == ReplyView::DataText("ok"@),
        spec_get_person(spec_post_person(m, p), p.id) == p@,
{
}

/// Repeating a create for an identifier that the first create stored is
/// rejected with the duplicate-error body and leaves the table unchanged.
pub proof fn lemma_post_repeat(m: Map<usize, Person>, p: Person, q: Person)
    requires
        !m.contains_key(p.id),
        q.id == p.id,
    ensures
        spec_post_reply(spec_post_person(m, p), q) == ReplyView::Failure(
            spec_error(400, "person already exists"@),
        ),
        spec_post_person(spec_post_person(m, p), q) == spec_post_person(m, p),
{
}

/// After an update of an existing identifier other than `0`, looking it up
/// yields the body's name and age under the path identifier: the path
/// identifier wins over whatever identifier the body carried.
pub proof fn lemma_put_then_get(m: Map<usize, Person>, id: usize, p: Person)
    requires
        id != 0,
        m.contains_key(id),
    ensures
        spec_put_reply(m, id) == ReplyView::DataText("ok"@),
        spec_get_person(spec_put_person(m, id, p), id) == (PersonView {
            id,
            name: p.name@,
            age: p.age,
        }),
{
}

/// Deleting an existing identifier other than `0` answers the stored person,
/// and a lookup of the same identifier afterwards reverts to the zero-valued
/// person.
pub proof fn lemma_delete_then_get(m: Map<usize, Person>, id: usize)
    requires
        id != 0,
        m.contains_key(id),
    ensures
        spec_delete_reply(m, id) == ReplyView::DataPerson(m[id]@),
        spec_get_person(spec_delete_person(m, id), id) == zero_person_view(),
{
}

/// Every stored record carries the identifier it is keyed under.
pub open spec fn ids_match(m: Map<usize, Person>) -> bool {
    forall|k: usize| m.contains_key(k) ==> (#[trigger] m[k]).id == k
}

/// The table starts empty with the keying convention holding, and every
/// mutating handler preserves it: a create stores the record under its own
/// identifier, an update forces the stored identifier to the path identifier
/// before overwriting, and a delete only removes.
pub proof fn lemma_ids_match_preserved(m: Map<usize, Person>, id: usize, p: Person)
    requires
        ids_match(m),
    ensures
        ids_match(Map::<usize, Person>::empty()),
        ids_match(spec_post_person(m, p)),
        ids_match(spec_put_person(m, id, p)),
        ids_match(spec_delete_person(m, id)),
{
}

} // verus!
