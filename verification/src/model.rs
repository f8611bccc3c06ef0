use vstd::prelude::*;
use vstd::string::StringExecFns;

verus! {

/// The only persisted entity: a record identified by `id`.
pub struct Person {
    pub id: usize,
    pub name: String,
    pub age: u8,
}

/// Mathematical image of a `Person`: the name as a sequence of characters.
#[verifier::ext_equal]
pub ghost struct PersonView {
    pub id: usize,
    pub name: Seq<char>,
    pub age: u8,
}

impl View for Person {
    type V = PersonView;

    open spec fn view(&self) -> PersonView {
        PersonView { id: self.id, name: self.name@, age: self.age }
    }
}

impl Clone for Person {
    fn clone(&self) -> (r: Self)
        ensures
            r@ == self@,
    {
        Person { id: self.id, name: self.name.clone(), age: self.age }
    }
}

/// The zero-valued `Person` returned when a lookup finds nothing.
pub open spec fn zero_person_view() -> PersonView {
    PersonView { id: 0, name: Seq::empty(), age: 0 }
}

pub fn zero_person() -> (r: Person)
    ensures
        r@ == zero_person_view(),
{
    Person { id: 0, name: String::new(), age: 0 }
}

/// The sentinel `Person` reserved for identifier `0`.
pub open spec fn sentinel_person_view() -> PersonView {
    PersonView { id: 0, name: "_"@, age: 0 }
}

pub fn sentinel_person() -> (r: Person)
    ensures
        r@ == sentinel_person_view(),
{
    Person { id: 0, name: String::from_str("_"), age: 0 }
}

/// A task: accepted by the "ex" create handler and echoed back, never stored.
pub struct Task {
    pub id: usize,
    pub name: String,
}

#[verifier::ext_equal]
pub ghost struct TaskView {
    pub id: usize,
    pub name: Seq<char>,
}

impl View for Task {
    type V = TaskView;

    open spec fn view(&self) -> TaskView {
        TaskView { id: self.id, name: self.name@ }
    }
}

impl Clone for Task {
    fn clone(&self) -> (r: Self)
        ensures
            r@ == self@,
    {
        Task { id: self.id, name: self.name.clone() }
    }
}

/// The uniform error payload: every failure a handler reports has this shape,
/// differing only in `code` and `description`; `reason` is always empty.
pub struct ErrorBody {
    pub code: usize,
    pub reason: String,
    pub description: String,
}

#[verifier::ext_equal]
pub ghost struct ErrorBodyView {
    pub code: usize,
    pub reason: Seq<char>,
    pub description: Seq<char>,
}

impl View for ErrorBody {
    type V = ErrorBodyView;

    open spec fn view(&self) -> ErrorBodyView {
        ErrorBodyView { code: self.code, reason: self.reason@, description: self.description@ }
    }
}

impl Clone for ErrorBody {
    fn clone(&self) -> (r: Self)
        ensures
            r@ == self@,
    {
        ErrorBody {
            code: self.code,
            reason: self.reason.clone(),
            description: self.description.clone(),
        }
    }
}

/// An error payload with the given code and description and an empty reason.
pub open spec fn spec_error(code: usize, description: Seq<char>) -> ErrorBodyView {
    ErrorBodyView { code, reason: Seq::empty(), description }
}

pub fn error_body(code: usize, description: String) -> (r: ErrorBody)
    ensures
        r@ == spec_error(code, description@),
{
    ErrorBody { code, reason: String::new(), description }
}

/// What a handler answers: either a bare text body, or one of the JSON body
/// shapes the service produces (a `data` envelope around a string, a task or
/// a person, or an `error` envelope around an `ErrorBody`).
pub enum Reply {
    Plain(String),
    DataText(String),
    DataTask(Task),
    DataPerson(Person),
    Failure(ErrorBody),
}

#[verifier::ext_equal]
pub ghost enum ReplyView {
    Plain(Seq<char>),
    DataText(Seq<char>),
    DataTask(TaskView),
    DataPerson(PersonView),
    Failure(ErrorBodyView),
}

impl View for Reply {
    type V = ReplyView;

    open spec fn view(&self) -> ReplyView {
        match self {
            Reply::Plain(s) => ReplyView::Plain(s@),
            Reply::DataText(s) => ReplyView::DataText(s@),
            Reply::DataTask(t) => ReplyView::DataTask(t@),
            Reply::DataPerson(p) => ReplyView::DataPerson(p@),
            Reply::Failure(e) => ReplyView::Failure(e@),
        }
    }
}

} // verus!
