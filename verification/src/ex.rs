use vstd::prelude::*;
use vstd::string::StringExecFns;
use crate::model::{Reply, ReplyView, Task, error_body, spec_error};
use crate::text::{dec_str, usize_to_string};

verus! {

/// The greeting body.
pub fn hello() -> (r: String)
    ensures
        r@ == "hello world"@,
{
    String::from_str("hello world")
}

/// Listing the "ex" resources: a fixed placeholder, no real listing occurs.
pub fn get_exs() -> (r: Reply)
    ensures
        r@ == ReplyView::DataText("ex list"@),
{
    Reply::DataText(String::from_str("ex list"))
}

/// Fetching an "ex" resource: echoes the identifier back as its decimal
/// rendering, without checking that any such resource exists.
pub fn get_ex(id: usize) -> (r: Reply)
    ensures
        r@ == ReplyView::DataText(dec_str(id as nat)),
{
    Reply::DataText(usize_to_string(id))
}

/// Creating an "ex" resource: echoes the task back unmodified, with no
/// storage side effect.
pub fn post_ex(task: Task) -> (r: Reply)
    ensures
        r@ == ReplyView::DataTask(task@),
{
    Reply::DataTask(task)
}

/// Updating an "ex" resource: echoes the identifier back; any body is
/// ignored and nothing is stored.
pub fn put_ex(id: usize) -> (r: Reply)
    ensures
        r@ == ReplyView::DataText(dec_str(id as nat)),
{
    Reply::DataText(usize_to_string(id))
}

/// Deleting an "ex" resource: echoes the identifier back as a bare string,
/// without the `data` envelope its siblings use.
pub fn delete_ex(id: usize) -> (r: Reply)
    ensures
        r@ == ReplyView::Plain(dec_str(id as nat)),
{
    Reply::Plain(usize_to_string(id))
}

/// The fallback for an unmatched path under the service root: a bare 404
/// error body with empty prose.
pub fn not_found() -> (r: Reply)
    ensures
        r@ == ReplyView::Failure(spec_error(404, Seq::empty())),
{
    Reply::Failure(error_body(404, String::new()))
}

/// The fallback for an unmatched path under the "ex" group's prefix.
pub fn not_found_base() -> (r: Reply)
    ensures
        r@ == ReplyView::Failure(spec_error(404, "not found base"@)),
{
    Reply::Failure(error_body(404, String::from_str("not found base")))
}

} // verus!
