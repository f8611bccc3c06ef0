use vstd::prelude::*;
use vstd::string::{StrSliceExecFns, StringExecFns};
use crate::model::{ErrorBody, ErrorBodyView, Person, PersonView, Reply, ReplyView, Task, TaskView};
use crate::text::{dec_str, push_char, push_dec};

verus! {

/// The character for one hexadecimal digit below 16.
pub open spec fn hex_digit(d: int) -> char {
    if d < 10 {
        crate::text::dec_digit(d)
    } else if d == 10 {
        'a'
    } else if d == 11 {
        'b'
    } else if d == 12 {
        'c'
    } else if d == 13 {
        'd'
    } else if d == 14 {
        'e'
    } else {
        'f'
    }
}

/// How one character appears inside a JSON string literal: quote and
/// backslash get a backslash escape, the control characters below space get
/// their short escape or a `\u00XX` escape, and every other character stands
/// for itself.
pub open spec fn esc_char(c: char) -> Seq<char> {
    if c == '"' {
        "\\\""@
    } else if c == '\\' {
        "\\\\"@
    } else if c == '\n' {
        "\\n"@
    } else if c == '\r' {
        "\\r"@
    } else if c == '\t' {
        "\\t"@
    } else if (c as u32) == 8 {
        "\\b"@
    } else if (c as u32) == 12 {
        "\\f"@
    } else if (c as u32) < 32 {
        "\\u00"@ + seq![hex_digit(((c as u32) as int) / 16), hex_digit(((c as u32) as int) % 16)]
    } else {
        seq![c]
    }
}

/// The body of a JSON string literal: each character escaped in turn.
pub open spec fn json_escape(s: Seq<char>) -> Seq<char>
    decreases s.len(),
{
    if s.len() == 0 {
        Seq::empty()
    } else {
        esc_char(s[0]) + json_escape(s.drop_first())
    }
}

/// A JSON string literal: the escaped body between double quotes.
pub open spec fn json_string(s: Seq<char>) -> Seq<char> {
    "\""@ + json_escape(s) + "\""@
}

proof fn lemma_json_escape_snoc(s: Seq<char>, c: char)
    ensures
        json_escape(s.push(c)) == json_escape(s) + esc_char(c),
    decreases s.len(),
{
    if s.len() == 0 {
        assert(s.push(c).drop_first() =~= Seq::<char>::empty());
        assert(s.push(c)[0] == c);
        assert(json_escape(Seq::<char>::empty()) == Seq::<char>::empty());
        assert(json_escape(s.push(c)) == esc_char(c) + json_escape(Seq::<char>::empty()));
        assert(json_escape(s.push(c)) =~= json_escape(s) + esc_char(c));
    } else {
        assert(s.push(c)[0] == s[0]);
        assert(s.push(c).drop_first() =~= s.drop_first().push(c));
        lemma_json_escape_snoc(s.drop_first(), c);
        assert(json_escape(s.push(c)) == esc_char(s[0]) + (json_escape(s.drop_first())
            + esc_char(c)));
        assert(json_escape(s.push(c)) =~= json_escape(s) + esc_char(c));
    }
}

fn hex_digit_exec(d: u32) -> (c: char)
    requires
        d < 16,
    ensures
        c == hex_digit(d as int),
{
    match d {
        0 => '0',
        1 => '1',
        2 => '2',
        3 => '3',
        4 => '4',
        5 => '5',
        6 => '6',
        7 => '7',
        8 => '8',
        9 => '9',
        10 => 'a',
        11 => 'b',
        12 => 'c',
        13 => 'd',
        14 => 'e',
        _ => 'f',
    }
}

fn push_esc_char(out: &mut String, c: char)
    ensures
        final(out)@ == old(out)@ + esc_char(c),
{
    if c == '"' {
        out.append("\\\"");
    } else if c == '\\' {
        out.append("\\\\");
    } else if c == '\n' {
        out.append("\\n");
    } else if c == '\r' {
        out.append("\\r");
    } else if c == '\t' {
        out.append("\\t");
    } else if (c as u32) == 8 {
        out.append("\\b");
    } else if (c as u32) == 12 {
        out.append("\\f");
    } else if (c as u32) < 32 {
        out.append("\\u00");
        let hi = hex_digit_exec(c as u32 / 16);
        let lo = hex_digit_exec(c as u32 % 16);
        push_char(out, hi);
        push_char(out, lo);
        proof {
            assert(out@ =~= old(out)@ + esc_char(c));
        }
    } else {
        push_char(out, c);
        proof {
            assert(out@ =~= old(out)@ + esc_char(c));
        }
    }
}

fn push_escaped(out: &mut String, s: &str)
    ensures
        final(out)@ == old(out)@ + json_escape(s@),
{
    let n: usize = s.unicode_len();
    let mut i: usize = 0;
    proof {
        assert(s@.take(0) =~= Seq::<char>::empty());
        assert(out@ =~= old(out)@ + json_escape(s@.take(0)));
    }
    while i < n
        invariant
            i <= n,
            n == s@.len(),
            out@ == old(out)@ + json_escape(s@.take(i as int)),
        decreases n - i,
    {
        let c = s.get_char(i);
        push_esc_char(out, c);
        proof {
            assert(s@.take(i + 1) =~= s@.take(i as int).push(s@[i as int]));
            lemma_json_escape_snoc(s@.take(i as int), s@[i as int]);
            assert(out@ =~= old(out)@ + json_escape(s@.take(i + 1)));
        }
        i = i + 1;
    }
    proof {
        assert(s@.take(n as int) =~= s@);
    }
}

/// Appends the JSON string literal for `s` to `out`.
fn push_json_string(out: &mut String, s: &str)
    ensures
        final(out)@ == old(out)@ + json_string(s@),
{
    out.append("\"");
    push_escaped(out, s);
    out.append("\"");
    proof {
        assert(out@ =~= old(out)@ + json_string(s@));
    }
}

/// The JSON object for a person, fields in declaration order.
pub open spec fn json_person(p: PersonView) -> Seq<char> {
    "{\"id\":"@ + dec_str(p.id as nat) + ",\"name\":"@ + json_string(p.name) + ",\"age\":"@
        + dec_str(p.age as nat) + "}"@
}

fn push_person(out: &mut String, p: &Person)
    ensures
        final(out)@ == old(out)@ + json_person(p@),
{
    out.append("{\"id\":");
    push_dec(out, p.id);
    out.append(",\"name\":");
    push_json_string(out, p.name.as_str());
    out.append(",\"age\":");
    push_dec(out, p.age as usize);
    out.append("}");
    proof {
        assert(out@ =~= old(out)@ + json_person(p@));
    }
}

/// The bare JSON body for a person, as the lookup handler answers it.
pub fn render_person(p: &Person) -> (r: String)
    ensures
        r@ == json_person(p@),
{
    let mut out = String::new();
    push_person(&mut out, p);
    proof {
        assert(out@ =~= json_person(p@));
    }
    out
}

/// The JSON object for a task, fields in declaration order.
pub open spec fn json_task(t: TaskView) -> Seq<char> {
    "{\"id\":"@ + dec_str(t.id as nat) + ",\"name\":"@ + json_string(t.name) + "}"@
}

fn push_task(out: &mut String, t: &Task)
    ensures
        final(out)@ == old(out)@ + json_task(t@),
{
    out.append("{\"id\":");
    push_dec(out, t.id);
    out.append(",\"name\":");
    push_json_string(out, t.name.as_str());
    out.append("}");
    proof {
        assert(out@ =~= old(out)@ + json_task(t@));
    }
}

/// The JSON object for an error payload, fields in declaration order.
pub open spec fn json_error(e: ErrorBodyView) -> Seq<char> {
    "{\"code\":"@ + dec_str(e.code as nat) + ",\"reason\":"@ + json_string(e.reason)
        + ",\"description\":"@ + json_string(e.description) + "}"@
}

fn push_error(out: &mut String, e: &ErrorBody)
    ensures
        final(out)@ == old(out)@ + json_error(e@),
{
    out.append("{\"code\":");
    push_dec(out, e.code);
    out.append(",\"reason\":");
    push_json_string(out, e.reason.as_str());
    out.append(",\"description\":");
    push_json_string(out, e.description.as_str());
    out.append("}");
    proof {
        assert(out@ =~= old(out)@ + json_error(e@));
    }
}

/// The response body for a reply: a bare text body stands as it is, a data
/// reply is wrapped in a `data` envelope, a failure in an `error` envelope.
pub open spec fn json_reply(r: ReplyView) -> Seq<char> {
    match r {
        ReplyView::Plain(s) => s,
        ReplyView::DataText(s) => "{\"data\":"@ + json_string(s) + "}"@,
        ReplyView::DataTask(t) => "{\"data\":"@ + json_task(t) + "}"@,
        ReplyView::DataPerson(p) => "{\"data\":"@ + json_person(p) + "}"@,
        ReplyView::Failure(e) => "{\"error\":"@ + json_error(e) + "}"@,
    }
}

/// The response body for a reply, as an owned string.
pub fn render_reply(r: &Reply) -> (out: String)
    ensures
        out@ == json_reply(r@),
{
    match r {
        Reply::Plain(s) => s.clone(),
        Reply::DataText(s) => {
            let mut out = String::from_str("{\"data\":");
            push_json_string(&mut out, s.as_str());
            out.append("}");
            proof {
                assert(out@ =~= json_reply(r@));
            }
            out
        },
        Reply::DataTask(t) => {
            let mut out = String::from_str("{\"data\":");
            push_task(&mut out, t);
            out.append("}");
            proof {
                assert(out@ =~= json_reply(r@));
            }
            out
        },
        Reply::DataPerson(p) => {
            let mut out = String::from_str("{\"data\":");
            push_person(&mut out, p);
            out.append("}");
            proof {
                assert(out@ =~= json_reply(r@));
            }
            out
        },
        Reply::Failure(e) => {
            let mut out = String::from_str("{\"error\":");
            push_error(&mut out, e);
            out.append("}");
            proof {
                assert(out@ =~= json_reply(r@));
            }
            out
        },
    }
}

} // verus!
