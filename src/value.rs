use vstd::prelude::*;
use crate::json::{decimal, json_bool, json_str, push_char, push_decimal, push_json_str};

verus! {

/// A JSON value, for the caller's own top-level fields of a payload. Numbers
/// are integers.
#[derive(Debug)]
pub enum JsonValue {
    Null,
    Bool(bool),
    Number(i64),
    Str(String),
    Array(Vec<JsonValue>),
    Object(Vec<(String, JsonValue)>),
}

/// The JSON text of an integer.
pub open spec fn int_json(n: int) -> Seq<char> {
    if n < 0 {
        seq!['-'] + decimal((-n) as nat)
    } else {
        decimal(n as nat)
    }
}

/// The JSON text of a value.
pub open spec fn value_json(v: JsonValue) -> Seq<char>
    decreases v,
{
    match v {
        JsonValue::Null => seq!['n', 'u', 'l', 'l'],
        JsonValue::Bool(b) => json_bool(b),
        JsonValue::Number(n) => int_json(n as int),
        JsonValue::Str(s) => json_str(s@),
        JsonValue::Array(items) => seq!['['] + elements_json(items@) + seq![']'],
        JsonValue::Object(members) => seq!['{'] + members_json(members@) + seq!['}'],
    }
}

/// The elements of an array, separated by commas.
pub open spec fn elements_json(items: Seq<JsonValue>) -> Seq<char>
    decreases items,
{
    if items.len() == 0 {
        seq![]
    } else if items.len() == 1 {
        value_json(items[0])
    } else {
        elements_json(items.drop_last()) + seq![','] + value_json(items.last())
    }
}

/// The members of an object, separated by commas.
pub open spec fn members_json(members: Seq<(String, JsonValue)>) -> Seq<char>
    decreases members,
{
    if members.len() == 0 {
        seq![]
    } else if members.len() == 1 {
        json_str(members[0].0@) + seq![':'] + value_json(members[0].1)
    } else {
        members_json(members.drop_last()) + seq![','] + json_str(members.last().0@) + seq![':']
            + value_json(members.last().1)
    }
}

/// Appends the JSON text of `v`.
pub fn push_value(out: &mut String, v: &JsonValue)
    ensures
        final(out)@ == old(out)@ + value_json(*v),
    decreases v,
{
    let ghost start = out@;
    match v {
        JsonValue::Null => {
            push_char(out, 'n');
            push_char(out, 'u');
            push_char(out, 'l');
            push_char(out, 'l');
        },
        JsonValue::Bool(b) => {
            if *b {
                push_char(out, 't');
                push_char(out, 'r');
                push_char(out, 'u');
                push_char(out, 'e');
            } else {
                push_char(out, 'f');
                push_char(out, 'a');
                push_char(out, 'l');
                push_char(out, 's');
                push_char(out, 'e');
            }
        },
        JsonValue::Number(n) => {
            let magnitude: u64 = if *n < 0 {
                push_char(out, '-');
                (0i128 - *n as i128) as u64
            } else {
                *n as u64
            };
            push_decimal(out, magnitude);
        },
        JsonValue::Str(s) => {
            push_json_str(out, s.as_str());
        },
        JsonValue::Array(items) => {
            push_char(out, '[');
            let mut i: usize = 0;
            while i < items.len()
                invariant
                    i <= items@.len(),
                    *v == JsonValue::Array(*items),
                    out@ == start + seq!['['] + elements_json(items@.take(i as int)),
                decreases items@.len() - i,
            {
                if i > 0 {
                    push_char(out, ',');
                }
                proof {
                    assert(decreases_to!(*v => (*v)->Array_0));
                    assert(decreases_to!(*items => items@));
                    assert(decreases_to!(items@ => items@[i as int]));
                }
                push_value(out, &items[i]);
                proof {
                    let t = items@.take(i as int + 1);
                    assert(t.drop_last() =~= items@.take(i as int));
                    assert(t.last() == items@[i as int]);
                    assert(out@ =~= start + seq!['['] + elements_json(t));
                }
                i = i + 1;
            }
            push_char(out, ']');
            proof {
                assert(items@.take(items@.len() as int) =~= items@);
            }
        },
        JsonValue::Object(members) => {
            push_char(out, '{');
            let mut i: usize = 0;
            while i < members.len()
                invariant
                    i <= members@.len(),
                    *v == JsonValue::Object(*members),
                    out@ == start + seq!['{'] + members_json(members@.take(i as int)),
                decreases members@.len() - i,
            {
                if i > 0 {
                    push_char(out, ',');
                }
                push_json_str(out, members[i].0.as_str());
                push_char(out, ':');
                proof {
                    assert(decreases_to!(*v => (*v)->Object_0));
                    assert(decreases_to!(*members => members@));
                    assert(decreases_to!(members@ => members@[i as int]));
                    assert(decreases_to!(members@[i as int] => members@[i as int].1));
                }
                push_value(out, &members[i].1);
                proof {
                    let t = members@.take(i as int + 1);
                    assert(t.drop_last() =~= members@.take(i as int));
                    assert(t.last() == members@[i as int]);
                    assert(out@ =~= start + seq!['{'] + members_json(t));
                }
                i = i + 1;
            }
            push_char(out, '}');
            proof {
                assert(members@.take(members@.len() as int) =~= members@);
            }
        },
    }
    proof {
        assert(out@ =~= start + value_json(*v));
    }
}

impl JsonValue {
    /// The JSON text of this value.
    pub fn to_json(&self) -> (r: String)
        ensures
            r@ == value_json(*self),
    {
        let mut out = String::new();
        push_value(&mut out, self);
        proof {
            assert(out@ =~= value_json(*self));
        }
        out
    }
}

} // verus!
