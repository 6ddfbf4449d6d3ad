use vstd::prelude::*;

verus! {

/// Relies on `String::push`: the character is appended at the end.
#[verifier::external_body]
pub(crate) fn push_char(s: &mut String, c: char)
    ensures
        final(s)@ == old(s)@.push(c),
{
    s.push(c)
}

/// The ASCII digit for `d`, which is below ten.
pub open spec fn digit_char(d: nat) -> char {
    ((48 + d) as u8) as char
}

/// The decimal digits of `n`, most significant first, with no leading zero.
pub open spec fn decimal(n: nat) -> Seq<char>
    decreases n,
{
    if n < 10 {
        seq![digit_char(n)]
    } else {
        decimal(n / 10).push(digit_char(n % 10))
    }
}

/// Appends the decimal digits of `n` to `out`.
pub fn push_decimal(out: &mut String, n: u64)
    ensures
        final(out)@ == old(out)@ + decimal(n as nat),
    decreases n,
{
    if n >= 10 {
        push_decimal(out, n / 10);
    }
    let d: u8 = (n % 10) as u8;
    push_char(out, (48u8 + d) as char);
    proof {
        assert(old(out)@ + decimal(n as nat) =~= out@);
    }
}

/// The lower-case hexadecimal digit for `d`, which is below sixteen.
pub open spec fn hex_char(d: nat) -> char {
    if d < 10 {
        digit_char(d)
    } else {
        ((87 + d) as u8) as char
    }
}

/// How one character stands inside a JSON string literal: quote and backslash
/// are escaped, control characters take their short escape or `\u00XX`.
pub open spec fn escape_char(c: char) -> Seq<char> {
    if c == '"' {
        seq!['\\', '"']
    } else if c == '\\' {
        seq!['\\', '\\']
    } else if c == '\n' {
        seq!['\\', 'n']
    } else if c == '\r' {
        seq!['\\', 'r']
    } else if c == '\t' {
        seq!['\\', 't']
    } else if c == '\x08' {
        seq!['\\', 'b']
    } else if c == '\x0c' {
        seq!['\\', 'f']
    } else if (c as u32) < 0x20 {
        seq!['\\', 'u', '0', '0', hex_char((c as u32) as nat / 16), hex_char((c as u32) as nat % 16)]
    } else {
        seq![c]
    }
}

/// The escaped contents of a JSON string literal for `s`, without the quotes.
pub open spec fn escaped(s: Seq<char>) -> Seq<char>
    decreases s.len(),
{
    if s.len() == 0 {
        seq![]
    } else {
        escaped(s.drop_last()) + escape_char(s.last())
    }
}

/// The JSON string literal for `s`.
pub open spec fn json_str(s: Seq<char>) -> Seq<char> {
    seq!['"'] + escaped(s) + seq!['"']
}

/// The JSON literal for a boolean.
pub open spec fn json_bool(b: bool) -> Seq<char> {
    if b {
        seq!['t', 'r', 'u', 'e']
    } else {
        seq!['f', 'a', 'l', 's', 'e']
    }
}

/// One member of a JSON object: the key as a string literal, a colon, the value.
pub open spec fn member(key: Seq<char>, value: Seq<char>) -> Seq<char> {
    json_str(key) + seq![':'] + value
}

/// The members of an object, separated by commas, each given as key and value text.
pub open spec fn members(fields: Seq<(Seq<char>, Seq<char>)>) -> Seq<char>
    decreases fields.len(),
{
    if fields.len() == 0 {
        seq![]
    } else if fields.len() == 1 {
        member(fields[0].0, fields[0].1)
    } else {
        members(fields.drop_last()) + seq![','] + member(fields.last().0, fields.last().1)
    }
}

/// The JSON object text with the given members, in order.
pub open spec fn json_object(fields: Seq<(Seq<char>, Seq<char>)>) -> Seq<char> {
    seq!['{'] + members(fields) + seq!['}']
}

/// The elements of an array of strings, separated by commas.
pub open spec fn str_elements(items: Seq<Seq<char>>) -> Seq<char>
    decreases items.len(),
{
    if items.len() == 0 {
        seq![]
    } else if items.len() == 1 {
        json_str(items[0])
    } else {
        str_elements(items.drop_last()) + seq![','] + json_str(items.last())
    }
}

/// The JSON array text holding the given strings, in order.
pub open spec fn json_str_array(items: Seq<Seq<char>>) -> Seq<char> {
    seq!['['] + str_elements(items) + seq![']']
}

/// The views of a sequence of strings.
pub open spec fn views(v: Seq<String>) -> Seq<Seq<char>> {
    v.map_values(|s: String| s@)
}

/// The key and value text of each entry, as views.
pub open spec fn entry_views(v: Seq<(String, String)>) -> Seq<(Seq<char>, Seq<char>)> {
    v.map_values(|e: (String, String)| (e.0@, e.1@))
}

/// Appends the escaped characters of `s`.
fn push_escaped(out: &mut String, s: &str)
    ensures
        final(out)@ == old(out)@ + escaped(s@),
{
    let n = s.unicode_len();
    let mut i: usize = 0;
    while i < n
        invariant
            n == s@.len(),
            i <= n,
            out@ == old(out)@ + escaped(s@.take(i as int)),
        decreases n - i,
    {
        let c = s.get_char(i);
        let ghost before = out@;
        if c == '"' {
            push_char(out, '\\');
            push_char(out, '"');
        } else if c == '\\' {
            push_char(out, '\\');
            push_char(out, '\\');
        } else if c == '\n' {
            push_char(out, '\\');
            push_char(out, 'n');
        } else if c == '\r' {
            push_char(out, '\\');
            push_char(out, 'r');
        } else if c == '\t' {
            push_char(out, '\\');
            push_char(out, 't');
        } else if c == '\x08' {
            push_char(out, '\\');
            push_char(out, 'b');
        } else if c == '\x0c' {
            push_char(out, '\\');
            push_char(out, 'f');
        } else if (c as u32) < 0x20 {
            let code: u32 = c as u32;
            push_char(out, '\\');
            push_char(out, 'u');
            push_char(out, '0');
            push_char(out, '0');
            push_char(out, hex_digit(code / 16));
            push_char(out, hex_digit(code % 16));
        } else {
            push_char(out, c);
        }
        proof {
            let t = s@.take(i as int + 1);
            assert(t.drop_last() =~= s@.take(i as int));
            assert(t.last() == c);
            assert(out@ =~= before + escape_char(c));
        }
        i = i + 1;
    }
    proof {
        assert(s@.take(n as int) =~= s@);
    }
}

/// The hexadecimal digit character for `d`, which is below sixteen.
fn hex_digit(d: u32) -> (c: char)
    requires
        d < 16,
    ensures
        c == hex_char(d as nat),
{
    if d < 10 {
        (48u8 + d as u8) as char
    } else {
        (87u8 + d as u8) as char
    }
}

/// Appends the JSON string literal for `s`.
pub fn push_json_str(out: &mut String, s: &str)
    ensures
        final(out)@ == old(out)@ + json_str(s@),
{
    push_char(out, '"');
    push_escaped(out, s);
    push_char(out, '"');
    proof {
        assert(out@ =~= old(out)@ + json_str(s@));
    }
}

/// The JSON string literal for `s`.
pub fn str_to_json(s: &str) -> (r: String)
    ensures
        r@ == json_str(s@),
{
    let mut out = String::new();
    push_json_str(&mut out, s);
    proof {
        assert(out@ =~= json_str(s@));
    }
    out
}

/// The JSON object text for the given members, each a key and the text of its value.
pub fn object_to_json(fields: &Vec<(String, String)>) -> (r: String)
    ensures
        r@ == json_object(entry_views(fields@)),
{
    let mut out = String::new();
    push_char(&mut out, '{');
    let mut i: usize = 0;
    while i < fields.len()
        invariant
            i <= fields@.len(),
            out@ == seq!['{'] + members(entry_views(fields@.take(i as int))),
        decreases fields@.len() - i,
    {
        if i > 0 {
            push_char(&mut out, ',');
        }
        push_json_str(&mut out, fields[i].0.as_str());
        push_char(&mut out, ':');
        out.append(fields[i].1.as_str());
        proof {
            let t = entry_views(fields@.take(i as int + 1));
            assert(t.drop_last() =~= entry_views(fields@.take(i as int)));
            assert(t.last() == (fields@[i as int].0@, fields@[i as int].1@));
            assert(out@ =~= seq!['{'] + members(t));
        }
        i = i + 1;
    }
    push_char(&mut out, '}');
    proof {
        assert(fields@.take(fields@.len() as int) =~= fields@);
        assert(out@ =~= json_object(entry_views(fields@)));
    }
    out
}

/// The JSON array text holding the given strings.
pub fn str_array_to_json(items: &Vec<String>) -> (r: String)
    ensures
        r@ == json_str_array(views(items@)),
{
    let mut out = String::new();
    push_char(&mut out, '[');
    let mut i: usize = 0;
    while i < items.len()
        invariant
            i <= items@.len(),
            out@ == seq!['['] + str_elements(views(items@.take(i as int))),
        decreases items@.len() - i,
    {
        if i > 0 {
            push_char(&mut out, ',');
        }
        push_json_str(&mut out, items[i].as_str());
        proof {
            let t = views(items@.take(i as int + 1));
            assert(t.drop_last() =~= views(items@.take(i as int)));
            assert(t.last() == items@[i as int]@);
            assert(out@ =~= seq!['['] + str_elements(t));
        }
        i = i + 1;
    }
    push_char(&mut out, ']');
    proof {
        assert(items@.take(items@.len() as int) =~= items@);
        assert(out@ =~= json_str_array(views(items@)));
    }
    out
}

} // verus!
