//! Verified JSON framing for request bodies.
//!
//! Bodies are flat JSON objects whose members appear in declared field
//! order; unset optional fields are omitted entirely (no `null` is ever
//! emitted).  String values are escaped the standard way: `"` and `\`
//! get a backslash, the five control characters with short forms use
//! them, and every other control character becomes `\u00XX`.

use vstd::prelude::*;

verus! {

/// The lowercase hexadecimal digit characters.
pub open spec fn hex_digit(d: nat) -> char {
    if d == 0 {
        '0'
    } else if d == 1 {
        '1'
    } else if d == 2 {
        '2'
    } else if d == 3 {
        '3'
    } else if d == 4 {
        '4'
    } else if d == 5 {
        '5'
    } else if d == 6 {
        '6'
    } else if d == 7 {
        '7'
    } else if d == 8 {
        '8'
    } else if d == 9 {
        '9'
    } else if d == 10 {
        'a'
    } else if d == 11 {
        'b'
    } else if d == 12 {
        'c'
    } else if d == 13 {
        'd'
    } else if d == 14 {
        'e'
    } else {
        'f'
    }
}

/// How one character is written inside a JSON string literal.
pub open spec fn escape_char(c: char) -> Seq<char> {
    if c == '"' {
        seq!['\\', '"']
    } else if c == '\\' {
        seq!['\\', '\\']
    } else if c == '\u{8}' {
        seq!['\\', 'b']
    } else if c == '\t' {
        seq!['\\', 't']
    } else if c == '\n' {
        seq!['\\', 'n']
    } else if c == '\u{c}' {
        seq!['\\', 'f']
    } else if c == '\r' {
        seq!['\\', 'r']
    } else if (c as int) < 0x20 {
        seq!['\\', 'u', '0', '0', hex_digit((c as int / 16) as nat), hex_digit((c as int % 16) as nat)]
    } else {
        seq![c]
    }
}

/// A character sequence escaped for a JSON string literal.
pub open spec fn escaped(s: Seq<char>) -> Seq<char>
    decreases s.len(),
{
    if s.len() == 0 {
        Seq::empty()
    } else {
        escaped(s.drop_last()) + escape_char(s.last())
    }
}

/// A JSON string literal: the escaped characters between quotes.
pub open spec fn json_string(s: Seq<char>) -> Seq<char> {
    "\""@ + escaped(s) + "\""@
}

/// One object member, `"name":value`; the value is already-rendered JSON.
pub open spec fn json_member(name: Seq<char>, value: Seq<char>) -> Seq<char> {
    "\""@ + name + "\":"@ + value
}

/// The members of an object, comma-separated, in order.
pub open spec fn json_members(pairs: Seq<(Seq<char>, Seq<char>)>) -> Seq<char>
    decreases pairs.len(),
{
    if pairs.len() == 0 {
        Seq::empty()
    } else if pairs.len() == 1 {
        json_member(pairs[0].0, pairs[0].1)
    } else {
        json_members(pairs.drop_last()) + ","@ + json_member(pairs.last().0, pairs.last().1)
    }
}

/// A whole object.
pub open spec fn json_object(pairs: Seq<(Seq<char>, Seq<char>)>) -> Seq<char> {
    "{"@ + json_members(pairs) + "}"@
}

/// The contribution of one optional member to an object's pair list.
pub open spec fn opt_member(name: Seq<char>, value: Option<Seq<char>>) -> Seq<
    (Seq<char>, Seq<char>),
> {
    match value {
        Some(v) => seq![(name, v)],
        None => Seq::empty(),
    }
}

/// The rendered value of an optional string member.
pub open spec fn opt_json_str(v: Option<&str>) -> Option<Seq<char>> {
    match v {
        Some(s) => Some(json_string(s@)),
        None => None,
    }
}

/// Relies on `String::push`: appends exactly the given character.
#[verifier::external_body]
pub fn push_char(s: &mut String, c: char)
    ensures
        final(s)@ == old(s)@ + seq![c],
{
    s.push(c)
}

fn hex_char(d: u32) -> (r: char)
    requires
        d < 16,
    ensures
        r == hex_digit(d as nat),
{
    if d == 0 {
        '0'
    } else if d == 1 {
        '1'
    } else if d == 2 {
        '2'
    } else if d == 3 {
        '3'
    } else if d == 4 {
        '4'
    } else if d == 5 {
        '5'
    } else if d == 6 {
        '6'
    } else if d == 7 {
        '7'
    } else if d == 8 {
        '8'
    } else if d == 9 {
        '9'
    } else if d == 10 {
        'a'
    } else if d == 11 {
        'b'
    } else if d == 12 {
        'c'
    } else if d == 13 {
        'd'
    } else if d == 14 {
        'e'
    } else {
        'f'
    }
}

/// Append the escape of one character.
fn push_escaped_char(out: &mut String, c: char)
    ensures
        final(out)@ == old(out)@ + escape_char(c),
{
    if c == '"' {
        push_char(out, '\\');
        push_char(out, '"');
        proof {
            assert(out@ =~= old(out)@ + escape_char(c));
        }
    } else if c == '\\' {
        push_char(out, '\\');
        push_char(out, '\\');
        proof {
            assert(out@ =~= old(out)@ + escape_char(c));
        }
    } else if c == '\u{8}' {
        push_char(out, '\\');
        push_char(out, 'b');
        proof {
            assert(out@ =~= old(out)@ + escape_char(c));
        }
    } else if c == '\t' {
        push_char(out, '\\');
        push_char(out, 't');
        proof {
            assert(out@ =~= old(out)@ + escape_char(c));
        }
    } else if c == '\n' {
        push_char(out, '\\');
        push_char(out, 'n');
        proof {
            assert(out@ =~= old(out)@ + escape_char(c));
        }
    } else if c == '\u{c}' {
        push_char(out, '\\');
        push_char(out, 'f');
        proof {
            assert(out@ =~= old(out)@ + escape_char(c));
        }
    } else if c == '\r' {
        push_char(out, '\\');
        push_char(out, 'r');
        proof {
            assert(out@ =~= old(out)@ + escape_char(c));
        }
    } else if (c as u32) < 0x20 {
        let code = c as u32;
        push_char(out, '\\');
        push_char(out, 'u');
        push_char(out, '0');
        push_char(out, '0');
        push_char(out, hex_char(code / 16));
        push_char(out, hex_char(code % 16));
        proof {
            assert(out@ =~= old(out)@ + escape_char(c));
        }
    } else {
        push_char(out, c);
        proof {
            assert(out@ =~= old(out)@ + escape_char(c));
        }
    }
}

/// Escape a string for use inside a JSON string literal.
pub fn escape(s: &str) -> (r: String)
    ensures
        r@ == escaped(s@),
{
    let n = s.unicode_len();
    let mut out = String::new();
    let mut i: usize = 0;
    while i < n
        invariant
            n == s@.len(),
            i <= n,
            out@ == escaped(s@.subrange(0, i as int)),
        decreases n - i,
    {
        let c = s.get_char(i);
        push_escaped_char(&mut out, c);
        proof {
            let cur = s@.subrange(0, i + 1 as int);
            assert(cur.drop_last() =~= s@.subrange(0, i as int));
            assert(cur.last() == s@[i as int]);
        }
        i = i + 1;
    }
    proof {
        assert(s@.subrange(0, n as int) =~= s@);
    }
    out
}

/// Render a JSON string literal: quotes around the escaped characters.
pub fn json_quote(s: &str) -> (r: String)
    ensures
        r@ == json_string(s@),
{
    let mut out = String::from_str("\"");
    let esc = escape(s);
    out.append(esc.as_str());
    out.append("\"");
    proof {
        assert(out@ =~= json_string(s@));
    }
    out
}

/// Record one object member: the name and its already-rendered value.
pub fn push_pair(pairs: &mut Vec<(String, String)>, name: &str, value: String)
    ensures
        final(pairs).deep_view() == old(pairs).deep_view().push((name@, value@)),
{
    let n = String::from_str(name);
    let ghost v = value@;
    pairs.push((n, value));
    proof {
        assert(pairs.deep_view() =~= old(pairs).deep_view().push((name@, v)));
    }
}

/// Record one always-present member, keeping the member list in step.
pub fn push_member(
    pairs: &mut Vec<(String, String)>,
    gp: Ghost<Seq<(Seq<char>, Seq<char>)>>,
    name: &str,
    value: String,
) -> (r: Ghost<Seq<(Seq<char>, Seq<char>)>>)
    requires
        old(pairs).deep_view() == gp@,
    ensures
        r@ == gp@ + seq![(name@, value@)],
        final(pairs).deep_view() == r@,
{
    let ghost result = gp@ + seq![(name@, value@)];
    push_pair(pairs, name, value);
    proof {
        assert(gp@.push((name@, value@)) =~= result);
    }
    Ghost(result)
}

/// Record one optional string member, keeping the member list in step.
pub fn push_opt_str_member(
    pairs: &mut Vec<(String, String)>,
    gp: Ghost<Seq<(Seq<char>, Seq<char>)>>,
    name: &str,
    value: Option<&str>,
) -> (r: Ghost<Seq<(Seq<char>, Seq<char>)>>)
    requires
        old(pairs).deep_view() == gp@,
    ensures
        r@ == gp@ + opt_member(name@, opt_json_str(value)),
        final(pairs).deep_view() == r@,
{
    let ghost result = gp@ + opt_member(name@, opt_json_str(value));
    if let Some(v) = value {
        push_pair(pairs, name, json_quote(v));
        proof {
            assert(gp@.push((name@, json_string(v@))) =~= result);
        }
    } else {
        proof {
            assert(result =~= gp@);
        }
    }
    Ghost(result)
}

/// Render a whole object from its already-rendered members, in order.
pub fn render_object(pairs: &Vec<(String, String)>) -> (r: String)
    ensures
        r@ == json_object(pairs.deep_view()),
{
    let mut out = String::from_str("{");
    let mut i: usize = 0;
    while i < pairs.len()
        invariant
            i <= pairs.len(),
            pairs.deep_view().len() == pairs@.len(),
            out@ == "{"@ + json_members(pairs.deep_view().subrange(0, i as int)),
        decreases pairs.len() - i,
    {
        if i > 0 {
            out.append(",");
        }
        out.append("\"");
        out.append(pairs[i].0.as_str());
        out.append("\":");
        out.append(pairs[i].1.as_str());
        proof {
            let prev = pairs.deep_view().subrange(0, i as int);
            let cur = pairs.deep_view().subrange(0, i + 1 as int);
            assert(cur.drop_last() =~= prev);
            assert(cur.last() == pairs.deep_view()[i as int]);
            assert(out@ =~= "{"@ + json_members(cur));
        }
        i = i + 1;
    }
    out.append("}");
    proof {
        assert(pairs.deep_view().subrange(0, pairs.len() as int) =~= pairs.deep_view());
        assert(out@ =~= json_object(pairs.deep_view()));
    }
    out
}

} // verus!
