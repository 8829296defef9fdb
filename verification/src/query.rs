//! Canonical query-string rendering shared by every endpoint builder.
//!
//! A rendered query always starts with a bare `?`; each set parameter
//! follows as `&name=value`, in the endpoint's declared field order, and
//! list values are joined with commas.  Unset parameters are omitted
//! entirely.

use vstd::prelude::*;
use vstd::seq_lib::lemma_concat_associative;

verus! {

/// One rendered parameter: `&name=value`.
pub open spec fn param_group(name: Seq<char>, value: Seq<char>) -> Seq<char> {
    "&"@ + name + "="@ + value
}

/// All set parameters rendered in order.
pub open spec fn rendered_params(params: Seq<(Seq<char>, Seq<char>)>) -> Seq<char>
    decreases params.len(),
{
    if params.len() == 0 {
        Seq::empty()
    } else {
        rendered_params(params.drop_last()) + param_group(params.last().0, params.last().1)
    }
}

/// A full query string: the base URL, a bare `?`, then the groups.
pub open spec fn full_query(base: Seq<char>, params: Seq<(Seq<char>, Seq<char>)>) -> Seq<char> {
    base + "?"@ + rendered_params(params)
}

/// The contribution of one optional parameter to the parameter list.
pub open spec fn opt_param(name: Seq<char>, value: Option<Seq<char>>) -> Seq<
    (Seq<char>, Seq<char>),
> {
    match value {
        Some(v) => seq![(name, v)],
        None => Seq::empty(),
    }
}

/// The rendered value of an optional string parameter.
pub open spec fn opt_str_view(v: Option<&str>) -> Option<Seq<char>> {
    match v {
        Some(s) => Some(s@),
        None => None,
    }
}

/// The rendered value of an optional count parameter.
pub open spec fn opt_usize_view(v: Option<usize>) -> Option<Seq<char>> {
    match v {
        Some(n) => Some(dec_rep(n as nat)),
        None => None,
    }
}

/// The rendered value of an optional signed parameter.
pub open spec fn opt_i32_view(v: Option<i32>) -> Option<Seq<char>> {
    match v {
        Some(n) => Some(int_rep(n as int)),
        None => None,
    }
}

/// The rendered value of an optional boolean parameter.
pub open spec fn opt_bool_view(v: Option<bool>) -> Option<Seq<char>> {
    match v {
        Some(b) => Some(bool_rep(b)),
        None => None,
    }
}

/// The rendered value of an optional list parameter: values joined by
/// commas.
pub open spec fn opt_list_view(v: Option<Vec<&str>>) -> Option<Seq<char>> {
    match v {
        Some(vs) => Some(comma_joined(vs.deep_view())),
        None => None,
    }
}

/// Appending one parameter to the list appends its group to the
/// rendering.
pub proof fn lemma_rendered_params_push(
    params: Seq<(Seq<char>, Seq<char>)>,
    p: (Seq<char>, Seq<char>),
)
    ensures
        rendered_params(params.push(p)) == rendered_params(params) + param_group(p.0, p.1),
{
    assert(params.push(p).drop_last() =~= params);
    assert(params.push(p).last() == p);
}

/// An empty prefix contributes nothing to a parameter list.
pub proof fn lemma_empty_params_concat(params: Seq<(Seq<char>, Seq<char>)>)
    ensures
        Seq::<(Seq<char>, Seq<char>)>::empty() + params == params,
{
    assert(Seq::<(Seq<char>, Seq<char>)>::empty() + params =~= params);
}

/// Append one optional string parameter, keeping the rendered query and
/// the parameter list in step.
pub fn push_opt_str_param(
    q: &mut String,
    base: Ghost<Seq<char>>,
    params: Ghost<Seq<(Seq<char>, Seq<char>)>>,
    name: &str,
    value: Option<&str>,
) -> (r: Ghost<Seq<(Seq<char>, Seq<char>)>>)
    requires
        old(q)@ == base@ + rendered_params(params@),
    ensures
        r@ == params@ + opt_param(name@, opt_str_view(value)),
        final(q)@ == base@ + rendered_params(r@),
{
    let ghost result = params@ + opt_param(name@, opt_str_view(value));
    if let Some(v) = value {
        push_param(q, name, v);
        proof {
            lemma_rendered_params_push(params@, (name@, v@));
            lemma_concat_associative(base@, rendered_params(params@), param_group(name@, v@));
            assert(params@.push((name@, v@)) =~= result);
        }
    } else {
        proof {
            assert(result =~= params@);
        }
    }
    Ghost(result)
}

/// Append one optional count parameter, rendered in decimal.
pub fn push_opt_usize_param(
    q: &mut String,
    base: Ghost<Seq<char>>,
    params: Ghost<Seq<(Seq<char>, Seq<char>)>>,
    name: &str,
    value: Option<usize>,
) -> (r: Ghost<Seq<(Seq<char>, Seq<char>)>>)
    requires
        old(q)@ == base@ + rendered_params(params@),
    ensures
        r@ == params@ + opt_param(name@, opt_usize_view(value)),
        final(q)@ == base@ + rendered_params(r@),
{
    let ghost result = params@ + opt_param(name@, opt_usize_view(value));
    if let Some(n) = value {
        let v = usize_to_string(n);
        push_param(q, name, v.as_str());
        proof {
            lemma_rendered_params_push(params@, (name@, dec_rep(n as nat)));
            lemma_concat_associative(
                base@,
                rendered_params(params@),
                param_group(name@, dec_rep(n as nat)),
            );
            assert(params@.push((name@, dec_rep(n as nat))) =~= result);
        }
    } else {
        proof {
            assert(result =~= params@);
        }
    }
    Ghost(result)
}

/// Append one optional boolean parameter, rendered `true` or `false`.
pub fn push_opt_bool_param(
    q: &mut String,
    base: Ghost<Seq<char>>,
    params: Ghost<Seq<(Seq<char>, Seq<char>)>>,
    name: &str,
    value: Option<bool>,
) -> (r: Ghost<Seq<(Seq<char>, Seq<char>)>>)
    requires
        old(q)@ == base@ + rendered_params(params@),
    ensures
        r@ == params@ + opt_param(name@, opt_bool_view(value)),
        final(q)@ == base@ + rendered_params(r@),
{
    let ghost result = params@ + opt_param(name@, opt_bool_view(value));
    if let Some(b) = value {
        push_param(q, name, bool_to_str(b));
        proof {
            lemma_rendered_params_push(params@, (name@, bool_rep(b)));
            lemma_concat_associative(
                base@,
                rendered_params(params@),
                param_group(name@, bool_rep(b)),
            );
            assert(params@.push((name@, bool_rep(b))) =~= result);
        }
    } else {
        proof {
            assert(result =~= params@);
        }
    }
    Ghost(result)
}

/// Append one optional list parameter, its values joined with commas.
pub fn push_opt_list_param<'a>(
    q: &mut String,
    base: Ghost<Seq<char>>,
    params: Ghost<Seq<(Seq<char>, Seq<char>)>>,
    name: &str,
    value: &Option<Vec<&'a str>>,
) -> (r: Ghost<Seq<(Seq<char>, Seq<char>)>>)
    requires
        old(q)@ == base@ + rendered_params(params@),
    ensures
        r@ == params@ + opt_param(name@, opt_list_view(*value)),
        final(q)@ == base@ + rendered_params(r@),
{
    let ghost result = params@ + opt_param(name@, opt_list_view(*value));
    if let Some(vs) = value {
        let joined = join_commas(vs);
        push_param(q, name, joined.as_str());
        proof {
            lemma_rendered_params_push(params@, (name@, comma_joined(vs.deep_view())));
            lemma_concat_associative(
                base@,
                rendered_params(params@),
                param_group(name@, comma_joined(vs.deep_view())),
            );
            assert(params@.push((name@, comma_joined(vs.deep_view()))) =~= result);
        }
    } else {
        proof {
            assert(result =~= params@);
        }
    }
    Ghost(result)
}

/// How often `c` occurs in `s`.
pub open spec fn count_char(s: Seq<char>, c: char) -> nat
    decreases s.len(),
{
    if s.len() == 0 {
        0
    } else {
        count_char(s.drop_last(), c) + (if s.last() == c {
            1nat
        } else {
            0nat
        })
    }
}

/// With zero parameters set, the rendered query string is the base URL
/// followed by a bare `?` and nothing else.
pub proof fn lemma_full_query_no_params(base: Seq<char>)
    ensures
        full_query(base, Seq::empty()) == base + "?"@,
{
    assert(full_query(base, Seq::empty()) =~= base + "?"@);
}

pub proof fn lemma_count_char_concat(a: Seq<char>, b: Seq<char>, c: char)
    ensures
        count_char(a + b, c) == count_char(a, c) + count_char(b, c),
    decreases b.len(),
{
    if b.len() == 0 {
        assert(a + b =~= a);
    } else {
        lemma_count_char_concat(a, b.drop_last(), c);
        assert((a + b).drop_last() =~= a + b.drop_last());
        assert((a + b).last() == b.last());
    }
}

/// One group holds exactly one `&`, provided its name and value hold none.
proof fn lemma_group_amp_count(name: Seq<char>, value: Seq<char>)
    requires
        count_char(name, '&') == 0,
        count_char(value, '&') == 0,
    ensures
        count_char(param_group(name, value), '&') == 1,
{
    reveal_strlit("&");
    reveal_strlit("=");
    assert(count_char(Seq::<char>::empty(), '&') == 0);
    assert("&"@.drop_last() =~= Seq::<char>::empty());
    assert("="@.drop_last() =~= Seq::<char>::empty());
    assert(count_char("&"@, '&') == 1);
    assert(count_char("="@, '&') == 0);
    lemma_count_char_concat("&"@, name, '&');
    lemma_count_char_concat("&"@ + name, "="@, '&');
    lemma_count_char_concat("&"@ + name + "="@, value, '&');
}

/// Rendering distributes over concatenation of parameter lists.
pub proof fn lemma_rendered_params_concat(a: Seq<(Seq<char>, Seq<char>)>, b: Seq<(Seq<char>, Seq<char>)>)
    ensures
        rendered_params(a + b) == rendered_params(a) + rendered_params(b),
    decreases b.len(),
{
    if b.len() == 0 {
        assert(a + b =~= a);
        assert(rendered_params(a) + rendered_params(b) =~= rendered_params(a));
    } else {
        lemma_rendered_params_concat(a, b.drop_last());
        assert((a + b).drop_last() =~= a + b.drop_last());
        assert((a + b).last() == b.last());
        assert(rendered_params(a + b) =~= rendered_params(a) + rendered_params(b));
    }
}

/// A character occurs nowhere in a sequence exactly when its count is
/// zero.
pub proof fn lemma_count_char_zero(s: Seq<char>, c: char)
    ensures
        (count_char(s, c) == 0) <==> (forall|i: int| 0 <= i < s.len() ==> s[i] != c),
    decreases s.len(),
{
    if s.len() > 0 {
        lemma_count_char_zero(s.drop_last(), c);
        assert(forall|i: int| 0 <= i < s.len() - 1 ==> s.drop_last()[i] == s[i]);
        assert(s.last() == s[s.len() - 1]);
    }
}

/// Decimal renderings hold only digit characters, never an `&`.
pub proof fn lemma_dec_rep_amp_free(n: nat)
    ensures
        count_char(dec_rep(n), '&') == 0,
    decreases n,
{
    if n < 10 {
        assert(dec_rep(n).drop_last() =~= Seq::<char>::empty());
        assert(count_char(Seq::<char>::empty(), '&') == 0);
    } else {
        lemma_dec_rep_amp_free(n / 10);
        lemma_count_char_concat(dec_rep(n / 10), seq![dec_digit(n % 10)], '&');
        assert(seq![dec_digit(n % 10)].drop_last() =~= Seq::<char>::empty());
        assert(count_char(Seq::<char>::empty(), '&') == 0);
    }
}

/// The wire form of a boolean holds no `&`.
pub proof fn lemma_bool_rep_amp_free(b: bool)
    ensures
        count_char(bool_rep(b), '&') == 0,
{
    reveal_strlit("true");
    reveal_strlit("false");
    lemma_count_char_zero("true"@, '&');
    lemma_count_char_zero("false"@, '&');
}

/// One set parameter renders as one group holding exactly one `&`; an
/// unset one renders as nothing.
pub proof fn lemma_opt_param_amp_count(name: Seq<char>, value: Option<Seq<char>>)
    requires
        count_char(name, '&') == 0,
        value matches Some(v) ==> count_char(v, '&') == 0,
    ensures
        count_char(rendered_params(opt_param(name, value)), '&') == opt_param(name, value).len(),
{
    match value {
        Some(v) => {
            let p = (name, v);
            assert(seq![p].drop_last() =~= Seq::<(Seq<char>, Seq<char>)>::empty());
            assert(rendered_params(seq![p]) == rendered_params(seq![p].drop_last()) + param_group(
                name,
                v,
            ));
            assert(rendered_params(Seq::<(Seq<char>, Seq<char>)>::empty()) + param_group(name, v)
                =~= param_group(name, v));
            lemma_group_amp_count(name, v);
        },
        None => {
        },
    }
}

/// With N parameters set, the rendered string holds exactly N `&key=value`
/// groups: one `&` per set parameter, provided no name or value holds a
/// literal `&` of its own.
pub proof fn lemma_rendered_group_count(params: Seq<(Seq<char>, Seq<char>)>)
    requires
        forall|i: int|
            0 <= i < params.len() ==> count_char(#[trigger] params[i].0, '&') == 0 && count_char(
                params[i].1,
                '&',
            ) == 0,
    ensures
        count_char(rendered_params(params), '&') == params.len(),
    decreases params.len(),
{
    if params.len() == 0 {
    } else {
        assert(forall|i: int|
            0 <= i < params.drop_last().len() ==> #[trigger] params.drop_last()[i] == params[i]);
        lemma_rendered_group_count(params.drop_last());
        lemma_group_amp_count(params.last().0, params.last().1);
        lemma_count_char_concat(
            rendered_params(params.drop_last()),
            param_group(params.last().0, params.last().1),
            '&',
        );
    }
}

/// Start a query string: the base URL followed by a bare `?`.
pub fn begin_query(base: &str) -> (r: String)
    ensures
        r@ == full_query(base@, Seq::empty()),
{
    let mut q = String::from_str(base);
    q.append("?");
    proof {
        assert(q@ =~= full_query(base@, Seq::empty()));
    }
    q
}

/// Append one `&name=value` group.
pub fn push_param(q: &mut String, name: &str, value: &str)
    ensures
        final(q)@ == old(q)@ + param_group(name@, value@),
{
    q.append("&");
    q.append(name);
    q.append("=");
    q.append(value);
    proof {
        assert(q@ =~= old(q)@ + param_group(name@, value@));
    }
}

/// The decimal digit characters, least significant last.
pub open spec fn dec_digit(d: nat) -> char {
    if d == 0 {
        '0'
    } else if d == 1 {
        '1'
    } else if d == 2 {
        '2'
    } else if d == 3 {
        '3'
    } else if d == 4 {
        '4'
    } else if d == 5 {
        '5'
    } else if d == 6 {
        '6'
    } else if d == 7 {
        '7'
    } else if d == 8 {
        '8'
    } else {
        '9'
    }
}

/// The decimal rendering of a non-negative number, without a sign.
pub open spec fn dec_rep(n: nat) -> Seq<char>
    decreases n,
{
    if n < 10 {
        seq![dec_digit(n)]
    } else {
        dec_rep(n / 10) + seq![dec_digit(n % 10)]
    }
}

/// The decimal rendering of a signed number: a leading `-` when negative.
pub open spec fn int_rep(n: int) -> Seq<char> {
    if n < 0 {
        seq!['-'] + dec_rep((-n) as nat)
    } else {
        dec_rep(n as nat)
    }
}

fn digit_str(d: u64) -> (r: &'static str)
    requires
        d < 10,
    ensures
        r@ == seq![dec_digit(d as nat)],
{
    proof {
        reveal_strlit("0");
        reveal_strlit("1");
        reveal_strlit("2");
        reveal_strlit("3");
        reveal_strlit("4");
        reveal_strlit("5");
        reveal_strlit("6");
        reveal_strlit("7");
        reveal_strlit("8");
        reveal_strlit("9");
    }
    let r = if d == 0 {
        "0"
    } else if d == 1 {
        "1"
    } else if d == 2 {
        "2"
    } else if d == 3 {
        "3"
    } else if d == 4 {
        "4"
    } else if d == 5 {
        "5"
    } else if d == 6 {
        "6"
    } else if d == 7 {
        "7"
    } else if d == 8 {
        "8"
    } else {
        "9"
    };
    proof {
        assert(r@ =~= seq![dec_digit(d as nat)]);
    }
    r
}

/// Render an unsigned number in decimal.
pub fn u64_to_string(n: u64) -> (r: String)
    ensures
        r@ == dec_rep(n as nat),
    decreases n,
{
    if n < 10 {
        String::from_str(digit_str(n))
    } else {
        let mut s = u64_to_string(n / 10);
        s.append(digit_str(n % 10));
        proof {
            assert(s@ =~= dec_rep(n as nat));
        }
        s
    }
}

/// Render a `usize` in decimal.
pub fn usize_to_string(n: usize) -> (r: String)
    ensures
        r@ == dec_rep(n as nat),
{
    u64_to_string(n as u64)
}

/// Render a signed number in decimal, with a leading `-` when negative.
pub fn i32_to_string(n: i32) -> (r: String)
    ensures
        r@ == int_rep(n as int),
{
    if n >= 0 {
        u64_to_string(n as u64)
    } else {
        let m = n as i64;
        let mag = (-m) as u64;
        let mut s = String::from_str("-");
        let digits = u64_to_string(mag);
        s.append(digits.as_str());
        proof {
            reveal_strlit("-");
            assert(s@ =~= int_rep(n as int));
        }
        s
    }
}

/// The wire form of a boolean.
pub open spec fn bool_rep(b: bool) -> Seq<char> {
    if b {
        "true"@
    } else {
        "false"@
    }
}

/// Render a boolean as `true` or `false`.
pub fn bool_to_str(b: bool) -> (r: &'static str)
    ensures
        r@ == bool_rep(b),
{
    if b {
        "true"
    } else {
        "false"
    }
}

/// List values joined by commas, in order.
pub open spec fn comma_joined(items: Seq<Seq<char>>) -> Seq<char>
    decreases items.len(),
{
    if items.len() == 0 {
        Seq::empty()
    } else if items.len() == 1 {
        items[0]
    } else {
        comma_joined(items.drop_last()) + ","@ + items.last()
    }
}

/// Join list values with commas, in order.
pub fn join_commas(items: &Vec<&str>) -> (r: String)
    ensures
        r@ == comma_joined(items.deep_view()),
{
    let mut out = String::new();
    let mut i: usize = 0;
    while i < items.len()
        invariant
            i <= items.len(),
            out@ == comma_joined(items.deep_view().subrange(0, i as int)),
        decreases items.len() - i,
    {
        if i > 0 {
            out.append(",");
        }
        out.append(items[i]);
        proof {
            let prev = items.deep_view().subrange(0, i as int);
            let cur = items.deep_view().subrange(0, i + 1 as int);
            assert(cur.drop_last() =~= prev);
            assert(cur.last() == items@[i as int]@);
            assert(out@ =~= comma_joined(cur));
        }
        i = i + 1;
    }
    proof {
        assert(items.deep_view().subrange(0, items.len() as int) =~= items.deep_view());
    }
    out
}

} // verus!
