//! Text helpers shared by the instruction formatters: decimal numbers and joined lists.

use vstd::prelude::*;
use vstd::string::*;

verus! {

/// The character of the decimal digit `d`.
pub open spec fn digit_char(d: nat) -> char {
    if d == 0 {
        '0'
    } else if d == 1 {
        '1'
    } else if d == 2 {
        '2'
    } else if d == 3 {
        '3'
    } else if d == 4 {
        '4'
    } else if d == 5 {
        '5'
    } else if d == 6 {
        '6'
    } else if d == 7 {
        '7'
    } else if d == 8 {
        '8'
    } else {
        '9'
    }
}

/// Decimal text of `n`: most significant digit first, no leading zeros.
pub open spec fn decimal(n: nat) -> Seq<char>
    decreases n,
{
    if n < 10 {
        seq![digit_char(n)]
    } else {
        decimal(n / 10).push(digit_char(n % 10))
    }
}

/// Decimal text of a signed number: a minus sign before the magnitude when negative.
pub open spec fn signed_decimal(i: int) -> Seq<char> {
    if i < 0 {
        seq!['-'] + decimal((-i) as nat)
    } else {
        decimal(i as nat)
    }
}

/// `parts` with `sep` between each two neighbours, and nothing before the first or after the last.
pub open spec fn joined(parts: Seq<Seq<char>>, sep: Seq<char>) -> Seq<char>
    decreases parts.len(),
{
    if parts.len() == 0 {
        seq![]
    } else if parts.len() == 1 {
        parts[0]
    } else {
        joined(parts.drop_last(), sep) + sep + parts.last()
    }
}

/// The texts held by a list of strings.
pub open spec fn texts(v: Seq<String>) -> Seq<Seq<char>> {
    v.map_values(|s: String| s@)
}

/// The texts held by a list of string slices.
pub open spec fn str_texts(v: Seq<&str>) -> Seq<Seq<char>> {
    v.map_values(|s: &str| s@)
}

fn digit_text(d: u64) -> (r: &'static str)
    requires
        d < 10,
    ensures
        r@ == seq![digit_char(d as nat)],
{
    let digits = "0123456789";
    proof {
        reveal_strlit("0123456789");
    }
    let r = digits.substring_ascii(d as usize, d as usize + 1);
    assert(r@ =~= seq![digit_char(d as nat)]);
    r
}

/// Appends the decimal text of `n` to `out`.
pub fn push_decimal(out: &mut String, n: u64)
    ensures
        final(out)@ == old(out)@ + decimal(n as nat),
    decreases n,
{
    if n >= 10 {
        push_decimal(out, n / 10);
    }
    out.append(digit_text(n % 10));
    assert(n >= 10 ==> decimal(n as nat) == decimal((n / 10) as nat).push(digit_char((n % 10) as nat)));
    assert(final(out)@ =~= old(out)@ + decimal(n as nat));
}

/// Appends the decimal text of `i`, signed, to `out`.
pub fn push_signed_decimal(out: &mut String, i: i32)
    ensures
        final(out)@ == old(out)@ + signed_decimal(i as int),
{
    if i < 0 {
        let minus = "-";
        proof {
            reveal_strlit("-");
        }
        out.append(minus);
        let magnitude: i64 = -(i as i64);
        push_decimal(out, magnitude as u64);
        assert(final(out)@ =~= old(out)@ + signed_decimal(i as int));
    } else {
        push_decimal(out, i as u64);
    }
}

/// The strings of `parts`, joined with `sep` between neighbours.
pub fn join(parts: &Vec<String>, sep: &str) -> (r: String)
    ensures
        r@ == joined(texts(parts@), sep@),
{
    let ghost all = texts(parts@);
    let mut r = String::new();
    let mut i: usize = 0;
    while i < parts.len()
        invariant
            i <= parts.len(),
            all == texts(parts@),
            r@ == joined(all.take(i as int), sep@),
        decreases parts.len() - i,
    {
        let ghost before = r@;
        if i > 0 {
            r.append(sep);
        }
        r.append(parts[i].as_str());
        proof {
            let next = all.take(i + 1);
            assert(next.drop_last() =~= all.take(i as int));
            if i == 0 {
                assert(r@ =~= joined(next, sep@));
            } else {
                assert(r@ =~= before + sep@ + all[i as int]);
            }
        }
        i += 1;
    }
    assert(all.take(parts.len() as int) =~= all);
    r
}

/// Owned copies of `items`, in order.
pub fn to_strings(items: &Vec<&str>) -> (r: Vec<String>)
    ensures
        texts(r@) == str_texts(items@),
{
    let mut r: Vec<String> = Vec::new();
    let mut i: usize = 0;
    while i < items.len()
        invariant
            i <= items.len(),
            r@.len() == i,
            texts(r@) =~= str_texts(items@).take(i as int),
        decreases items.len() - i,
    {
        let ghost before = r@;
        let item = String::from_str(items[i]);
        r.push(item);
        proof {
            assert(r@ == before.push(item));
            assert(texts(r@).len() == i + 1);
            assert(texts(r@)[i as int] == items@[i as int]@);
            assert forall|k: int| 0 <= k < i implies texts(r@)[k] == texts(before)[k] by {
                assert(r@[k] == before[k]);
            }
        }
        i += 1;
        assert(texts(r@) =~= str_texts(items@).take(i as int));
    }
    assert(str_texts(items@).take(items.len() as int) =~= str_texts(items@));
    r
}

/// The text of an optional string.
pub open spec fn opt_text(o: Option<String>) -> Option<Seq<char>> {
    match o {
        Some(s) => Some(s@),
        None => None,
    }
}

/// The texts of an optional list of strings.
pub open spec fn opt_texts(o: Option<Vec<String>>) -> Option<Seq<Seq<char>>> {
    match o {
        Some(v) => Some(texts(v@)),
        None => None,
    }
}

/// `pre`, the value and `post` when a value is present; nothing when it is absent.
pub open spec fn affix(o: Option<Seq<char>>, pre: Seq<char>, post: Seq<char>) -> Seq<char> {
    match o {
        Some(v) => pre + v + post,
        None => seq![],
    }
}

/// The decimal text of an optional number.
pub open spec fn opt_decimal(o: Option<u16>) -> Option<Seq<char>> {
    match o {
        Some(n) => Some(decimal(n as nat)),
        None => None,
    }
}

/// The signed decimal text of an optional number.
pub open spec fn opt_signed_decimal(o: Option<i32>) -> Option<Seq<char>> {
    match o {
        Some(n) => Some(signed_decimal(n as int)),
        None => None,
    }
}

/// `true` or `false`.
pub open spec fn bool_text(b: bool) -> Seq<char> {
    if b {
        seq!['t', 'r', 'u', 'e']
    } else {
        seq!['f', 'a', 'l', 's', 'e']
    }
}

/// The text of an optional flag value.
pub open spec fn opt_bool_text(o: Option<bool>) -> Option<Seq<char>> {
    match o {
        Some(b) => Some(bool_text(b)),
        None => None,
    }
}

/// Appends `pre`, the value of `o` and `post` to `out` when `o` holds a value.
pub fn push_affixed(out: &mut String, o: &Option<String>, pre: &str, post: &str)
    ensures
        final(out)@ == old(out)@ + affix(opt_text(*o), pre@, post@),
{
    match o {
        Some(v) => {
            out.append(pre);
            out.append(v.as_str());
            out.append(post);
            assert(final(out)@ =~= old(out)@ + affix(opt_text(*o), pre@, post@));
        },
        None => {
            assert(final(out)@ =~= old(out)@ + affix(opt_text(*o), pre@, post@));
        },
    }
}

/// Appends `pre`, the decimal text of `o`'s number and `post` to `out` when `o` holds one.
pub fn push_affixed_decimal(out: &mut String, o: Option<u16>, pre: &str, post: &str)
    ensures
        final(out)@ == old(out)@ + affix(opt_decimal(o), pre@, post@),
{
    match o {
        Some(n) => {
            out.append(pre);
            push_decimal(out, n as u64);
            out.append(post);
            assert(final(out)@ =~= old(out)@ + affix(opt_decimal(o), pre@, post@));
        },
        None => {
            assert(final(out)@ =~= old(out)@ + affix(opt_decimal(o), pre@, post@));
        },
    }
}

/// Appends `pre`, the signed decimal text of `o`'s number and `post` to `out` when `o` holds one.
pub fn push_affixed_signed_decimal(out: &mut String, o: Option<i32>, pre: &str, post: &str)
    ensures
        final(out)@ == old(out)@ + affix(opt_signed_decimal(o), pre@, post@),
{
    match o {
        Some(n) => {
            out.append(pre);
            push_signed_decimal(out, n);
            out.append(post);
            assert(final(out)@ =~= old(out)@ + affix(opt_signed_decimal(o), pre@, post@));
        },
        None => {
            assert(final(out)@ =~= old(out)@ + affix(opt_signed_decimal(o), pre@, post@));
        },
    }
}

/// Appends `pre`, `true` or `false`, and `post` to `out` when `o` holds a flag.
pub fn push_affixed_bool(out: &mut String, o: Option<bool>, pre: &str, post: &str)
    ensures
        final(out)@ == old(out)@ + affix(opt_bool_text(o), pre@, post@),
{
    match o {
        Some(b) => {
            out.append(pre);
            if b {
                let t = "true";
                proof {
                    reveal_strlit("true");
                }
                out.append(t);
            } else {
                let f = "false";
                proof {
                    reveal_strlit("false");
                }
                out.append(f);
            }
            out.append(post);
            assert(final(out)@ =~= old(out)@ + affix(opt_bool_text(o), pre@, post@));
        },
        None => {
            assert(final(out)@ =~= old(out)@ + affix(opt_bool_text(o), pre@, post@));
        },
    }
}

/// A copy of an optional string.
pub fn copy_opt(o: &Option<String>) -> (r: Option<String>)
    ensures
        r == *o,
{
    match o {
        Some(s) => Some(s.clone()),
        None => None,
    }
}

/// A copy of a list of strings.
pub fn copy_list(v: &Vec<String>) -> (r: Vec<String>)
    ensures
        texts(r@) == texts(v@),
{
    let mut r: Vec<String> = Vec::new();
    let mut i: usize = 0;
    while i < v.len()
        invariant
            i <= v.len(),
            r@ =~= v@.take(i as int),
        decreases v.len() - i,
    {
        r.push(v[i].clone());
        i += 1;
        assert(r@ =~= v@.take(i as int));
    }
    assert(v@.take(v.len() as int) =~= v@);
    r
}

/// A copy of an optional list of strings.
pub fn copy_opt_list(o: &Option<Vec<String>>) -> (r: Option<Vec<String>>)
    ensures
        opt_texts(r) == opt_texts(*o),
{
    match o {
        Some(v) => Some(copy_list(v)),
        None => None,
    }
}

/// The elements of an optional list; none when it is unset.
pub open spec fn or_empty(o: Option<Seq<Seq<char>>>) -> Seq<Seq<char>> {
    match o {
        Some(l) => l,
        None => seq![],
    }
}

/// An optional list with `x` appended; a list of `x` alone when it was unset.
pub open spec fn appended(o: Option<Seq<Seq<char>>>, x: Seq<char>) -> Option<Seq<Seq<char>>> {
    Some(or_empty(o).push(x))
}

/// The strings of an optional list joined with `sep`; empty when the list is unset.
pub fn join_opt(o: &Option<Vec<String>>, sep: &str) -> (r: String)
    ensures
        r@ == joined(or_empty(opt_texts(*o)), sep@),
{
    match o {
        Some(v) => join(v, sep),
        None => String::new(),
    }
}

} // verus!
