//! Small string helpers with exact contracts.

use vstd::prelude::*;

verus! {

/// The decimal digit of `d`, for `d < 10`.
pub open spec fn digit(d: nat) -> char {
    if d == 0 { '0' }
    else if d == 1 { '1' }
    else if d == 2 { '2' }
    else if d == 3 { '3' }
    else if d == 4 { '4' }
    else if d == 5 { '5' }
    else if d == 6 { '6' }
    else if d == 7 { '7' }
    else if d == 8 { '8' }
    else { '9' }
}

/// The decimal notation of `n`: no sign, no leading zeros.
pub open spec fn decimal(n: nat) -> Seq<char>
    decreases n,
{
    if n < 10 {
        seq![digit(n)]
    } else {
        decimal(n / 10).push(digit(n % 10))
    }
}

/// `parts` joined with commas between them.
pub open spec fn join_commas(parts: Seq<Seq<char>>) -> Seq<char>
    decreases parts.len(),
{
    if parts.len() == 0 {
        Seq::empty()
    } else if parts.len() == 1 {
        parts[0]
    } else {
        join_commas(parts.drop_last()) + seq![','] + parts.last()
    }
}

/// The views of a sequence of strings.
pub open spec fn views(v: Seq<String>) -> Seq<Seq<char>> {
    v.map_values(|x: String| x@)
}

/// Relies on `u64`'s `Display` (through `ToString`): its decimal notation.
#[verifier::external_body]
pub(crate) fn u64_text(n: u64) -> (r: String)
    ensures
        r@ == decimal(n as nat),
{
    n.to_string()
}

/// A new string holding `s`.
pub fn text(s: &str) -> (r: String)
    ensures
        r@ == s@,
{
    String::from_str(s)
}

/// A new string holding `a` followed by `b`.
pub fn concat(a: &str, b: &str) -> (r: String)
    ensures
        r@ == a@ + b@,
{
    let mut r = String::from_str(a);
    r.append(b);
    r
}

/// Appends a copy of `s` to `v`.
pub fn push_text(v: &mut Vec<String>, s: &str)
    ensures
        views(final(v)@) == views(old(v)@).push(s@),
{
    v.push(String::from_str(s));
    assert(views(final(v)@) =~= views(old(v)@).push(s@));
}

/// `parts` joined with commas between them.
pub fn join_with_commas(parts: &Vec<String>) -> (r: String)
    ensures
        r@ == join_commas(views(parts@)),
{
    let mut r = String::new();
    let mut i: usize = 0;
    while i < parts.len()
        invariant
            i <= parts@.len(),
            r@ == join_commas(views(parts@.take(i as int))),
        decreases parts.len() - i,
    {
        assert(views(parts@.take(i + 1)).drop_last() =~= views(parts@.take(i as int)));
        if i > 0 {
            r.append(",");
            proof { reveal_strlit(","); }
        } else {
            assert(views(parts@.take(1)) =~= seq![parts@[0]@]);
        }
        r.append(parts[i].as_str());
        assert(views(parts@.take(i + 1)).last() == parts@[i as int]@);
        i = i + 1;
    }
    assert(parts@.take(i as int) =~= parts@);
    r
}

/// A copy of `v`.
pub fn copy_texts(v: &Vec<String>) -> (r: Vec<String>)
    ensures
        views(r@) == views(v@),
{
    let mut r: Vec<String> = Vec::new();
    let mut i: usize = 0;
    while i < v.len()
        invariant
            i <= v@.len(),
            views(r@) == views(v@.take(i as int)),
        decreases v.len() - i,
    {
        r.push(v[i].clone());
        assert(views(v@.take(i + 1)) =~= views(v@.take(i as int)).push(v@[i as int]@));
        i = i + 1;
    }
    assert(v@.take(i as int) =~= v@);
    r
}

} // verus!
