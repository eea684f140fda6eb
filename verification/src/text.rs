//! Text helpers with exact contracts over the character sequences of strings.

use vstd::prelude::*;

verus! {

/// Compares two string slices character by character.
pub fn str_eq(a: &str, b: &str) -> (r: bool)
    ensures
        r == (a@ == b@),
{
    let n = a.unicode_len();
    let m = b.unicode_len();
    if n != m {
        return false;
    }
    let mut i: usize = 0;
    while i < n
        invariant
            n == a@.len(),
            m == b@.len(),
            n == m,
            i <= n,
            forall|j: int| 0 <= j < i ==> a@[j] == b@[j],
        decreases n - i,
    {
        if a.get_char(i) != b.get_char(i) {
            return false;
        }
        i = i + 1;
    }
    assert(a@ =~= b@);
    true
}


/// The text `s` with every occurrence of `from` replaced by `to`, matches taken
/// left to right without overlap; an empty pattern occurs before every
/// character and at the end.
pub open spec fn replaced(s: Seq<char>, from: Seq<char>, to: Seq<char>) -> Seq<char>
    decreases s.len(),
{
    if from.len() == 0 {
        if s.len() == 0 {
            to
        } else {
            to + seq![s[0]] + replaced(s.subrange(1, s.len() as int), from, to)
        }
    } else if s.len() < from.len() {
        s
    } else if s.subrange(0, from.len() as int) == from {
        to + replaced(s.subrange(from.len() as int, s.len() as int), from, to)
    } else {
        seq![s[0]] + replaced(s.subrange(1, s.len() as int), from, to)
    }
}

/// A text shorter than the pattern holds no occurrence of it.
proof fn lemma_replaced_short(s: Seq<char>, from: Seq<char>, to: Seq<char>)
    requires
        s.len() < from.len(),
    ensures
        replaced(s, from, to) == s,
{
}

/// Whether `pat` occurs in `s` at position `i`.
fn occurs_at(s: &str, n: usize, i: usize, pat: &str, k: usize) -> (r: bool)
    requires
        n == s@.len(),
        k == pat@.len(),
        i + k <= n,
    ensures
        r == (s@.subrange(i as int, i + k) == pat@),
{
    let mut j: usize = 0;
    while j < k
        invariant
            n == s@.len(),
            k == pat@.len(),
            i + k <= n,
            j <= k,
            forall|t: int| 0 <= t < j ==> s@[i + t] == pat@[t],
        decreases k - j,
    {
        if s.get_char(i + j) != pat.get_char(j) {
            assert(s@.subrange(i as int, i + k)[j as int] != pat@[j as int]);
            return false;
        }
        j = j + 1;
    }
    assert(s@.subrange(i as int, i + k) =~= pat@);
    true
}

/// Places `to` before every character of `s` and at its end, as
/// `str::replace` does for an empty pattern.
fn interleave(s: &str, from: &str, to: &str) -> (r: String)
    requires
        from@.len() == 0,
    ensures
        r@ == replaced(s@, from@, to@),
{
    let n = s.unicode_len();
    let mut out = String::new();
    let mut i: usize = 0;
    assert(s@.subrange(0, n as int) =~= s@);
    while i < n
        invariant
            n == s@.len(),
            from@.len() == 0,
            i <= n,
            replaced(s@, from@, to@) == out@ + replaced(s@.subrange(i as int, n as int), from@, to@),
        decreases n - i,
    {
        let ghost rest = s@.subrange(i as int, n as int);
        let one = s.substring_char(i, i + 1);
        proof {
            assert(rest.subrange(1, rest.len() as int) =~= s@.subrange(i + 1, n as int));
            assert(one@ =~= seq![rest[0]]);
        }
        out.append(to);
        out.append(one);
        i = i + 1;
        assert(out@ + replaced(s@.subrange(i as int, n as int), from@, to@) == replaced(s@, from@, to@));
    }
    assert(s@.subrange(n as int, n as int) =~= Seq::<char>::empty());
    out.append(to);
    out
}

/// Replaces every occurrence of `from` in `s` by `to`, as `str::replace` does.
pub fn replace_all(s: &str, from: &str, to: &str) -> (r: String)
    ensures
        r@ == replaced(s@, from@, to@),
{
    let n = s.unicode_len();
    let k = from.unicode_len();
    if k == 0 {
        return interleave(s, from, to);
    }
    let mut out = String::new();
    let mut i: usize = 0;
    assert(s@.subrange(0, n as int) =~= s@);
    while i < n
        invariant
            n == s@.len(),
            k == from@.len(),
            k > 0,
            i <= n,
            replaced(s@, from@, to@) == out@ + replaced(s@.subrange(i as int, n as int), from@, to@),
        decreases n - i,
    {
        let ghost rest = s@.subrange(i as int, n as int);
        if k <= n - i && occurs_at(s, n, i, from, k) {
            assert(rest.subrange(0, k as int) =~= s@.subrange(i as int, i + k));
            assert(rest.subrange(k as int, rest.len() as int) =~= s@.subrange(i + k, n as int));
            out.append(to);
            i = i + k;
        } else {
            let one = s.substring_char(i, i + 1);
            proof {
                if rest.len() < k {
                    lemma_replaced_short(rest, from@, to@);
                    lemma_replaced_short(rest.subrange(1, rest.len() as int), from@, to@);
                    assert(rest =~= seq![rest[0]] + rest.subrange(1, rest.len() as int));
                } else {
                    assert(rest.subrange(0, k as int) =~= s@.subrange(i as int, i + k));
                }
                assert(rest.subrange(1, rest.len() as int) =~= s@.subrange(i + 1, n as int));
                assert(one@ =~= seq![rest[0]]);
            }
            out.append(one);
            i = i + 1;
        }
        assert(out@ + replaced(s@.subrange(i as int, n as int), from@, to@) == replaced(s@, from@, to@));
    }
    assert(s@.subrange(n as int, n as int) =~= Seq::<char>::empty());
    assert(out@ + Seq::<char>::empty() =~= out@);
    out
}


/// The parts written one after another with `sep` between neighbours.
pub open spec fn joined(parts: Seq<Seq<char>>, sep: Seq<char>) -> Seq<char>
    decreases parts.len(),
{
    if parts.len() == 0 {
        Seq::empty()
    } else if parts.len() == 1 {
        parts[0]
    } else {
        joined(parts.drop_last(), sep) + sep + parts.last()
    }
}

/// Joins the strings with `sep` between neighbours, as `[String]::join` does.
pub fn join_with(parts: &Vec<String>, sep: &str) -> (r: String)
    ensures
        r@ == joined(parts.deep_view(), sep@),
{
    let mut out = String::new();
    let n = parts.len();
    let ghost views = parts.deep_view();
    let mut i: usize = 0;
    while i < n
        invariant
            n == parts.len(),
            views == parts.deep_view(),
            views.len() == n,
            i <= n,
            out@ == joined(views.take(i as int), sep@),
        decreases n - i,
    {
        assert(views.take(i + 1).drop_last() =~= views.take(i as int));
        assert(views.take(i + 1).last() == parts[i as int]@);
        if i == 0 {
            assert(out@ =~= Seq::<char>::empty());
            out.append(parts[i].as_str());
            assert(out@ =~= parts[0]@);
        } else {
            out.append(sep);
            out.append(parts[i].as_str());
        }
        i = i + 1;
    }
    assert(views.take(n as int) =~= views);
    out
}

/// The sequence with every element equal to `x` taken out, order kept.
pub open spec fn without(items: Seq<Seq<char>>, x: Seq<char>) -> Seq<Seq<char>>
    decreases items.len(),
{
    if items.len() == 0 {
        Seq::empty()
    } else if items.last() == x {
        without(items.drop_last(), x)
    } else {
        without(items.drop_last(), x).push(items.last())
    }
}

/// Taking out `x` leaves no `x` behind and keeps every other element.
pub proof fn lemma_without_exact(items: Seq<Seq<char>>, x: Seq<char>)
    ensures
        !without(items, x).contains(x),
        forall|y: Seq<char>| y != x ==> (#[trigger] items.contains(y) <==> without(items, x).contains(y)),
    decreases items.len(),
{
    if items.len() > 0 {
        let front = items.drop_last();
        lemma_without_exact(front, x);
        assert(items =~= front.push(items.last()));
        assert forall|y: Seq<char>| y != x implies (#[trigger] items.contains(y) <==> without(
            items,
            x,
        ).contains(y)) by {
            let w = without(front, x);
            if items.contains(y) {
                let k = choose|k: int| 0 <= k < items.len() && items[k] == y;
                if k < front.len() {
                    assert(front[k] == y);
                    assert(front.contains(y));
                    assert(w.contains(y));
                    let j = choose|j: int| 0 <= j < w.len() && w[j] == y;
                    if items.last() != x {
                        assert(w.push(items.last())[j] == y);
                    }
                } else {
                    assert(items.last() == y);
                    assert(w.push(items.last())[w.len() as int] == y);
                }
            }
            if without(items, x).contains(y) {
                if items.last() != x {
                    let w = without(front, x);
                    let k = choose|k: int| 0 <= k < w.push(items.last()).len() && w.push(items.last())[k] == y;
                    if k < w.len() {
                        assert(w[k] == y);
                        assert(front.contains(y));
                        let j = choose|j: int| 0 <= j < front.len() && front[j] == y;
                        assert(items[j] == y);
                    } else {
                        assert(items[items.len() - 1] == y);
                    }
                } else {
                    assert(front.contains(y));
                    let j = choose|j: int| 0 <= j < front.len() && front[j] == y;
                    assert(items[j] == y);
                }
            }
        }
        if items.last() != x {
            let w = without(front, x);
            assert(!w.contains(x));
            if w.push(items.last()).contains(x) {
                let k = choose|k: int| 0 <= k < w.push(items.last()).len() && w.push(items.last())[k] == x;
                if k < w.len() {
                    assert(w[k] == x);
                }
            }
        }
    }
}

/// Keeps the strings that differ from `x`, in their order, as
/// `Vec::retain(|s| s != x)` does.
pub fn retain_unequal(items: Vec<String>, x: &str) -> (r: Vec<String>)
    ensures
        r.deep_view() == without(items.deep_view(), x@),
{
    let mut out: Vec<String> = Vec::new();
    let n = items.len();
    let ghost views = items.deep_view();
    let mut i: usize = 0;
    while i < n
        invariant
            n == items.len(),
            views == items.deep_view(),
            views.len() == n,
            i <= n,
            out.deep_view() == without(views.take(i as int), x@),
        decreases n - i,
    {
        assert(views.take(i + 1).drop_last() =~= views.take(i as int));
        assert(views.take(i + 1).last() == items[i as int]@);
        if !str_eq(items[i].as_str(), x) {
            let item = items[i].clone();
            let ghost before = out.deep_view();
            out.push(item);
            assert(out.deep_view() =~= before.push(items[i as int]@));
        }
        i = i + 1;
    }
    assert(views.take(n as int) =~= views);
    out
}

/// The text without its first and last character.
pub open spec fn inner(s: Seq<char>) -> Seq<char> {
    s.subrange(1, s.len() - 1)
}

/// Takes off a leading and a trailing double quote; `None` when either is
/// missing, as `strip_prefix("\"")` followed by `strip_suffix("\"")` gives.
pub fn strip_quotes(s: &str) -> (r: Option<String>)
    ensures
        r matches Some(t) ==> s@.len() >= 2 && s@[0] == '"' && s@.last() == '"' && t@ == inner(s@),
        r is None ==> !(s@.len() >= 2 && s@[0] == '"' && s@.last() == '"'),
{
    let n = s.unicode_len();
    if n < 2 {
        return None;
    }
    if s.get_char(0) != '"' || s.get_char(n - 1) != '"' {
        return None;
    }
    let t = s.substring_char(1, n - 1);
    Some(t.to_string())
}

} // verus!
