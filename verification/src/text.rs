//! Text building blocks shared by the emitters: decimal numerals, joined
//! lists and the ordering of strings.

use vstd::prelude::*;

verus! {

/// The one-character text of a decimal digit.
pub open spec fn digit_text(d: nat) -> Seq<char> {
    if d == 0 {
        "0"@
    } else if d == 1 {
        "1"@
    } else if d == 2 {
        "2"@
    } else if d == 3 {
        "3"@
    } else if d == 4 {
        "4"@
    } else if d == 5 {
        "5"@
    } else if d == 6 {
        "6"@
    } else if d == 7 {
        "7"@
    } else if d == 8 {
        "8"@
    } else {
        "9"@
    }
}

/// The decimal numeral of `n`, most significant digit first, without
/// leading zeros (`0` is written `0`).
pub open spec fn decimal_digits(n: nat) -> Seq<char>
    decreases n,
{
    if n < 10 {
        digit_text(n)
    } else {
        decimal_digits(n / 10) + digit_text(n % 10)
    }
}

/// The parts written one after another with `separator` between neighbours.
pub open spec fn joined(parts: Seq<Seq<char>>, separator: Seq<char>) -> Seq<char>
    decreases parts.len(),
{
    if parts.len() == 0 {
        Seq::empty()
    } else if parts.len() == 1 {
        parts[0]
    } else {
        joined(parts.drop_last(), separator) + separator + parts.last()
    }
}

/// The length of a text in bytes of its UTF-8 encoding, which is how the
/// length of a `String` is counted.
pub open spec fn byte_length(text: Seq<char>) -> nat {
    vstd::utf8::encode_utf8(text).len()
}

/// Strict lexicographic order on texts, characters compared by code point.
/// A proper prefix precedes every text that extends it.
pub open spec fn text_precedes(a: Seq<char>, b: Seq<char>) -> bool
    decreases a.len(),
{
    if b.len() == 0 {
        false
    } else if a.len() == 0 {
        true
    } else if a[0] != b[0] {
        (a[0] as u32) < (b[0] as u32)
    } else {
        text_precedes(a.drop_first(), b.drop_first())
    }
}

/// The length of `text` in bytes.
pub fn byte_len(text: &str) -> (n: usize)
    ensures
        n == byte_length(text@),
{
    text.as_bytes().len()
}

/// The one-character string of the digit `d`.
pub(crate) fn digit_str(d: u128) -> (s: &'static str)
    requires
        d < 10,
    ensures
        s@ == digit_text(d as nat),
{
    if d == 0 {
        "0"
    } else if d == 1 {
        "1"
    } else if d == 2 {
        "2"
    } else if d == 3 {
        "3"
    } else if d == 4 {
        "4"
    } else if d == 5 {
        "5"
    } else if d == 6 {
        "6"
    } else if d == 7 {
        "7"
    } else if d == 8 {
        "8"
    } else {
        "9"
    }
}

/// Writes `n` as a decimal numeral.
pub fn decimal_string(n: u128) -> (s: String)
    ensures
        s@ == decimal_digits(n as nat),
    decreases n,
{
    if n < 10 {
        String::from_str(digit_str(n))
    } else {
        let mut s = decimal_string(n / 10);
        s.append(digit_str(n % 10));
        s
    }
}

/// Joins the strings of `parts` with `separator` between neighbours.
pub fn join(parts: &Vec<String>, separator: &str) -> (s: String)
    ensures
        s@ == joined(parts.deep_view(), separator@),
{
    let mut s = String::new();
    let mut i: usize = 0;
    while i < parts.len()
        invariant
            i <= parts.len(),
            s@ == joined(parts.deep_view().take(i as int), separator@),
        decreases parts.len() - i,
    {
        proof {
            let done = parts.deep_view().take(i as int);
            let next = parts.deep_view().take(i + 1);
            assert(next.drop_last() == done);
            assert(next.last() == parts[i as int]@);
            assert(done.len() == 0 ==> joined(done, separator@) + parts[i as int]@ == parts[i as int]@);
        }
        if i > 0 {
            s.append(separator);
        }
        s.append(parts[i].as_str());
        i = i + 1;
    }
    proof {
        assert(parts.deep_view().take(parts.len() as int) == parts.deep_view());
    }
    s
}

/// Whether `a` comes strictly before `b` in lexicographic order.
pub fn precedes(a: &str, b: &str) -> (r: bool)
    ensures
        r == text_precedes(a@, b@),
{
    let la = a.unicode_len();
    let lb = b.unicode_len();
    let mut i: usize = 0;
    proof {
        assert(a@.skip(0) == a@);
        assert(b@.skip(0) == b@);
    }
    while i < la && i < lb
        invariant
            la == a@.len(),
            lb == b@.len(),
            i <= la,
            i <= lb,
            text_precedes(a@, b@) == text_precedes(a@.skip(i as int), b@.skip(i as int)),
        decreases la - i,
    {
        let ca = a.get_char(i);
        let cb = b.get_char(i);
        proof {
            let ra = a@.skip(i as int);
            let rb = b@.skip(i as int);
            assert(ra[0] == ca && rb[0] == cb);
            assert(ra.drop_first() == a@.skip(i + 1));
            assert(rb.drop_first() == b@.skip(i + 1));
        }
        if ca != cb {
            return (ca as u32) < (cb as u32);
        }
        i = i + 1;
    }
    proof {
        assert(a@.skip(i as int).len() == la - i);
        assert(b@.skip(i as int).len() == lb - i);
    }
    i < lb
}

/// Whether every text comes strictly before all that follow it, so that
/// none occurs twice.
pub open spec fn strictly_ascending(texts: Seq<Seq<char>>) -> bool {
    forall|i: int, j: int| 0 <= i < j < texts.len() ==> text_precedes(texts[i], texts[j])
}

/// The order is transitive.
pub proof fn lemma_precedes_transitive(a: Seq<char>, b: Seq<char>, c: Seq<char>)
    requires
        text_precedes(a, b),
        text_precedes(b, c),
    ensures
        text_precedes(a, c),
    decreases a.len(),
{
    if a.len() > 0 && a[0] == b[0] && b[0] == c[0] {
        lemma_precedes_transitive(a.drop_first(), b.drop_first(), c.drop_first());
    }
}

/// Of two different texts one precedes the other.
pub proof fn lemma_precedes_total(a: Seq<char>, b: Seq<char>)
    ensures
        text_precedes(a, b) || text_precedes(b, a) || a == b,
    decreases a.len(),
{
    if a.len() == 0 || b.len() == 0 {
        assert(a.len() == 0 && b.len() == 0 ==> a =~= b);
    } else if a[0] == b[0] {
        lemma_precedes_total(a.drop_first(), b.drop_first());
        if a.drop_first() == b.drop_first() {
            assert(a =~= seq![a[0]] + a.drop_first());
            assert(b =~= seq![b[0]] + b.drop_first());
        }
    } else {
        vstd::utf8::char_u32_cast(a[0], a[0] as u32);
        vstd::utf8::char_u32_cast(b[0], b[0] as u32);
    }
}

/// No text precedes itself.
pub proof fn lemma_precedes_irreflexive(a: Seq<char>)
    ensures
        !text_precedes(a, a),
    decreases a.len(),
{
    if a.len() > 0 {
        lemma_precedes_irreflexive(a.drop_first());
    }
}

/// A set of texts has one ascending order: two ascending sequences with the
/// same members are the same sequence.
pub proof fn lemma_ascending_order_unique(a: Seq<Seq<char>>, b: Seq<Seq<char>>)
    requires
        strictly_ascending(a),
        strictly_ascending(b),
        a.to_set() == b.to_set(),
    ensures
        a == b,
    decreases a.len(),
{
    if a.len() == 0 {
        if b.len() > 0 {
            assert(b.to_set().contains(b[0]));
            assert(a.to_set().contains(b[0]));
        }
        assert(a =~= b);
    } else {
        assert(a.to_set().contains(a[0]));
        assert(b.to_set().contains(a[0]));
        let k = choose|k: int| 0 <= k < b.len() && b[k] == a[0];
        assert(b.to_set().contains(b[0]));
        assert(a.to_set().contains(b[0]));
        let m = choose|m: int| 0 <= m < a.len() && a[m] == b[0];
        if k > 0 {
            // b[0] comes before b[k], which is a[0], which is a[m] or comes before it
            assert(text_precedes(b[0], b[k]));
            if m > 0 {
                assert(text_precedes(a[0], a[m]));
                lemma_precedes_transitive(b[0], a[0], b[0]);
            }
            lemma_precedes_irreflexive(b[0]);
        }
        assert(a[0] == b[0]);
        let a_rest = a.drop_first();
        let b_rest = b.drop_first();
        assert forall|t: Seq<char>| a_rest.to_set().contains(t) implies b_rest.to_set().contains(
            t,
        ) by {
            let i = choose|i: int| 0 <= i < a_rest.len() && a_rest[i] == t;
            assert(a[i + 1] == t);
            assert(text_precedes(a[0], a[i + 1]));
            assert(a.to_set().contains(t));
            assert(b.to_set().contains(t));
            let j = choose|j: int| 0 <= j < b.len() && b[j] == t;
            if j == 0 {
                lemma_precedes_irreflexive(t);
            }
            assert(b_rest[j - 1] == t);
        }
        assert forall|t: Seq<char>| b_rest.to_set().contains(t) implies a_rest.to_set().contains(
            t,
        ) by {
            let i = choose|i: int| 0 <= i < b_rest.len() && b_rest[i] == t;
            assert(b[i + 1] == t);
            assert(text_precedes(b[0], b[i + 1]));
            assert(b.to_set().contains(t));
            assert(a.to_set().contains(t));
            let j = choose|j: int| 0 <= j < a.len() && a[j] == t;
            if j == 0 {
                lemma_precedes_irreflexive(t);
            }
            assert(a_rest[j - 1] == t);
        }
        assert(a_rest.to_set() =~= b_rest.to_set());
        assert forall|i: int, j: int| 0 <= i < j < a_rest.len() implies text_precedes(
            a_rest[i],
            a_rest[j],
        ) by {
            assert(text_precedes(a[i + 1], a[j + 1]));
        }
        assert forall|i: int, j: int| 0 <= i < j < b_rest.len() implies text_precedes(
            b_rest[i],
            b_rest[j],
        ) by {
            assert(text_precedes(b[i + 1], b[j + 1]));
        }
        lemma_ascending_order_unique(a_rest, b_rest);
        assert(a =~= seq![a[0]] + a_rest);
        assert(b =~= seq![b[0]] + b_rest);
    }
}

/// The texts of `members` in ascending order, each once.
pub open spec fn ascending_of(members: Set<Seq<char>>) -> Seq<Seq<char>> {
    choose|ordered: Seq<Seq<char>>| strictly_ascending(ordered) && ordered.to_set() == members
}

/// The members of `texts` in ascending order, each once.
pub open spec fn ascending(texts: Seq<Seq<char>>) -> Seq<Seq<char>> {
    ascending_of(texts.to_set())
}

/// An ascending sequence with the members of `texts` is their ascending
/// order. So a sequence that is in ascending order is its own.
pub proof fn lemma_ascending(ordered: Seq<Seq<char>>, texts: Seq<Seq<char>>)
    requires
        strictly_ascending(ordered),
        ordered.to_set() == texts.to_set(),
    ensures
        ascending(texts) == ordered,
{
    let chosen = ascending(texts);
    assert(strictly_ascending(chosen) && chosen.to_set() == texts.to_set());
    lemma_ascending_order_unique(chosen, ordered);
}

/// The strings of `items` in ascending order, each once.
pub fn sorted_unique(items: &Vec<String>) -> (res: Vec<String>)
    ensures
        res.deep_view() == ascending(items.deep_view()),
        strictly_ascending(res.deep_view()),
        res.deep_view().to_set() == items.deep_view().to_set(),
{
    let mut res: Vec<String> = Vec::new();
    let mut i: usize = 0;
    proof {
        assert(items.deep_view().take(0).to_set() =~= res.deep_view().to_set());
    }
    while i < items.len()
        invariant
            i <= items.len(),
            strictly_ascending(res.deep_view()),
            res.deep_view().to_set() == items.deep_view().take(i as int).to_set(),
        decreases items.len() - i,
    {
        let item = &items[i];
        let ghost before = res.deep_view();
        let mut p: usize = 0;
        while p < res.len() && precedes(res[p].as_str(), item.as_str())
            invariant
                p <= res.len(),
                res.deep_view() == before,
                forall|k: int| 0 <= k < p ==> text_precedes(#[trigger] before[k], item@),
            decreases res.len() - p,
        {
            assert(before[p as int] == res[p as int]@);
            p = p + 1;
        }
        let present = p < res.len() && !precedes(item.as_str(), res[p].as_str());
        proof {
            let seen = items.deep_view().take(i as int);
            let next = items.deep_view().take(i + 1);
            assert(next =~= seen.push(item@));
            assert(items.deep_view()[i as int] == item@);
            if present {
                assert(before[p as int] == res[p as int]@);
                lemma_precedes_total(item@, before[p as int]);
                assert(before[p as int] == item@);
                assert(before.to_set().contains(item@));
                assert(next.to_set() =~= seen.to_set()) by {
                    assert forall|t: Seq<char>| next.to_set().contains(t) implies seen.to_set().contains(
                        t,
                    ) by {
                        let k = choose|k: int| 0 <= k < next.len() && next[k] == t;
                        if k < seen.len() {
                            assert(seen[k] == t);
                        }
                    }
                    assert forall|t: Seq<char>| seen.to_set().contains(t) implies next.to_set().contains(
                        t,
                    ) by {
                        let k = choose|k: int| 0 <= k < seen.len() && seen[k] == t;
                        assert(next[k] == t);
                    }
                }
            }
        }
        if !present {
            res.insert(p, item.clone());
            proof {
                let seen = items.deep_view().take(i as int);
                let next = items.deep_view().take(i + 1);
                let after = res.deep_view();
                assert(after =~= before.insert(p as int, item@));
                assert forall|a: int, b: int| 0 <= a < b < after.len() implies text_precedes(
                    after[a],
                    after[b],
                ) by {
                    if b == p {
                        assert(after[a] == before[a]);
                    } else if a == p {
                        assert(after[b] == before[b - 1]);
                        if p < before.len() {
                            if b - 1 > p {
                                lemma_precedes_transitive(item@, before[p as int], before[b - 1]);
                            }
                        }
                    } else {
                        let a0 = if a < p { a } else { a - 1 };
                        let b0 = if b < p { b } else { b - 1 };
                        assert(after[a] == before[a0]);
                        assert(after[b] == before[b0]);
                    }
                }
                assert(after.to_set() =~= next.to_set()) by {
                    assert forall|t: Seq<char>| after.to_set().contains(t) implies next.to_set().contains(
                        t,
                    ) by {
                        let k = choose|k: int| 0 <= k < after.len() && after[k] == t;
                        if k == p {
                            assert(next[i as int] == t);
                        } else {
                            let k0 = if k < p { k } else { k - 1 };
                            assert(before[k0] == t);
                            assert(before.to_set().contains(t));
                            assert(seen.to_set().contains(t));
                            let m = choose|m: int| 0 <= m < seen.len() && seen[m] == t;
                            assert(next[m] == t);
                        }
                    }
                    assert forall|t: Seq<char>| next.to_set().contains(t) implies after.to_set().contains(
                        t,
                    ) by {
                        let k = choose|k: int| 0 <= k < next.len() && next[k] == t;
                        if k == i {
                            assert(after[p as int] == t);
                        } else {
                            assert(seen[k] == t);
                            assert(seen.to_set().contains(t));
                            assert(before.to_set().contains(t));
                            let m = choose|m: int| 0 <= m < before.len() && before[m] == t;
                            let m1 = if m < p { m } else { m + 1 };
                            assert(after[m1] == t);
                        }
                    }
                }
            }
        }
        i = i + 1;
    }
    proof {
        assert(items.deep_view().take(items.len() as int) == items.deep_view());
        lemma_ascending(res.deep_view(), items.deep_view());
    }
    res
}

} // verus!
