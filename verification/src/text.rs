use vstd::prelude::*;

verus! {

/// The character of a decimal digit.
pub open spec fn digit_char(d: nat) -> char {
    if d == 0 { '0' }
    else if d == 1 { '1' }
    else if d == 2 { '2' }
    else if d == 3 { '3' }
    else if d == 4 { '4' }
    else if d == 5 { '5' }
    else if d == 6 { '6' }
    else if d == 7 { '7' }
    else if d == 8 { '8' }
    else { '9' }
}

/// The decimal representation of a natural number, most significant digit
/// first and without leading zeros (zero is written "0").
pub open spec fn decimal(n: nat) -> Seq<char>
    decreases n,
{
    if n < 10 {
        seq![digit_char(n)]
    } else {
        decimal(n / 10).push(digit_char(n % 10))
    }
}

fn digit_str(d: u64) -> (r: &'static str)
    requires
        d < 10,
    ensures
        r@ == seq![digit_char(d as nat)],
{
    proof {
        reveal_strlit("0");
        reveal_strlit("1");
        reveal_strlit("2");
        reveal_strlit("3");
        reveal_strlit("4");
        reveal_strlit("5");
        reveal_strlit("6");
        reveal_strlit("7");
        reveal_strlit("8");
        reveal_strlit("9");
    }
    if d == 0 { "0" }
    else if d == 1 { "1" }
    else if d == 2 { "2" }
    else if d == 3 { "3" }
    else if d == 4 { "4" }
    else if d == 5 { "5" }
    else if d == 6 { "6" }
    else if d == 7 { "7" }
    else if d == 8 { "8" }
    else { "9" }
}

/// Appends the decimal representation of `n` to `s`.
pub fn push_decimal(s: &mut String, n: u64)
    ensures
        final(s)@ == old(s)@ + decimal(n as nat),
    decreases n,
{
    if n >= 10 {
        push_decimal(s, n / 10);
    }
    let d = digit_str(n % 10);
    s.append(d);
    proof {
        if n >= 10 {
            assert(decimal(n as nat) == decimal((n / 10) as nat).push(digit_char((n % 10) as nat)));
        }
    }
}

/// Appends a string slice to `s`.
pub fn push_str(s: &mut String, t: &str)
    ensures
        final(s)@ == old(s)@ + t@,
{
    s.append(t);
}

/// A fresh string holding the given slice.
pub fn string_of(t: &str) -> (r: String)
    ensures
        r@ == t@,
{
    let mut s = String::new();
    s.append(t);
    proof {
        assert(s@ =~= t@);
    }
    s
}

/// Whether two string slices hold the same characters.
pub fn str_eq(a: &str, b: &str) -> (r: bool)
    ensures
        r == (a@ == b@),
{
    let sa = string_of(a);
    let sb = string_of(b);
    sa == sb
}

/// Underscores shown as spaces.
pub open spec fn spaced(s: Seq<char>) -> Seq<char> {
    s.map_values(|c: char| if c == '_' { ' ' } else { c })
}

/// A copy of `s` with each underscore replaced by a space.
pub fn underscores_to_spaces(s: &str) -> (r: String)
    ensures
        r@ == spaced(s@),
{
    let n = s.unicode_len();
    let mut r = String::new();
    let mut i: usize = 0;
    while i < n
        invariant
            n == s@.len(),
            i <= n,
            r@ == spaced(s@.take(i as int)),
        decreases n - i,
    {
        let c = s.get_char(i);
        if c == '_' {
            push_str(&mut r, " ");
            proof {
                reveal_strlit(" ");
            }
        } else {
            let one = s.substring_char(i, i + 1);
            proof {
                assert(one@ =~= seq![c]);
            }
            push_str(&mut r, one);
        }
        proof {
            assert(spaced(s@.take(i as int + 1)) =~= spaced(s@.take(i as int)).push(if c == '_' { ' ' } else { c }));
        }
        i = i + 1;
    }
    proof {
        assert(s@.take(n as int) =~= s@);
    }
    r
}

/// Dictionary order of texts, character by character by code point (the
/// order of `str`): a prefix comes first.
pub open spec fn str_le(a: Seq<char>, b: Seq<char>) -> bool
    decreases a.len(),
{
    if a.len() == 0 {
        true
    } else if b.len() == 0 {
        false
    } else if a[0] != b[0] {
        (a[0] as u32) < (b[0] as u32)
    } else {
        str_le(a.drop_first(), b.drop_first())
    }
}

/// Any two texts are ordered one way or the other.
pub proof fn law_str_le_total(a: Seq<char>, b: Seq<char>)
    ensures
        str_le(a, b) || str_le(b, a),
    decreases a.len(),
{
    if a.len() > 0 && b.len() > 0 {
        if a[0] == b[0] {
            law_str_le_total(a.drop_first(), b.drop_first());
        } else {
            vstd::utf8::char_u32_cast(a[0], a[0] as u32);
            vstd::utf8::char_u32_cast(b[0], b[0] as u32);
        }
    }
}

/// Every text comes no later than itself.
pub proof fn law_str_le_reflexive(a: Seq<char>)
    ensures
        str_le(a, a),
    decreases a.len(),
{
    if a.len() > 0 {
        law_str_le_reflexive(a.drop_first());
    }
}

/// The order is transitive.
pub proof fn law_str_le_transitive(a: Seq<char>, b: Seq<char>, c: Seq<char>)
    requires
        str_le(a, b),
        str_le(b, c),
    ensures
        str_le(a, c),
    decreases a.len(),
{
    if a.len() > 0 && b.len() > 0 && c.len() > 0 && a[0] == b[0] && b[0] == c[0] {
        law_str_le_transitive(a.drop_first(), b.drop_first(), c.drop_first());
    }
}

/// Two texts each before the other are the same text.
pub proof fn law_str_le_antisymmetric(a: Seq<char>, b: Seq<char>)
    requires
        str_le(a, b),
        str_le(b, a),
    ensures
        a == b,
    decreases a.len(),
{
    if a.len() > 0 {
        law_str_le_antisymmetric(a.drop_first(), b.drop_first());
        assert(a =~= seq![a[0]] + a.drop_first());
        assert(b =~= seq![b[0]] + b.drop_first());
    } else {
        assert(b.len() == 0);
        assert(a =~= b);
    }
}

/// Whether `a` comes before `b` in dictionary order, or equals it.
pub fn str_le_exec(a: &str, b: &str) -> (r: bool)
    ensures
        r == str_le(a@, b@),
{
    let na = a.unicode_len();
    let nb = b.unicode_len();
    let mut i: usize = 0;
    proof {
        assert(a@.skip(0) =~= a@);
        assert(b@.skip(0) =~= b@);
    }
    while i < na && i < nb
        invariant
            na == a@.len(),
            nb == b@.len(),
            i <= na,
            i <= nb,
            str_le(a@, b@) == str_le(a@.skip(i as int), b@.skip(i as int)),
        decreases na - i,
    {
        let ca = a.get_char(i);
        let cb = b.get_char(i);
        proof {
            assert(a@.skip(i as int)[0] == ca);
            assert(b@.skip(i as int)[0] == cb);
        }
        if ca != cb {
            return (ca as u32) < (cb as u32);
        }
        proof {
            assert(a@.skip(i as int).drop_first() =~= a@.skip(i as int + 1));
            assert(b@.skip(i as int).drop_first() =~= b@.skip(i as int + 1));
        }
        i = i + 1;
    }
    i == na
}

/// The texts of a list of strings.
pub open spec fn texts_view(v: Seq<String>) -> Seq<Seq<char>> {
    v.map_values(|t: String| t@)
}

/// Texts in strictly increasing dictionary order: sorted, none twice.
pub open spec fn sorted_distinct(s: Seq<Seq<char>>) -> bool {
    forall|i: int, j: int| 0 <= i < j < s.len() ==> str_le(#[trigger] s[i], #[trigger] s[j]) && s[i] != s[j]
}

/// Adds `x` to a list kept in strictly increasing dictionary order, unless
/// the list already holds it.
pub fn insert_sorted_distinct(out: &mut Vec<String>, x: &str)
    requires
        sorted_distinct(texts_view(old(out)@)),
    ensures
        sorted_distinct(texts_view(final(out)@)),
        forall|k: Seq<char>| #[trigger] texts_view(final(out)@).contains(k)
            <==> texts_view(old(out)@).contains(k) || k == x@,
{
    let ghost before = texts_view(out@);
    let mut p: usize = 0;
    let mut done = false;
    while p < out.len() && !done
        invariant
            p <= out.len(),
            before == texts_view(out@),
            sorted_distinct(before),
            forall|k: int| 0 <= k < p ==> str_le(#[trigger] before[k], x@),
            done ==> p < out.len() && !str_le(before[p as int], x@),
        decreases out.len() - p + (if done { 0int } else { 1int }),
    {
        if str_le_exec(out[p].as_str(), x) {
            p = p + 1;
        } else {
            done = true;
        }
    }
    if p > 0 && str_eq(out[p - 1].as_str(), x) {
        proof {
            assert(before[p - 1] == x@);
            assert forall|k: Seq<char>| #[trigger] texts_view(out@).contains(k)
                <==> before.contains(k) || k == x@ by {
                if k == x@ {
                    assert(before[p - 1] == k);
                }
            }
        }
        return;
    }
    proof {
        // No entry before `p` equals `x`.
        assert forall|k: int| 0 <= k < p implies #[trigger] before[k] != x@ by {
            if before[k] == x@ {
                assert(k < p - 1);
                assert(str_le(before[k], before[p - 1]));
                law_str_le_antisymmetric(before[p - 1], x@);
            }
        }
        if p < before.len() {
            law_str_le_total(before[p as int], x@);
            if before[p as int] == x@ {
                law_str_le_reflexive(x@);
            }
        }
    }
    let ghost xv = x@;
    out.insert(p, string_of(x));
    proof {
        let after = texts_view(out@);
        assert(after =~= before.insert(p as int, xv));
        assert forall|i: int, j: int| 0 <= i < j < after.len() implies
            str_le(#[trigger] after[i], #[trigger] after[j]) && after[i] != after[j] by {
            if j < p {
                assert(after[i] == before[i] && after[j] == before[j]);
            } else if j == p {
                assert(after[i] == before[i] && after[j] == xv);
            } else if i < p {
                assert(after[i] == before[i] && after[j] == before[j - 1]);
            } else if i == p {
                assert(after[j] == before[j - 1]);
                if j - 1 > p {
                    law_str_le_transitive(xv, before[p as int], before[j - 1]);
                    if before[j - 1] == xv {
                        assert(str_le(before[p as int], before[j - 1]));
                    }
                }
            } else {
                assert(after[i] == before[i - 1] && after[j] == before[j - 1]);
            }
        }
        assert forall|k: Seq<char>| #[trigger] after.contains(k) <==> before.contains(k) || k == xv by {
            if after.contains(k) {
                let i = choose|i: int| 0 <= i < after.len() && after[i] == k;
                if i < p {
                    assert(before[i] == k);
                } else if i > p {
                    assert(before[i - 1] == k);
                }
            }
            if before.contains(k) {
                let i = choose|i: int| 0 <= i < before.len() && before[i] == k;
                if i < p {
                    assert(after[i] == k);
                } else {
                    assert(after[i + 1] == k);
                }
            }
            if k == xv {
                assert(after[p as int] == k);
            }
        }
    }
}

/// Texts in dictionary order.
pub open spec fn sorted_texts(s: Seq<Seq<char>>) -> bool {
    forall|i: int, j: int| 0 <= i < j < s.len() ==> str_le(#[trigger] s[i], #[trigger] s[j])
}

/// Puts `x` into a list kept in dictionary order, after the entries that
/// do not come after it.
pub fn insert_sorted(out: &mut Vec<String>, x: String)
    requires
        sorted_texts(texts_view(old(out)@)),
    ensures
        sorted_texts(texts_view(final(out)@)),
        texts_view(final(out)@).to_multiset() == texts_view(old(out)@).to_multiset().insert(x@),
{
    let ghost before = texts_view(out@);
    let mut p: usize = 0;
    let mut done = false;
    while p < out.len() && !done
        invariant
            p <= out.len(),
            before == texts_view(out@),
            sorted_texts(before),
            forall|k: int| 0 <= k < p ==> str_le(#[trigger] before[k], x@),
            done ==> p < out.len() && !str_le(before[p as int], x@),
        decreases out.len() - p + (if done { 0int } else { 1int }),
    {
        if str_le_exec(out[p].as_str(), x.as_str()) {
            p = p + 1;
        } else {
            done = true;
        }
    }
    let ghost xv = x@;
    out.insert(p, x);
    proof {
        let after = texts_view(out@);
        assert(after =~= before.insert(p as int, xv));
        if p < before.len() {
            law_str_le_total(before[p as int], xv);
        }
        assert forall|i: int, j: int| 0 <= i < j < after.len() implies str_le(#[trigger] after[i], #[trigger] after[j]) by {
            if j < p {
                assert(after[i] == before[i] && after[j] == before[j]);
            } else if j == p {
                assert(after[i] == before[i] && after[j] == xv);
            } else if i < p {
                assert(after[i] == before[i] && after[j] == before[j - 1]);
            } else if i == p {
                assert(after[j] == before[j - 1]);
                if j - 1 > p {
                    law_str_le_transitive(xv, before[p as int], before[j - 1]);
                }
            } else {
                assert(after[i] == before[i - 1] && after[j] == before[j - 1]);
            }
        }
        vstd::seq_lib::to_multiset_insert(before, p as int, xv);
    }
}

} // verus!
