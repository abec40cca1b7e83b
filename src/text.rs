//! Character-level helpers shared by the codec and the topic router.

use vstd::prelude::*;

verus! {

pub open spec fn is_digit(c: char) -> bool {
    '0' <= c && c <= '9'
}

pub open spec fn all_digits(s: Seq<char>) -> bool {
    forall|i: int| 0 <= i < s.len() ==> is_digit(#[trigger] s[i])
}

pub open spec fn digit_value(c: char) -> nat {
    (c as int - '0' as int) as nat
}

/// The value of a run of decimal digits, most significant first.
pub open spec fn digits_value(s: Seq<char>) -> nat
    decreases s.len(),
{
    if s.len() == 0 {
        0
    } else {
        digits_value(s.drop_last()) * 10 + digit_value(s.last())
    }
}

/// The digit character for `d < 10`.
pub open spec fn digit_char(d: nat) -> char {
    (d + 48) as char
}

/// Decimal rendering of `n`, without sign or leading zeros.
pub open spec fn decimal_text(n: nat) -> Seq<char>
    decreases n,
{
    if n < 10 {
        seq![digit_char(n)]
    } else {
        decimal_text(n / 10).push(digit_char(n % 10))
    }
}

/// `s` cut at every `sep`: one more piece than there are separators, the
/// pieces in order and possibly empty.
pub open spec fn split_on(s: Seq<char>, sep: char) -> Seq<Seq<char>>
    decreases s.len(),
{
    if s.len() == 0 {
        seq![Seq::<char>::empty()]
    } else {
        let prev = split_on(s.drop_last(), sep);
        if s.last() == sep {
            prev.push(Seq::<char>::empty())
        } else {
            prev.update(prev.len() - 1, prev.last().push(s.last()))
        }
    }
}

pub open spec fn views(parts: Seq<Vec<char>>) -> Seq<Seq<char>> {
    parts.map_values(|p: Vec<char>| p@)
}

/// What follows an optional leading `+`.
pub open spec fn without_plus(s: Seq<char>) -> Seq<char> {
    if s.len() > 0 && s[0] == '+' {
        s.drop_first()
    } else {
        s
    }
}

/// Text that reads as a `u64`: an optional `+`, then one or more digits
/// whose value fits in 64 bits.
pub open spec fn is_u64_text(s: Seq<char>) -> bool {
    let d = without_plus(s);
    d.len() > 0 && all_digits(d) && digits_value(d) <= u64::MAX
}

pub open spec fn u64_text_value(s: Seq<char>) -> nat {
    digits_value(without_plus(s))
}

pub proof fn lemma_digits_value_prefix(s: Seq<char>, k: int)
    requires
        0 <= k <= s.len(),
    ensures
        digits_value(s.take(k)) <= digits_value(s),
    decreases s.len(),
{
    if k < s.len() {
        lemma_digits_value_prefix(s.drop_last(), k);
        assert(s.drop_last().take(k) =~= s.take(k));
    } else {
        assert(s.take(k) =~= s);
    }
}

pub proof fn lemma_digit_char(d: nat)
    requires
        d < 10,
    ensures
        is_digit(digit_char(d)),
        digit_value(digit_char(d)) == d,
{
}

pub proof fn lemma_decimal_text(n: nat)
    ensures
        decimal_text(n).len() > 0,
        all_digits(decimal_text(n)),
        digits_value(decimal_text(n)) == n,
    decreases n,
{
    lemma_digit_char(n % 10);
    if n < 10 {
        assert(decimal_text(n).drop_last() =~= Seq::<char>::empty());
        assert(digits_value(Seq::<char>::empty()) == 0);
    } else {
        lemma_decimal_text(n / 10);
        let t = decimal_text(n);
        assert(t.drop_last() =~= decimal_text(n / 10));
        assert(t.last() == digit_char(n % 10));
        assert(digits_value(decimal_text(n / 10)) == n / 10);
        assert(n == (n / 10) * 10 + n % 10);
        assert(digits_value(t) == digits_value(decimal_text(n / 10)) * 10 + n % 10);
        assert forall|i: int| 0 <= i < t.len() implies is_digit(#[trigger] t[i]) by {
            if i < t.len() - 1 {
                assert(t[i] == decimal_text(n / 10)[i]);
            }
        }
    }
}

/// The characters of `s`, one by one.
pub fn chars_of(s: &str) -> (r: Vec<char>)
    ensures
        r@ == s@,
{
    broadcast use vstd::string::group_string_axioms;

    let mut r: Vec<char> = Vec::new();
    for c in it: s.chars()
        invariant
            it.seq() == s@,
            r@ == s@.take(it.index() as int),
    {
        r.push(c);
        assert(r@ =~= s@.take(it.index() + 1));
    }
    assert(r@ =~= s@);
    r
}

/// The characters of `v` from `lo` up to `hi`.
pub fn slice_chars(v: &Vec<char>, lo: usize, hi: usize) -> (r: Vec<char>)
    requires
        lo <= hi <= v@.len(),
    ensures
        r@ == v@.subrange(lo as int, hi as int),
{
    let mut r: Vec<char> = Vec::new();
    let mut i: usize = lo;
    while i < hi
        invariant
            lo <= i <= hi,
            hi <= v@.len(),
            r@ == v@.subrange(lo as int, i as int),
        decreases hi - i,
    {
        r.push(v[i]);
        i += 1;
        assert(r@ =~= v@.subrange(lo as int, i as int));
    }
    r
}

pub proof fn lemma_split_on_len(s: Seq<char>, sep: char)
    ensures
        split_on(s, sep).len() >= 1,
    decreases s.len(),
{
    if s.len() > 0 {
        lemma_split_on_len(s.drop_last(), sep);
    }
}

/// A text without `x` (other than `sep`) in any of its pieces has no `x` at all.
pub proof fn lemma_split_excludes(s: Seq<char>, sep: char, x: char)
    requires
        x != sep,
        forall|j: int, k: int|
            0 <= j < split_on(s, sep).len() && 0 <= k < split_on(s, sep)[j].len()
                ==> #[trigger] split_on(s, sep)[j][k] != x,
    ensures
        forall|i: int| 0 <= i < s.len() ==> s[i] != x,
    decreases s.len(),
{
    if s.len() > 0 {
        let prev = split_on(s.drop_last(), sep);
        let cur = split_on(s, sep);
        lemma_split_on_len(s.drop_last(), sep);
        assert forall|j: int, k: int| 0 <= j < prev.len() && 0 <= k < prev[j].len() implies #[trigger] prev[j][k] != x by {
            if s.last() == sep || j < prev.len() - 1 {
                assert(cur[j] == prev[j]);
                assert(cur[j][k] != x);
            } else {
                assert(cur[j][k] == prev[j][k]);
                assert(cur[j][k] != x);
            }
        }
        lemma_split_excludes(s.drop_last(), sep, x);
        assert forall|i: int| 0 <= i < s.len() implies s[i] != x by {
            if i < s.len() - 1 {
                assert(s[i] == s.drop_last()[i]);
            } else if s.last() != sep {
                let j = cur.len() - 1;
                assert(cur[j][cur[j].len() - 1] == s.last());
            }
        }
    }
}

pub proof fn lemma_split_without_sep(s: Seq<char>, sep: char)
    requires
        forall|i: int| 0 <= i < s.len() ==> s[i] != sep,
    ensures
        split_on(s, sep) == seq![s],
    decreases s.len(),
{
    if s.len() > 0 {
        lemma_split_without_sep(s.drop_last(), sep);
        assert(s.drop_last().push(s.last()) =~= s);
        assert(seq![s.drop_last()].update(0, s.drop_last().push(s.last())) =~= seq![s]);
    } else {
        assert(s =~= Seq::<char>::empty());
        assert(seq![Seq::<char>::empty()] =~= seq![s]);
    }
}

/// Two texts without `sep`, joined by one `sep`, cut back into the two.
pub proof fn lemma_split_pair(a: Seq<char>, b: Seq<char>, sep: char)
    requires
        forall|i: int| 0 <= i < a.len() ==> a[i] != sep,
        forall|i: int| 0 <= i < b.len() ==> b[i] != sep,
    ensures
        split_on(a + seq![sep] + b, sep) == seq![a, b],
    decreases b.len(),
{
    let s = a + seq![sep] + b;
    if b.len() == 0 {
        lemma_split_without_sep(a, sep);
        assert(s.drop_last() =~= a);
        assert(b =~= Seq::<char>::empty());
        assert(seq![a].push(Seq::<char>::empty()) =~= seq![a, b]);
    } else {
        lemma_split_pair(a, b.drop_last(), sep);
        assert(s.drop_last() =~= a + seq![sep] + b.drop_last());
        assert(b.drop_last().push(b.last()) =~= b);
        assert(seq![a, b.drop_last()].update(1, b.drop_last().push(b.last())) =~= seq![a, b]);
    }
}

/// Cuts `v` at every `sep`.
pub fn split_chars(v: &Vec<char>, sep: char) -> (r: Vec<Vec<char>>)
    ensures
        views(r@) == split_on(v@, sep),
{
    let n = v.len();
    let mut parts: Vec<Vec<char>> = Vec::new();
    let mut cur: Vec<char> = Vec::new();
    let mut i: usize = 0;
    assert(views(parts@).push(cur@) =~= split_on(v@.take(0), sep));
    while i < n
        invariant
            n == v@.len(),
            i <= n,
            views(parts@).push(cur@) == split_on(v@.take(i as int), sep),
        decreases n - i,
    {
        let c = v[i];
        let ghost prev = split_on(v@.take(i as int), sep);
        assert(v@.take(i + 1).drop_last() =~= v@.take(i as int));
        assert(v@.take(i + 1).last() == c);
        if c == sep {
            parts.push(cur);
            cur = Vec::new();
            assert(views(parts@).push(cur@) =~= prev.push(Seq::<char>::empty()));
        } else {
            let ghost old_cur = cur@;
            cur.push(c);
            assert(views(parts@).push(cur@) =~= prev.update(prev.len() - 1, old_cur.push(c)));
        }
        i += 1;
    }
    assert(v@.take(n as int) =~= v@);
    parts.push(cur);
    assert(views(parts@) =~= split_on(v@, sep));
    parts
}

/// Whether every character of `v` is a decimal digit.
pub fn digits_only(v: &Vec<char>) -> (r: bool)
    ensures
        r == all_digits(v@),
{
    let mut i: usize = 0;
    while i < v.len()
        invariant
            i <= v@.len(),
            all_digits(v@.take(i as int)),
        decreases v@.len() - i,
    {
        if !('0' <= v[i] && v[i] <= '9') {
            assert(!is_digit(v@[i as int]));
            return false;
        }
        i += 1;
        assert(all_digits(v@.take(i as int)));
    }
    assert(v@.take(i as int) =~= v@);
    true
}

/// Relies on `String`'s `FromIterator<char>`: the string holds exactly the
/// characters handed to it, in order.
#[verifier::external_body]
pub(crate) fn string_of(v: &Vec<char>) -> (r: String)
    ensures
        r@ == v@,
{
    v.iter().collect()
}

/// Reads `s` as a `u64` in the way std's integer parser does.
pub fn parse_u64(s: &Vec<char>) -> (r: Option<u64>)
    ensures
        r is Some <==> is_u64_text(s@),
        r is Some ==> r->0 == u64_text_value(s@),
{
    let n = s.len();
    let start: usize = if n > 0 && s[0] == '+' { 1 } else { 0 };
    let ghost d = without_plus(s@);
    assert(d =~= s@.subrange(start as int, n as int));
    if start == n {
        assert(d.len() == 0);
        return None;
    }
    let mut v: u64 = 0;
    let mut i: usize = start;
    while i < n
        invariant
            start <= i <= n,
            n == s@.len(),
            d == s@.subrange(start as int, n as int),
            d == without_plus(s@),
            all_digits(d.take(i - start)),
            v == digits_value(d.take(i - start)),
        decreases n - i,
    {
        let c = s[i];
        if !('0' <= c && c <= '9') {
            assert(!is_digit(d[i - start]));
            assert(!all_digits(d));
            return None;
        }
        let dv: u64 = (c as u32 - '0' as u32) as u64;
        proof {
            assert(d.take(i - start + 1).drop_last() =~= d.take(i - start));
            assert(d.take(i - start + 1).last() == c);
            assert(digits_value(d.take(i - start + 1)) == v * 10 + dv);
        }
        if v > (u64::MAX - dv) / 10 {
            proof {
                assert(v * 10 + dv > u64::MAX) by (nonlinear_arith)
                    requires
                        v > (u64::MAX - dv) / 10,
                        dv <= 9,
                ;
                if all_digits(d) {
                    lemma_digits_value_prefix(d, i - start + 1);
                    assert(digits_value(d) > u64::MAX);
                }
                assert(!all_digits(d) || digits_value(d) > u64::MAX);
            }
            return None;
        }
        proof {
            assert(v * 10 + dv <= u64::MAX) by (nonlinear_arith)
                requires
                    v <= (u64::MAX - dv) / 10,
                    dv <= 9,
            ;
        }
        v = v * 10 + dv;
        i += 1;
        assert(all_digits(d.take(i - start)));
    }
    assert(d.take(n - start) =~= d);
    assert(all_digits(d));
    assert(digits_value(d) == v);
    Some(v)
}

fn digit_str(d: u64) -> (r: &'static str)
    requires
        d < 10,
    ensures
        r@ == seq![digit_char(d as nat)],
{
    proof {
        reveal_strlit("0");
        reveal_strlit("1");
        reveal_strlit("2");
        reveal_strlit("3");
        reveal_strlit("4");
        reveal_strlit("5");
        reveal_strlit("6");
        reveal_strlit("7");
        reveal_strlit("8");
        reveal_strlit("9");
    }
    if d == 0 {
        "0"
    } else if d == 1 {
        "1"
    } else if d == 2 {
        "2"
    } else if d == 3 {
        "3"
    } else if d == 4 {
        "4"
    } else if d == 5 {
        "5"
    } else if d == 6 {
        "6"
    } else if d == 7 {
        "7"
    } else if d == 8 {
        "8"
    } else {
        "9"
    }
}

/// Appends the decimal rendering of `n` to `out`.
pub fn push_decimal(out: &mut String, n: u64)
    ensures
        final(out)@ == old(out)@ + decimal_text(n as nat),
    decreases n,
{
    if n >= 10 {
        push_decimal(out, n / 10);
    }
    out.append(digit_str(n % 10));
    assert(decimal_text(n as nat) =~= if n < 10 {
        seq![digit_char(n as nat)]
    } else {
        decimal_text((n / 10) as nat).push(digit_char((n % 10) as nat))
    });
}

} // verus!
