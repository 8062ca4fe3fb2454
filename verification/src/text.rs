//! Verified string building blocks used by the bot's messages.

use vstd::prelude::*;

verus! {

/// Appends one character to a `String` (std's `String::push`).
///
/// Trusted: std documents that `push` appends the given `char` to the end
/// of the string; the contract states exactly that.
#[verifier::external_body]
fn push_char(s: &mut String, c: char)
    ensures
        final(s)@ == old(s)@.push(c),
{
    s.push(c)
}

/// The characters of a string slice, in order.
pub fn chars_of(s: &str) -> (v: Vec<char>)
    ensures
        v@ == s@,
{
    let mut v: Vec<char> = Vec::new();
    for c in it: s.chars()
        invariant
            v@ == it.seq().take(it.index() as int),
            it.seq() == s@,
    {
        v.push(c);
    }
    v
}


/// What std's `str::replace` gives: every non-overlapping occurrence of
/// `from`, found from left to right, is replaced by `to`. An empty `from`
/// matches before every character and at the end.
pub open spec fn replace_spec(s: Seq<char>, from: Seq<char>, to: Seq<char>) -> Seq<char>
    decreases s.len(),
{
    if from.len() == 0 {
        if s.len() == 0 {
            to
        } else {
            to + seq![s[0]] + replace_spec(s.drop_first(), from, to)
        }
    } else if s.len() < from.len() {
        s
    } else if s.take(from.len() as int) == from {
        to + replace_spec(s.skip(from.len() as int), from, to)
    } else {
        seq![s[0]] + replace_spec(s.drop_first(), from, to)
    }
}

/// Whether `pattern` occurs in `v` at position `i`.
fn occurs_at(v: &Vec<char>, i: usize, pattern: &Vec<char>) -> (b: bool)
    requires
        i + pattern.len() <= v.len(),
    ensures
        b == (v@.subrange(i as int, i + pattern.len()) == pattern@),
{
    let m = pattern.len();
    let mut k: usize = 0;
    while k < m
        invariant
            k <= m,
            m == pattern.len(),
            i + m <= v.len(),
            forall|j: int| 0 <= j < k ==> v@[i + j] == pattern@[j],
        decreases m - k,
    {
        if v[i + k] != pattern[k] {
            assert(v@.subrange(i as int, i + m)[k as int] != pattern@[k as int]);
            return false;
        }
        k = k + 1;
    }
    assert(v@.subrange(i as int, i + m) =~= pattern@);
    true
}

/// Replaces every occurrence of `from` in `s` by `to`, as std's
/// `str::replace` does.
pub fn replace(s: &str, from: &str, to: &str) -> (r: String)
    ensures
        r@ == replace_spec(s@, from@, to@),
{
    let sv = chars_of(s);
    let fv = chars_of(from);
    let n = sv.len();
    let m = fv.len();
    let mut r = String::new();
    let mut i: usize = 0;
    assert(sv@.skip(0) =~= sv@);
    assert(r@ + replace_spec(sv@, fv@, to@) =~= replace_spec(sv@, fv@, to@));
    if m == 0 {
        while i < n
            invariant
                i <= n,
                n == sv@.len(),
                fv@.len() == 0,
                r@ + replace_spec(sv@.skip(i as int), fv@, to@) == replace_spec(sv@, fv@, to@),
            decreases n - i,
        {
            let ghost rest = sv@.skip(i as int);
            assert(rest.drop_first() =~= sv@.skip(i + 1));
            r.append(to);
            push_char(&mut r, sv[i]);
            i = i + 1;
            assert(r@ + replace_spec(sv@.skip(i as int), fv@, to@) =~= replace_spec(sv@, fv@, to@));
        }
        assert(sv@.skip(i as int) =~= Seq::<char>::empty());
        r.append(to);
        return r;
    }
    while i < n
        invariant
            i <= n,
            n == sv@.len(),
            m == fv@.len(),
            m > 0,
            r@ + replace_spec(sv@.skip(i as int), fv@, to@) == replace_spec(sv@, fv@, to@),
        decreases n - i,
    {
        let ghost rest = sv@.skip(i as int);
        if n - i >= m && occurs_at(&sv, i, &fv) {
            assert(rest.take(m as int) =~= sv@.subrange(i as int, i + m));
            assert(rest.skip(m as int) =~= sv@.skip(i + m));
            r.append(to);
            i = i + m;
            assert(r@ + replace_spec(sv@.skip(i as int), fv@, to@) =~= replace_spec(sv@, fv@, to@));
        } else {
            assert(rest.drop_first() =~= sv@.skip(i + 1));
            if n - i >= m {
                assert(rest.take(m as int) =~= sv@.subrange(i as int, i + m));
            } else {
                assert(rest =~= seq![rest[0]] + rest.drop_first());
            }
            push_char(&mut r, sv[i]);
            i = i + 1;
            assert(r@ + replace_spec(sv@.skip(i as int), fv@, to@) =~= replace_spec(sv@, fv@, to@));
        }
    }
    assert(sv@.skip(i as int) =~= Seq::<char>::empty());
    assert(r@ + Seq::<char>::empty() =~= r@);
    r
}

/// Whether `s` begins with `prefix`.
pub fn starts_with(s: &str, prefix: &str) -> (b: bool)
    ensures
        b == (prefix@.len() <= s@.len() && s@.take(prefix@.len() as int) == prefix@),
{
    let sv = chars_of(s);
    let pv = chars_of(prefix);
    if pv.len() > sv.len() {
        return false;
    }
    let b = occurs_at(&sv, 0, &pv);
    assert(sv@.subrange(0, pv@.len() as int) =~= sv@.take(pv@.len() as int));
    b
}

/// The character of the decimal digit `d` (`0 <= d < 10`).
pub open spec fn digit_char(d: nat) -> char {
    (48 + d) as char
}

/// The decimal rendering of `n`, without sign or leading zeros, as
/// `Display` writes an unsigned integer.
pub open spec fn decimal_spec(n: nat) -> Seq<char>
    decreases n,
{
    if n < 10 {
        seq![digit_char(n)]
    } else {
        decimal_spec(n / 10).push(digit_char(n % 10))
    }
}

/// Appends the decimal rendering of `n` to `s`.
pub fn push_decimal(s: &mut String, n: u64)
    ensures
        final(s)@ == old(s)@ + decimal_spec(n as nat),
    decreases n,
{
    if n >= 10 {
        push_decimal(s, n / 10);
    }
    let d: u8 = (n % 10) as u8;
    let c: char = (48u8 + d) as char;
    push_char(s, c);
    assert(s@ =~= old(s)@ + decimal_spec(n as nat));
}

/// Whether `pattern` occurs somewhere in `s`.
pub open spec fn occurs_in(s: Seq<char>, pattern: Seq<char>) -> bool {
    exists|i: int|
        0 <= i && i + pattern.len() <= s.len() && #[trigger] s.subrange(i, i + pattern.len())
            == pattern
}

/// Replacing a text by itself changes nothing.
pub proof fn law_replace_by_itself(s: Seq<char>, from: Seq<char>)
    ensures
        replace_spec(s, from, from) == s,
    decreases s.len(),
{
    if from.len() == 0 {
        if s.len() > 0 {
            law_replace_by_itself(s.drop_first(), from);
            assert(from + seq![s[0]] + s.drop_first() =~= s);
        }
    } else if s.len() < from.len() {
    } else if s.take(from.len() as int) == from {
        law_replace_by_itself(s.skip(from.len() as int), from);
        assert(s.take(from.len() as int) + s.skip(from.len() as int) =~= s);
    } else {
        law_replace_by_itself(s.drop_first(), from);
        assert(seq![s[0]] + s.drop_first() =~= s);
    }
}

/// Replacing a non-empty text that does not occur changes nothing.
pub proof fn law_replace_absent(s: Seq<char>, from: Seq<char>, to: Seq<char>)
    requires
        from.len() > 0,
        !occurs_in(s, from),
    ensures
        replace_spec(s, from, to) == s,
    decreases s.len(),
{
    if s.len() >= from.len() {
        assert(s.subrange(0int, 0int + from.len()) != from);
        assert(s.take(from.len() as int) =~= s.subrange(0int, 0int + from.len()));
        let rest = s.drop_first();
        assert(!occurs_in(rest, from)) by {
            if occurs_in(rest, from) {
                let i = choose|i: int|
                    0 <= i && i + from.len() <= rest.len() && #[trigger] rest.subrange(
                        i,
                        i + from.len(),
                    ) == from;
                assert(s.subrange(i + 1, i + 1 + from.len()) =~= rest.subrange(i, i + from.len()));
            }
        }
        law_replace_absent(rest, from, to);
        assert(seq![s[0]] + rest =~= s);
    }
}

/// The rendering of a number has at least one character.
proof fn lemma_decimal_len(n: nat)
    ensures
        decimal_spec(n).len() >= 1,
        n >= 10 ==> decimal_spec(n).len() >= 2,
    decreases n,
{
    if n >= 10 {
        lemma_decimal_len(n / 10);
    }
}

/// Distinct numbers have distinct decimal renderings.
pub proof fn law_decimal_injective(a: nat, b: nat)
    requires
        decimal_spec(a) == decimal_spec(b),
    ensures
        a == b,
    decreases a,
{
    lemma_decimal_len(a);
    lemma_decimal_len(b);
    let da = decimal_spec(a);
    let db = decimal_spec(b);
    assert(da.last() == db.last());
    if a >= 10 && b >= 10 {
        assert(da.drop_last() =~= decimal_spec(a / 10));
        assert(db.drop_last() =~= decimal_spec(b / 10));
        law_decimal_injective(a / 10, b / 10);
        assert((48 + a % 10) as char == (48 + b % 10) as char);
    } else if a < 10 && b < 10 {
        assert(da[0] == db[0]);
    }
}

/// The leftmost occurrence of a non-empty `from` is replaced, the text
/// before it is kept, and the replacing goes on after it: when `from` does
/// not occur in `a + from + b` before the end of `a`, the result is `a`,
/// then `to`, then the replacement in `b`.
pub proof fn law_replace_leftmost_occurrence(a: Seq<char>, b: Seq<char>, from: Seq<char>, to: Seq<char>)
    requires
        from.len() > 0,
        forall|i: int| 0 <= i < a.len() ==> #[trigger] (a + from + b).subrange(i, i + from.len()) != from,
    ensures
        replace_spec(a + from + b, from, to) == a + to + replace_spec(b, from, to),
    decreases a.len(),
{
    let s = a + from + b;
    if a.len() == 0 {
        assert(s =~= from + b);
        assert(s.take(from.len() as int) =~= from);
        assert(s.skip(from.len() as int) =~= b);
        assert(a + to + replace_spec(b, from, to) =~= to + replace_spec(b, from, to));
    } else {
        assert(s.subrange(0int, 0int + from.len()) != from);
        assert(s.take(from.len() as int) =~= s.subrange(0int, 0int + from.len()));
        let a2 = a.drop_first();
        assert(s.drop_first() =~= a2 + from + b);
        assert forall|i: int| 0 <= i < a2.len() implies #[trigger] (a2 + from + b).subrange(
            i,
            i + from.len(),
        ) != from by {
            assert((a2 + from + b).subrange(i, i + from.len()) =~= s.subrange(
                i + 1,
                i + 1 + from.len(),
            ));
        }
        law_replace_leftmost_occurrence(a2, b, from, to);
        assert(seq![a[0]] + (a2 + to + replace_spec(b, from, to)) =~= a + to + replace_spec(
            b,
            from,
            to,
        ));
    }
}

/// An occurrence after a character that does not start one is replaced
/// too: when `c + from` does not begin with `from`, the replacement in
/// `c + from + b` is `c`, then `to`, then the replacement in `b`.
pub proof fn law_replace_after_other_character(c: char, from: Seq<char>, b: Seq<char>, to: Seq<char>)
    requires
        from.len() > 0,
        (seq![c] + from).take(from.len() as int) != from,
    ensures
        replace_spec(seq![c] + from + b, from, to) == seq![c] + to + replace_spec(b, from, to),
{
    assert forall|i: int| 0 <= i < 1 implies #[trigger] (seq![c] + from + b).subrange(
        i,
        i + from.len(),
    ) != from by {
        assert((seq![c] + from + b).subrange(0, from.len() as int) =~= (seq![c] + from).take(
            from.len() as int,
        ));
    }
    law_replace_leftmost_occurrence(seq![c], b, from, to);
}

/// The number a sequence of decimal digits denotes.
pub open spec fn digits_value(digits: Seq<char>) -> int
    decreases digits.len(),
{
    if digits.len() == 0 {
        0
    } else {
        digits_value(digits.drop_last()) * 10 + (digits.last() as int - '0' as int)
    }
}

/// The decimal rendering of `n` is made of the digits `0` to `9` and
/// denotes `n`.
pub proof fn law_decimal_denotes_number(n: nat)
    ensures
        forall|k: int|
            0 <= k < decimal_spec(n).len() ==> '0' <= #[trigger] decimal_spec(n)[k] <= '9',
        digits_value(decimal_spec(n)) == n,
    decreases n,
{
    if n >= 10 {
        law_decimal_denotes_number(n / 10);
        let d = decimal_spec(n);
        assert(d.drop_last() =~= decimal_spec(n / 10));
        assert(d.last() == digit_char(n % 10));
        assert(digit_char(n % 10) as int == 48 + n % 10);
        assert('0' as int == 48);
        assert(n == (n / 10) * 10 + n % 10) by (nonlinear_arith);
        lemma_decimal_len(n);
        assert(digits_value(d) == digits_value(d.drop_last()) * 10 + (d.last() as int - '0' as int));
        assert(digits_value(d.drop_last()) == n / 10);
        assert forall|k: int| 0 <= k < d.len() implies '0' <= #[trigger] d[k] <= '9' by {
            if k < d.len() - 1 {
                assert(d[k] == decimal_spec(n / 10)[k]);
            }
        }
    } else {
        assert(decimal_spec(n).drop_last() =~= Seq::<char>::empty());
        assert(digit_char(n) as int == 48 + n);
        assert('0' as int == 48);
        let d = decimal_spec(n);
        assert(d.len() == 1);
        assert(digits_value(d) == digits_value(d.drop_last()) * 10 + (d.last() as int - '0' as int));
    }
}

} // verus!
