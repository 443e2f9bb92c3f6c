//! Character-level helpers over the view of a string: searching, splitting
//! on a separator, and reading unsigned decimal numbers.
use vstd::prelude::*;
use vstd::string::*;

verus! {

/// Index of the first character of `s` that is `a` or `b`, or `s.len()` when
/// there is none.
pub open spec fn first_of(s: Seq<char>, a: char, b: char) -> nat
    decreases s.len(),
{
    if s.len() == 0 {
        0
    } else if s[0] == a || s[0] == b {
        0
    } else {
        1 + first_of(s.drop_first(), a, b)
    }
}

/// Index of the first `c` in `s`, or `s.len()` when `s` holds none.
pub open spec fn first_index(s: Seq<char>, c: char) -> nat {
    first_of(s, c, c)
}

/// The pieces of `s` between occurrences of `c`, in order; an empty `s`
/// gives one empty piece.
pub open spec fn split(s: Seq<char>, c: char) -> Seq<Seq<char>>
    decreases s.len(),
{
    let i = first_index(s, c);
    if i < s.len() {
        seq![s.subrange(0, i as int)] + split(s.subrange(i + 1 as int, s.len() as int), c)
    } else {
        seq![s]
    }
}

pub open spec fn is_digit(c: char) -> bool {
    '0' <= c && c <= '9'
}

/// A non-empty run of decimal digits.
pub open spec fn all_digits(s: Seq<char>) -> bool {
    s.len() > 0 && forall|i: int| 0 <= i < s.len() ==> is_digit(#[trigger] s[i])
}

/// The number that a run of decimal digits denotes.
pub open spec fn digits_value(s: Seq<char>) -> nat
    decreases s.len(),
{
    if s.len() == 0 {
        0
    } else {
        digits_value(s.drop_last()) * 10 + ((s.last() as nat) - ('0' as nat)) as nat
    }
}

/// `s` denotes a number that fits in a `u64`.
pub open spec fn is_u64_decimal(s: Seq<char>) -> bool {
    all_digits(s) && digits_value(s) <= u64::MAX
}

pub proof fn lemma_first_of_bounds(s: Seq<char>, a: char, b: char)
    ensures
        first_of(s, a, b) <= s.len(),
        forall|j: int| 0 <= j < first_of(s, a, b) ==> s[j] != a && s[j] != b,
        first_of(s, a, b) < s.len() ==> (s[first_of(s, a, b) as int] == a || s[first_of(
            s,
            a,
            b,
        ) as int] == b),
    decreases s.len(),
{
    if s.len() > 0 && !(s[0] == a || s[0] == b) {
        lemma_first_of_bounds(s.drop_first(), a, b);
        assert forall|j: int| 0 <= j < first_of(s, a, b) implies s[j] != a && s[j] != b by {
            if j > 0 {
                assert(s[j] == s.drop_first()[j - 1]);
            }
        }
    }
}

proof fn lemma_first_of_is(s: Seq<char>, a: char, b: char, i: int)
    requires
        0 <= i <= s.len(),
        forall|j: int| 0 <= j < i ==> s[j] != a && s[j] != b,
        i < s.len() ==> (s[i] == a || s[i] == b),
    ensures
        first_of(s, a, b) == i,
    decreases s.len(),
{
    if s.len() > 0 && i > 0 {
        assert forall|j: int| 0 <= j < i - 1 implies s.drop_first()[j] != a && s.drop_first()[j]
            != b by {
            assert(s.drop_first()[j] == s[j + 1]);
        }
        lemma_first_of_is(s.drop_first(), a, b, i - 1);
    }
}

proof fn lemma_digits_value_grows(s: Seq<char>, k: int)
    requires
        0 <= k <= s.len(),
        forall|i: int| 0 <= i < s.len() ==> is_digit(#[trigger] s[i]),
    ensures
        digits_value(s.subrange(0, k)) <= digits_value(s),
    decreases s.len() - k,
{
    if k < s.len() {
        lemma_digits_value_grows(s, k + 1);
        assert(s.subrange(0, k + 1).drop_last() =~= s.subrange(0, k));
    } else {
        assert(s.subrange(0, k) =~= s);
    }
}

/// No character of `s` is `a` or `b`.
pub open spec fn avoids(s: Seq<char>, a: char, b: char) -> bool {
    forall|i: int| 0 <= i < s.len() ==> #[trigger] s[i] != a && s[i] != b
}

pub proof fn lemma_avoids_concat(x: Seq<char>, y: Seq<char>, a: char, b: char)
    requires
        avoids(x, a, b),
        avoids(y, a, b),
    ensures
        avoids(x + y, a, b),
{
    assert forall|i: int| 0 <= i < (x + y).len() implies #[trigger] (x + y)[i] != a && (x + y)[i]
        != b by {
        if i >= x.len() {
            assert((x + y)[i] == y[i - x.len()]);
        }
    }
}

/// A search for `a` or `b` passes over a prefix that holds neither.
pub proof fn lemma_first_of_append(x: Seq<char>, y: Seq<char>, a: char, b: char)
    requires
        avoids(x, a, b),
    ensures
        first_of(x + y, a, b) == x.len() + first_of(y, a, b),
    decreases x.len(),
{
    if x.len() > 0 {
        assert((x + y).drop_first() =~= x.drop_first() + y);
        assert forall|i: int| 0 <= i < x.drop_first().len() implies #[trigger] x.drop_first()[i]
            != a && x.drop_first()[i] != b by {
            assert(x.drop_first()[i] == x[i + 1]);
        }
        lemma_first_of_append(x.drop_first(), y, a, b);
    } else {
        assert(x + y =~= y);
    }
}

/// A piece free of the separator, then the separator, then the rest.
pub proof fn lemma_split_cons(x: Seq<char>, y: Seq<char>, c: char)
    requires
        avoids(x, c, c),
    ensures
        split(x + seq![c] + y, c) == seq![x] + split(y, c),
{
    let s = x + seq![c] + y;
    assert(s =~= x + (seq![c] + y));
    lemma_first_of_append(x, seq![c] + y, c, c);
    assert(first_of(seq![c] + y, c, c) == 0);
    assert(s.subrange(0, x.len() as int) =~= x);
    assert(s.subrange(x.len() + 1 as int, s.len() as int) =~= y);
}

/// The first piece of `x + y` is `x` when `x` is free of the separator and
/// `y` is empty or starts with it.
pub proof fn lemma_split_first(x: Seq<char>, y: Seq<char>, c: char)
    requires
        avoids(x, c, c),
        y.len() == 0 || y[0] == c,
    ensures
        split(x + y, c).len() >= 1,
        split(x + y, c)[0] == x,
{
    let s = x + y;
    lemma_first_of_append(x, y, c, c);
    if y.len() == 0 {
        assert(s =~= x);
    } else {
        assert(first_of(y, c, c) == 0);
        assert(s.subrange(0, x.len() as int) =~= x);
    }
}

/// Decimal digits hold no separator of a URL.
pub proof fn lemma_digits_avoid(s: Seq<char>, a: char, b: char)
    requires
        all_digits(s),
        !is_digit(a),
        !is_digit(b),
    ensures
        avoids(s, a, b),
{
    assert forall|i: int| 0 <= i < s.len() implies #[trigger] s[i] != a && s[i] != b by {
        assert(is_digit(s[i]));
    }
}

/// Reads the characters of `s` into a vector.
pub fn chars_of(s: &str) -> (r: Vec<char>)
    ensures
        r@ == s@,
{
    let n = s.unicode_len();
    let mut r: Vec<char> = Vec::new();
    let mut i: usize = 0;
    while i < n
        invariant
            n == s@.len(),
            i <= n,
            r@ == s@.subrange(0, i as int),
        decreases n - i,
    {
        let c = s.get_char(i);
        r.push(c);
        i = i + 1;
        assert(r@ =~= s@.subrange(0, i as int));
    }
    assert(r@ =~= s@);
    r
}

/// Position of the first `a` or `b` in `chars[lo..hi]`, or `hi` when there is none.
pub fn find_first_of(chars: &Vec<char>, lo: usize, hi: usize, a: char, b: char) -> (r: usize)
    requires
        lo <= hi <= chars@.len(),
    ensures
        lo <= r <= hi,
        r - lo == first_of(chars@.subrange(lo as int, hi as int), a, b),
{
    let mut i: usize = lo;
    while i < hi && chars[i] != a && chars[i] != b
        invariant
            lo <= i <= hi <= chars@.len(),
            forall|j: int| lo <= j < i ==> chars@[j] != a && chars@[j] != b,
        decreases hi - i,
    {
        i = i + 1;
    }
    proof {
        let s = chars@.subrange(lo as int, hi as int);
        lemma_first_of_is(s, a, b, i - lo);
    }
    i
}

proof fn lemma_split_step(s: Seq<char>, c: char, start: int, i: int)
    requires
        0 <= start <= i < s.len(),
        i - start == first_index(s.subrange(start, s.len() as int), c),
    ensures
        split(s.subrange(start, s.len() as int), c) == seq![s.subrange(start, i)] + split(
            s.subrange(i + 1, s.len() as int),
            c,
        ),
{
    let t = s.subrange(start, s.len() as int);
    assert(t.subrange(0, i - start) =~= s.subrange(start, i));
    assert(t.subrange(i - start + 1, t.len() as int) =~= s.subrange(i + 1, s.len() as int));
}

/// Splits `chars[lo..hi]` on `c`: the result holds the bounds of each piece.
pub fn split_ranges(chars: &Vec<char>, lo: usize, hi: usize, c: char) -> (r: Vec<(usize, usize)>)
    requires
        lo <= hi <= chars@.len(),
    ensures
        r@.len() == split(chars@.subrange(lo as int, hi as int), c).len(),
        forall|k: int|
            0 <= k < r@.len() ==> lo <= (#[trigger] r@[k]).0 <= r@[k].1 <= hi && chars@.subrange(
                r@[k].0 as int,
                r@[k].1 as int,
            ) == split(chars@.subrange(lo as int, hi as int), c)[k],
{
    let ghost whole = chars@.subrange(lo as int, hi as int);
    let ghost mut done: Seq<Seq<char>> = Seq::empty();
    let mut r: Vec<(usize, usize)> = Vec::new();
    let mut start: usize = lo;
    loop
        invariant
            lo <= start <= hi <= chars@.len(),
            whole == chars@.subrange(lo as int, hi as int),
            done.len() == r@.len(),
            split(whole, c) == done + split(chars@.subrange(start as int, hi as int), c),
            forall|k: int|
                0 <= k < r@.len() ==> lo <= (#[trigger] r@[k]).0 <= r@[k].1 <= hi
                    && chars@.subrange(r@[k].0 as int, r@[k].1 as int) == done[k],
        decreases hi - start,
    {
        let i = find_first_of(chars, start, hi, c, c);
        let ghost rest = chars@.subrange(start as int, hi as int);
        if i == hi {
            proof {
                assert(split(rest, c) == seq![rest]);
                done = done.push(rest);
                assert(split(whole, c) =~= done);
            }
            r.push((start, hi));
            return r;
        }
        proof {
            let t = chars@.subrange(0, hi as int);
            assert(t.subrange(start as int, hi as int) =~= rest);
            assert(t.subrange(start as int, i as int) =~= chars@.subrange(start as int, i as int));
            assert(t.subrange(i + 1, hi as int) =~= chars@.subrange(i + 1, hi as int));
            lemma_split_step(t, c, start as int, i as int);
            done = done.push(chars@.subrange(start as int, i as int));
            assert(split(whole, c) =~= done + split(chars@.subrange(i + 1, hi as int), c));
        }
        r.push((start, i));
        start = i + 1;
    }
}

/// Whether `chars[lo..hi]` is exactly the text of `lit`.
pub fn range_is(chars: &Vec<char>, lo: usize, hi: usize, lit: &str) -> (r: bool)
    requires
        lo <= hi <= chars@.len(),
    ensures
        r == (chars@.subrange(lo as int, hi as int) == lit@),
{
    let n = lit.unicode_len();
    if hi - lo != n {
        proof {
            assert(chars@.subrange(lo as int, hi as int).len() != lit@.len());
        }
        return false;
    }
    let mut i: usize = 0;
    while i < n
        invariant
            n == lit@.len() == hi - lo,
            lo <= hi <= chars@.len(),
            i <= n,
            forall|j: int| 0 <= j < i ==> chars@[lo + j] == lit@[j],
        decreases n - i,
    {
        if chars[lo + i] != lit.get_char(i) {
            proof {
                assert(chars@.subrange(lo as int, hi as int)[i as int] != lit@[i as int]);
            }
            return false;
        }
        i = i + 1;
    }
    assert(chars@.subrange(lo as int, hi as int) =~= lit@);
    true
}

/// Reads `chars[lo..hi]` as an unsigned decimal number; `None` unless it is a
/// non-empty run of digits whose value fits in a `u64`.
pub fn parse_u64(chars: &Vec<char>, lo: usize, hi: usize) -> (r: Option<u64>)
    requires
        lo <= hi <= chars@.len(),
    ensures
        r.is_some() == is_u64_decimal(chars@.subrange(lo as int, hi as int)),
        r.is_some() ==> r.unwrap() == digits_value(chars@.subrange(lo as int, hi as int)),
{
    let ghost s = chars@.subrange(lo as int, hi as int);
    if lo == hi {
        return None;
    }
    let mut i: usize = lo;
    let mut acc: u64 = 0;
    while i < hi
        invariant
            lo <= i <= hi <= chars@.len(),
            s == chars@.subrange(lo as int, hi as int),
            forall|j: int| lo <= j < i ==> is_digit(#[trigger] chars@[j]),
            acc == digits_value(chars@.subrange(lo as int, i as int)),
        decreases hi - i,
    {
        let ch = chars[i];
        if !('0' <= ch && ch <= '9') {
            proof {
                assert(!is_digit(s[i - lo]));
            }
            return None;
        }
        let d: u64 = (ch as u32 - '0' as u32) as u64;
        proof {
            let p = chars@.subrange(lo as int, i + 1);
            assert(p.drop_last() =~= chars@.subrange(lo as int, i as int));
            assert(p.last() == ch);
        }
        let next = match acc.checked_mul(10) {
            Some(m) => m.checked_add(d),
            None => None,
        };
        match next {
            Some(v) => {
                acc = v;
            },
            None => {
                proof {
                    let rest = chars@.subrange(i + 1, hi as int);
                    let all_d = forall|j: int| 0 <= j < s.len() ==> is_digit(#[trigger] s[j]);
                    if all_d {
                        assert(s.subrange(0, i + 1 - lo) =~= chars@.subrange(lo as int, i + 1));
                        lemma_digits_value_grows(s, i + 1 - lo);
                    }
                }
                return None;
            },
        }
        i = i + 1;
    }
    assert(s =~= chars@.subrange(lo as int, i as int));
    Some(acc)
}

} // verus!
