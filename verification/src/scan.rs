use vstd::prelude::*;

verus! {

/// Unicode white space, the characters that trimming removes.
pub open spec fn is_ws(c: char) -> bool {
    let v = c as u32;
    ||| 0x9 <= v <= 0xd
    ||| v == 0x20
    ||| v == 0x85
    ||| v == 0xa0
    ||| v == 0x1680
    ||| 0x2000 <= v <= 0x200a
    ||| v == 0x2028
    ||| v == 0x2029
    ||| v == 0x202f
    ||| v == 0x205f
    ||| v == 0x3000
}

/// Whether `c` is white space.
pub fn is_ws_char(c: char) -> (r: bool)
    ensures
        r == is_ws(c),
{
    let v = c as u32;
    (0x9 <= v && v <= 0xd) || v == 0x20 || v == 0x85 || v == 0xa0 || v == 0x1680 || (0x2000 <= v
        && v <= 0x200a) || v == 0x2028 || v == 0x2029 || v == 0x202f || v == 0x205f || v == 0x3000
}

/// `s` without its leading white space.
pub open spec fn trim_start(s: Seq<char>) -> Seq<char>
    decreases s.len(),
{
    if s.len() > 0 && is_ws(s[0]) {
        trim_start(s.drop_first())
    } else {
        s
    }
}

/// `s` without its trailing white space.
pub open spec fn trim_end(s: Seq<char>) -> Seq<char>
    decreases s.len(),
{
    if s.len() > 0 && is_ws(s.last()) {
        trim_end(s.drop_last())
    } else {
        s
    }
}

/// `s` without leading and trailing white space.
pub open spec fn trim(s: Seq<char>) -> Seq<char> {
    trim_end(trim_start(s))
}

/// The bounds of the trimmed part of `chars[a..b]`.
pub fn trim_bounds(chars: &Vec<char>, a: usize, b: usize) -> (r: (usize, usize))
    requires
        a <= b <= chars@.len(),
    ensures
        a <= r.0 <= r.1 <= b,
        chars@.subrange(r.0 as int, r.1 as int) == trim(chars@.subrange(a as int, b as int)),
{
    let mut lo = a;
    while lo < b && is_ws_char(chars[lo])
        invariant
            a <= lo <= b <= chars@.len(),
            trim_start(chars@.subrange(a as int, b as int)) == trim_start(
                chars@.subrange(lo as int, b as int),
            ),
        decreases b - lo,
    {
        assert(chars@.subrange(lo as int, b as int).drop_first() =~= chars@.subrange(
            lo + 1,
            b as int,
        ));
        lo = lo + 1;
    }
    assert(trim_start(chars@.subrange(lo as int, b as int)) == chars@.subrange(lo as int, b as int));
    let mut hi = b;
    while hi > lo && is_ws_char(chars[hi - 1])
        invariant
            a <= lo <= hi <= b <= chars@.len(),
            trim_end(chars@.subrange(lo as int, b as int)) == trim_end(
                chars@.subrange(lo as int, hi as int),
            ),
        decreases hi - lo,
    {
        assert(chars@.subrange(lo as int, hi as int).drop_last() =~= chars@.subrange(
            lo as int,
            hi - 1,
        ));
        hi = hi - 1;
    }
    assert(trim_end(chars@.subrange(lo as int, hi as int)) == chars@.subrange(lo as int, hi as int));
    (lo, hi)
}

/// `i` is the first position of `c` in `s`.
pub open spec fn first_at(s: Seq<char>, c: char, i: int) -> bool {
    &&& 0 <= i < s.len()
    &&& s[i] == c
    &&& forall|k: int| 0 <= k < i ==> s[k] != c
}

/// Whether `c` occurs in `s`.
pub open spec fn contains_char(s: Seq<char>, c: char) -> bool {
    exists|i: int| #[trigger] first_at(s, c, i)
}

/// The first position of `c` in `s` (meaningful when `contains_char(s, c)`).
pub open spec fn first_index(s: Seq<char>, c: char) -> int {
    choose|i: int| #[trigger] first_at(s, c, i)
}

/// The first position of `c` within `chars[a..b]`.
pub fn find_char(chars: &Vec<char>, a: usize, b: usize, c: char) -> (r: Option<usize>)
    requires
        a <= b <= chars@.len(),
    ensures
        match r {
            Some(j) => a <= j < b && contains_char(chars@.subrange(a as int, b as int), c)
                && first_index(chars@.subrange(a as int, b as int), c) == j - a,
            None => !contains_char(chars@.subrange(a as int, b as int), c),
        },
{
    let ghost s = chars@.subrange(a as int, b as int);
    let mut j = a;
    while j < b
        invariant
            a <= j <= b <= chars@.len(),
            s == chars@.subrange(a as int, b as int),
            forall|k: int| 0 <= k < j - a ==> s[k] != c,
        decreases b - j,
    {
        if chars[j] == c {
            proof {
                let i = j - a;
                assert(first_at(s, c, i));
                let f = first_index(s, c);
                assert(first_at(s, c, f));
                if f < i {
                    assert(s[f] != c);
                } else if f > i {
                    assert(s[i] != c);
                }
            }
            return Some(j);
        }
        j = j + 1;
    }
    proof {
        if contains_char(s, c) {
            let f = first_index(s, c);
            assert(first_at(s, c, f));
            assert(s[f] != c);
        }
    }
    None
}

/// `l` without one trailing carriage return.
pub open spec fn strip_cr(l: Seq<char>) -> Seq<char> {
    if l.len() > 0 && l.last() == '\r' {
        l.drop_last()
    } else {
        l
    }
}

/// The lines of `s`: split at each line feed, a carriage return before a line feed dropped,
/// and no empty line after a final line feed.
pub open spec fn lines(s: Seq<char>) -> Seq<Seq<char>>
    decreases s.len(),
{
    if s.len() == 0 {
        Seq::empty()
    } else if contains_char(s, '\n') {
        let i = first_index(s, '\n');
        seq![strip_cr(s.subrange(0, i))] + lines(s.subrange(i + 1, s.len() as int))
    } else {
        seq![s]
    }
}

/// Whether `c` is an ASCII decimal digit.
pub open spec fn is_digit(c: char) -> bool {
    48 <= (c as u32) <= 57
}

/// The value of the digit `c`.
pub open spec fn digit_value(c: char) -> int {
    (c as u32) - 48
}

/// Every character of `d` is a digit.
pub open spec fn all_digits(d: Seq<char>) -> bool {
    forall|i: int| 0 <= i < d.len() ==> is_digit(#[trigger] d[i])
}

/// The value of the decimal digits `d`.
pub open spec fn digits_value(d: Seq<char>) -> int
    decreases d.len(),
{
    if d.len() == 0 {
        0
    } else {
        digits_value(d.drop_last()) * 10 + digit_value(d.last())
    }
}

/// `s` without one leading plus sign.
pub open spec fn unsigned_digits(s: Seq<char>) -> Seq<char> {
    if s.len() > 0 && s[0] == '+' {
        s.drop_first()
    } else {
        s
    }
}

/// The unsigned 64-bit integer written in `s`: an optional plus sign and one or more decimal
/// digits whose value fits.
pub open spec fn parse_u64_spec(s: Seq<char>) -> Option<u64> {
    let d = unsigned_digits(s);
    if d.len() > 0 && all_digits(d) && digits_value(d) <= u64::MAX {
        Some(digits_value(d) as u64)
    } else {
        None
    }
}

/// The value of digits only grows as digits are appended.
pub proof fn lemma_digits_value_grows(d: Seq<char>, i: int)
    requires
        all_digits(d),
        0 <= i <= d.len(),
    ensures
        digits_value(d.subrange(0, i)) <= digits_value(d),
        0 <= digits_value(d.subrange(0, i)),
    decreases d.len(),
{
    if i == d.len() {
        assert(d.subrange(0, i) =~= d);
        lemma_digits_value_nonneg(d);
    } else {
        let p = d.drop_last();
        assert(all_digits(p));
        assert(p.subrange(0, i) =~= d.subrange(0, i));
        lemma_digits_value_grows(p, i);
        lemma_digits_value_nonneg(p);
        assert(is_digit(d[d.len() - 1]));
    }
}

/// Digits have a non-negative value.
pub proof fn lemma_digits_value_nonneg(d: Seq<char>)
    requires
        all_digits(d),
    ensures
        0 <= digits_value(d),
    decreases d.len(),
{
    if d.len() > 0 {
        let p = d.drop_last();
        assert(all_digits(p));
        lemma_digits_value_nonneg(p);
        assert(is_digit(d[d.len() - 1]));
    }
}

/// The unsigned integer written in `chars[a..b]`.
pub fn parse_u64_range(chars: &Vec<char>, a: usize, b: usize) -> (r: Option<u64>)
    requires
        a <= b <= chars@.len(),
    ensures
        r == parse_u64_spec(chars@.subrange(a as int, b as int)),
{
    let ghost s = chars@.subrange(a as int, b as int);
    let mut start = a;
    if start < b && chars[start] == '+' {
        start = start + 1;
    }
    let ghost d = chars@.subrange(start as int, b as int);
    assert(d =~= unsigned_digits(s));
    if start == b {
        return None;
    }
    let mut v: u64 = 0;
    let mut i = start;
    while i < b
        invariant
            start <= i <= b <= chars@.len(),
            d == chars@.subrange(start as int, b as int),
            d == unsigned_digits(s),
            s == chars@.subrange(a as int, b as int),
            all_digits(d.subrange(0, i - start)),
            v as int == digits_value(d.subrange(0, i - start)),
        decreases b - i,
    {
        let c = chars[i];
        let cv = c as u32;
        assert(d[i - start] == c);
        if cv < 48 || cv > 57 {
            assert(!is_digit(d[i - start]));
            assert(!all_digits(d));
            return None;
        }
        let dv = (cv - 48) as u64;
        let ghost x = d.subrange(0, i + 1 - start);
        assert(x.drop_last() =~= d.subrange(0, i - start));
        assert(x.last() == c);
        assert(digits_value(x) == v * 10 + dv);
        assert(all_digits(x)) by {
            assert forall|k: int| 0 <= k < x.len() implies is_digit(#[trigger] x[k]) by {
                if k < x.len() - 1 {
                    assert(x[k] == d.subrange(0, i - start)[k]);
                }
            }
        }
        let m = v.checked_mul(10);
        let next = match m {
            Some(m) => m.checked_add(dv),
            None => None,
        };
        match next {
            Some(nv) => {
                v = nv;
            },
            None => {
                proof {
                    assert(v * 10 + dv > u64::MAX);
                    if all_digits(d) {
                        lemma_digits_value_grows(d, i + 1 - start);
                        assert(digits_value(d) > u64::MAX);
                    }
                    assert(parse_u64_spec(s) is None);
                }
                return None;
            },
        }
        i = i + 1;
    }
    assert(d.subrange(0, b - start) =~= d);
    Some(v)
}

/// Whether `chars[a..b]` spells `lit`.
pub fn range_equals(chars: &Vec<char>, a: usize, b: usize, lit: &str) -> (r: bool)
    requires
        a <= b <= chars@.len(),
    ensures
        r == (chars@.subrange(a as int, b as int) == lit@),
{
    let n = lit.unicode_len();
    if b - a != n {
        return false;
    }
    let mut i: usize = 0;
    while i < n
        invariant
            a <= b <= chars@.len(),
            b - a == n,
            n == lit@.len(),
            0 <= i <= n,
            forall|k: int| 0 <= k < i ==> chars@[a + k] == lit@[k],
        decreases n - i,
    {
        if chars[a + i] != lit.get_char(i) {
            assert(chars@.subrange(a as int, b as int)[i as int] != lit@[i as int]);
            return false;
        }
        i = i + 1;
    }
    assert(chars@.subrange(a as int, b as int) =~= lit@);
    true
}

/// The characters of `s`.
pub fn chars_of(s: &str) -> (r: Vec<char>)
    ensures
        r@ == s@,
{
    let n = s.unicode_len();
    let mut out: Vec<char> = Vec::new();
    let mut i: usize = 0;
    while i < n
        invariant
            n == s@.len(),
            0 <= i <= n,
            out@ == s@.subrange(0, i as int),
        decreases n - i,
    {
        out.push(s.get_char(i));
        assert(out@ =~= s@.subrange(0, i + 1));
        i = i + 1;
    }
    assert(out@ =~= s@);
    out
}

} // verus!
