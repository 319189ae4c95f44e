//! Small verified helpers over strings and characters.

use vstd::prelude::*;
use vstd::std_specs::iter::IteratorSpec;

verus! {

/// The characters of a string, as a vector.
pub fn chars_of(s: &str) -> (v: Vec<char>)
    ensures
        v@ == s@,
{
    let mut it = s.chars();
    let mut v: Vec<char> = Vec::new();
    loop
        invariant_except_break
            it.obeys_prophetic_iter_laws(),
            it.decrease() is Some,
            v@ + it.remaining() == s@,
        ensures
            v@ == s@,
        decreases it.decrease()->0,
    {
        match it.next() {
            Some(c) => { v.push(c) },
            None => {
                proof {
                    assert(v@ =~= s@);
                }
                break ;
            },
        }
    }
    v
}

/// Element-wise equality of two character vectors.
pub fn chars_eq(a: &Vec<char>, b: &Vec<char>) -> (r: bool)
    ensures
        r == (a@ == b@),
{
    if a.len() != b.len() {
        assert(a@ != b@);
        return false;
    }
    let mut i: usize = 0;
    while i < a.len()
        invariant
            i <= a.len(),
            a@.len() == b@.len(),
            forall|j: int| 0 <= j < i ==> a@[j] == b@[j],
        decreases a.len() - i,
    {
        if a[i] != b[i] {
            return false;
        }
        i = i + 1;
    }
    assert(a@ =~= b@);
    true
}

/// Does this character vector spell out the literal `lit`?
pub fn chars_eq_str(v: &Vec<char>, lit: &str) -> (r: bool)
    ensures
        r == (v@ == lit@),
{
    let w = chars_of(lit);
    chars_eq(v, &w)
}

/// Index of the first occurrence of `c`, if any.
pub open spec fn spec_find_char(s: Seq<char>, c: char) -> Option<int>
    decreases s.len(),
{
    if s.len() == 0 {
        None
    } else if s[0] == c {
        Some(0int)
    } else {
        match spec_find_char(s.drop_first(), c) {
            None => None,
            Some(i) => Some(i + 1),
        }
    }
}

/// The first occurrence really is an occurrence, nothing before it is one,
/// and absence means no position holds `c`.
pub proof fn lemma_find_char(s: Seq<char>, c: char)
    ensures
        spec_find_char(s, c) matches Some(i) ==> 0 <= i < s.len() && s[i] == c && forall|j: int|
            0 <= j < i ==> s[j] != c,
        spec_find_char(s, c) is None ==> forall|j: int| 0 <= j < s.len() ==> s[j] != c,
    decreases s.len(),
{
    if s.len() > 0 && s[0] != c {
        let rest = s.drop_first();
        lemma_find_char(rest, c);
        assert(forall|j: int| 0 <= j < rest.len() ==> rest[j] == s[j + 1]);
        match spec_find_char(rest, c) {
            None => {
                assert forall|j: int| 0 <= j < s.len() implies s[j] != c by {
                    if j > 0 {
                        assert(rest[j - 1] != c);
                    }
                }
            },
            Some(i) => {
                assert(s[i + 1] == rest[i]);
                assert forall|j: int| 0 <= j < i + 1 implies s[j] != c by {
                    if j > 0 {
                        assert(rest[j - 1] != c);
                    }
                }
            },
        }
    }
}

pub fn find_char(v: &Vec<char>, c: char) -> (r: Option<usize>)
    ensures
        (r matches Some(i) ==> spec_find_char(v@, c) == Some(i as int)),
        (r is None ==> spec_find_char(v@, c) is None),
{
    proof {
        lemma_find_char(v@, c);
    }
    let mut i: usize = 0;
    while i < v.len()
        invariant
            i <= v.len(),
            forall|j: int| 0 <= j < i ==> v@[j] != c,
        decreases v.len() - i,
    {
        if v[i] == c {
            proof {
                lemma_find_char_converse(v@, c, i as int);
            }
            return Some(i);
        }
        i = i + 1;
    }
    proof {
        lemma_find_char_none(v@, c);
    }
    None
}

/// If `i` is an occurrence of `c` with none before it, the first occurrence
/// is `i`.
pub proof fn lemma_find_char_converse(s: Seq<char>, c: char, i: int)
    requires
        0 <= i < s.len(),
        s[i] == c,
        forall|j: int| 0 <= j < i ==> s[j] != c,
    ensures
        spec_find_char(s, c) == Some(i),
    decreases s.len(),
{
    if i > 0 {
        let rest = s.drop_first();
        assert(forall|j: int| 0 <= j < rest.len() ==> rest[j] == s[j + 1]);
        assert(rest[i - 1] == c);
        assert(forall|j: int| 0 <= j < i - 1 ==> rest[j] != c);
        lemma_find_char_converse(rest, c, i - 1);
    }
}

/// If no position holds `c`, there is no first occurrence.
pub proof fn lemma_find_char_none(s: Seq<char>, c: char)
    requires
        forall|j: int| 0 <= j < s.len() ==> s[j] != c,
    ensures
        spec_find_char(s, c) is None,
    decreases s.len(),
{
    if s.len() > 0 {
        let rest = s.drop_first();
        assert(forall|j: int| 0 <= j < rest.len() ==> rest[j] == s[j + 1]);
        assert(forall|j: int| 0 <= j < rest.len() ==> rest[j] != c);
        lemma_find_char_none(rest, c);
    }
}

pub open spec fn spec_is_digit(c: char) -> bool {
    48 <= c as u32 <= 57
}

pub open spec fn spec_digit_value(c: char) -> int {
    c as u32 - 48
}

pub open spec fn spec_all_digits(s: Seq<char>) -> bool {
    forall|i: int| 0 <= i < s.len() ==> spec_is_digit(#[trigger] s[i])
}

/// The number spelled by a string of decimal digits.
pub open spec fn spec_digits_value(s: Seq<char>) -> int
    decreases s.len(),
{
    if s.len() == 0 {
        0
    } else {
        spec_digits_value(s.drop_last()) * 10 + spec_digit_value(s.last())
    }
}

/// Ten to the `k`-th.
pub open spec fn ten_pow(k: nat) -> int
    decreases k,
{
    if k == 0 {
        1
    } else {
        10 * ten_pow((k - 1) as nat)
    }
}

pub proof fn lemma_ten_pow_pos(k: nat)
    ensures
        1 <= ten_pow(k),
    decreases k,
{
    if k > 0 {
        lemma_ten_pow_pos((k - 1) as nat);
    }
}

pub proof fn lemma_ten_pow_mono(a: nat, b: nat)
    requires
        a <= b,
    ensures
        ten_pow(a) <= ten_pow(b),
    decreases b,
{
    lemma_ten_pow_pos(a);
    if a < b {
        lemma_ten_pow_mono(a, (b - 1) as nat);
    }
}

/// A digit string is worth less than one followed by as many zeros.
pub proof fn lemma_digits_value_small(s: Seq<char>)
    requires
        spec_all_digits(s),
    ensures
        0 <= spec_digits_value(s) < ten_pow(s.len()),
    decreases s.len(),
{
    if s.len() > 0 {
        assert(spec_all_digits(s.drop_last()));
        lemma_digits_value_small(s.drop_last());
        assert(spec_is_digit(s.last()));
    }
}

pub proof fn lemma_digits_value_bounds(s: Seq<char>)
    requires
        spec_all_digits(s),
    ensures
        0 <= spec_digits_value(s),
        s.len() <= 9 ==> spec_digits_value(s) < 1_000_000_000,
{
    lemma_digits_value_small(s);
    if s.len() <= 9 {
        lemma_ten_pow_mono(s.len(), 9);
        assert(ten_pow(9) == 1_000_000_000) by {
            reveal_with_fuel(ten_pow, 11);
        }
    }
}

/// Ten to the `k`-th, for small `k`.
pub fn pow10(k: usize) -> (r: u64)
    requires
        k <= 6,
    ensures
        r == ten_pow(k as nat),
        1 <= r <= 1_000_000,
{
    assert(ten_pow(6) == 1_000_000) by {
        reveal_with_fuel(ten_pow, 8);
    }
    let mut r: u64 = 1;
    let mut i: usize = 0;
    while i < k
        invariant
            i <= k,
            k <= 6,
            r == ten_pow(i as nat),
            1 <= r <= 1_000_000,
        decreases k - i,
    {
        proof {
            lemma_ten_pow_pos(i as nat);
            lemma_ten_pow_mono((i + 1) as nat, 6);
            assert(ten_pow(6) == 1_000_000) by {
                reveal_with_fuel(ten_pow, 8);
            }
            assert(ten_pow((i + 1) as nat) == 10 * ten_pow(i as nat));
        }
        r = r * 10;
        i = i + 1;
    }
    r
}

/// Parse a vector slice of decimal digits, left to right.
pub fn digits_value(v: &Vec<char>, from: usize, to: usize) -> (r: u64)
    requires
        from <= to <= v@.len(),
        to - from <= 9,
        spec_all_digits(v@.subrange(from as int, to as int)),
    ensures
        r == spec_digits_value(v@.subrange(from as int, to as int)),
        r < 1_000_000_000,
{
    proof {
        lemma_digits_value_bounds(v@.subrange(from as int, to as int));
    }
    let mut acc: u64 = 0;
    let mut i: usize = from;
    while i < to
        invariant
            from <= i <= to <= v@.len(),
            to - from <= 9,
            spec_all_digits(v@.subrange(from as int, to as int)),
            acc == spec_digits_value(v@.subrange(from as int, i as int)),
            acc < 1_000_000_000,
        decreases to - i,
    {
        proof {
            let whole = v@.subrange(from as int, to as int);
            let cur = v@.subrange(from as int, i as int);
            let next = v@.subrange(from as int, i + 1);
            assert(next.drop_last() =~= cur);
            assert(next.last() == whole[i - from]);
            assert(spec_is_digit(whole[i - from]));
            lemma_digits_value_bounds(next);
            assert(spec_all_digits(next)) by {
                assert(forall|j: int| 0 <= j < next.len() ==> next[j] == whole[j]);
            }
        }
        let c: char = v[i];
        let d: u64 = (c as u32 as u64) - ('0' as u32 as u64);
        acc = acc * 10 + d;
        i = i + 1;
    }
    acc
}

/// Does the vector contain `c`?
pub fn contains_char(v: &Vec<char>, c: char) -> (r: bool)
    ensures
        r == v@.contains(c),
{
    let mut i: usize = 0;
    while i < v.len()
        invariant
            i <= v.len(),
            forall|j: int| 0 <= j < i ==> v@[j] != c,
        decreases v.len() - i,
    {
        if v[i] == c {
            assert(v@.contains(c));
            return true;
        }
        i = i + 1;
    }
    assert(!v@.contains(c));
    false
}

/// Are the characters of `v` in `[from, to)` all decimal digits?
pub fn check_all_digits(v: &Vec<char>, from: usize, to: usize) -> (r: bool)
    requires
        from <= to <= v@.len(),
    ensures
        r == spec_all_digits(v@.subrange(from as int, to as int)),
{
    let ghost range = v@.subrange(from as int, to as int);
    let mut i: usize = from;
    while i < to
        invariant
            from <= i <= to <= v@.len(),
            range == v@.subrange(from as int, to as int),
            forall|j: int| 0 <= j < i - from ==> spec_is_digit(#[trigger] range[j]),
        decreases to - i,
    {
        let c: char = v[i];
        let u: u32 = c as u32;
        if u < 48 || u > 57 {
            assert(range[i - from] == v@[i as int]);
            assert(!spec_is_digit(range[i - from]));
            return false;
        }
        assert(range[i - from] == v@[i as int]);
        assert(spec_is_digit(range[i - from]));
        i = i + 1;
    }
    true
}

/// The characters of `v` in `[from, to)`, as a fresh vector.
pub fn copy_range(v: &Vec<char>, from: usize, to: usize) -> (r: Vec<char>)
    requires
        from <= to <= v@.len(),
    ensures
        r@ == v@.subrange(from as int, to as int),
{
    let mut r: Vec<char> = Vec::new();
    let mut i: usize = from;
    while i < to
        invariant
            from <= i <= to <= v@.len(),
            r@ == v@.subrange(from as int, i as int),
        decreases to - i,
    {
        r.push(v[i]);
        assert(r@ =~= v@.subrange(from as int, i + 1));
        i = i + 1;
    }
    r
}

} // verus!
