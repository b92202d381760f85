//! Byte-level text helpers: separators, decimal numbers, suffixes.

use vstd::prelude::*;

verus! {

/// An ASCII decimal digit.
pub open spec fn is_digit(b: u8) -> bool {
    48 <= b <= 57
}

/// Every byte of `s` is an ASCII decimal digit.
pub open spec fn all_digits(s: Seq<u8>) -> bool {
    forall|i: int| 0 <= i < s.len() ==> is_digit(#[trigger] s[i])
}

/// The number that a run of ASCII digits denotes in base ten.
pub open spec fn decimal_value(s: Seq<u8>) -> nat
    decreases s.len(),
{
    if s.len() == 0 {
        0
    } else {
        decimal_value(s.drop_last()) * 10 + (s.last() - 48) as nat
    }
}

/// The signed 32-bit integer that `s` denotes: an optional `+` or `-`, then at
/// least one digit, with the value in range. Anything else denotes nothing.
pub open spec fn spec_parse_i32(s: Seq<u8>) -> Option<i32> {
    let signed = s.len() > 0 && (s[0] == 43 || s[0] == 45);
    let negative = s.len() > 0 && s[0] == 45;
    let digits = if signed { s.subrange(1, s.len() as int) } else { s };
    let magnitude = decimal_value(digits) as int;
    let value = if negative { -magnitude } else { magnitude };
    if digits.len() == 0 || !all_digits(digits) {
        None
    } else if i32::MIN <= value <= i32::MAX {
        Some(value as i32)
    } else {
        None
    }
}

/// Index of the first `sep` in `s` at or after `from`, or `s.len()` if there is none.
pub open spec fn find_sep(s: Seq<u8>, sep: u8, from: int) -> int
    decreases s.len() - from,
{
    if from >= s.len() {
        s.len() as int
    } else if s[from] == sep {
        from
    } else {
        find_sep(s, sep, from + 1)
    }
}

/// Start of the `n`-th piece of `s` split at every `sep`, counting from zero;
/// a value beyond `s.len()` where `s` has fewer pieces.
pub open spec fn piece_start(s: Seq<u8>, sep: u8, n: nat) -> int
    decreases n,
{
    if n == 0 {
        0
    } else {
        let p = piece_start(s, sep, (n - 1) as nat);
        if p > s.len() {
            p
        } else {
            find_sep(s, sep, p) + 1
        }
    }
}

/// The `n`-th piece of `s` split at every `sep`, if `s` has that many pieces.
pub open spec fn nth_piece(s: Seq<u8>, sep: u8, n: nat) -> Option<Seq<u8>> {
    let p = piece_start(s, sep, n);
    if 0 <= p <= s.len() {
        Some(s.subrange(p, find_sep(s, sep, p)))
    } else {
        None
    }
}

/// A decimal number: digits, optionally followed by a point and more digits.
pub open spec fn is_decimal(s: Seq<u8>) -> bool {
    let dot = find_sep(s, 46, 0);
    if dot == s.len() {
        s.len() > 0 && all_digits(s)
    } else {
        &&& 0 < dot
        &&& dot + 1 < s.len()
        &&& all_digits(s.subrange(0, dot))
        &&& all_digits(s.subrange(dot + 1, s.len() as int))
    }
}

/// `s` ends with `suffix`.
pub open spec fn has_suffix<T>(s: Seq<T>, suffix: Seq<T>) -> bool {
    suffix.len() <= s.len() && s.subrange(s.len() - suffix.len(), s.len() as int) == suffix
}

/// The first `sep` at or after `from` is at `k` where no byte before `k` is
/// `sep` and either `k` is the end or the byte at `k` is `sep`.
pub proof fn lemma_find_sep_is(s: Seq<u8>, sep: u8, from: int, k: int)
    requires
        0 <= from <= k <= s.len(),
        forall|j: int| from <= j < k ==> s[j] != sep,
        k == s.len() || s[k] == sep,
    ensures
        find_sep(s, sep, from) == k,
    decreases k - from,
{
    if from < k {
        lemma_find_sep_is(s, sep, from + 1, k);
    }
}

/// A prefix of a digit run never denotes more than the whole run.
pub proof fn lemma_decimal_prefix(s: Seq<u8>, i: int)
    requires
        0 <= i <= s.len(),
    ensures
        decimal_value(s.subrange(0, i)) <= decimal_value(s),
    decreases s.len() - i,
{
    if i == s.len() {
        assert(s.subrange(0, i) == s);
    } else {
        lemma_decimal_prefix(s.drop_last(), i);
        assert(s.drop_last().subrange(0, i) == s.subrange(0, i));
    }
}

/// Finds where the piece that starts at `from` ends.
pub fn piece_end(s: &[u8], sep: u8, from: usize) -> (end: usize)
    requires
        from <= s@.len(),
    ensures
        end == find_sep(s@, sep, from as int),
        from <= end <= s@.len(),
{
    let mut i: usize = from;
    while i < s.len() && s[i] != sep
        invariant
            from <= i <= s@.len(),
            find_sep(s@, sep, from as int) == find_sep(s@, sep, i as int),
        decreases s@.len() - i,
    {
        i += 1;
    }
    i
}

/// Tells whether the bytes of `s` in `from..to` are all digits.
pub fn digits_in(s: &[u8], from: usize, to: usize) -> (r: bool)
    requires
        from <= to <= s@.len(),
    ensures
        r == all_digits(s@.subrange(from as int, to as int)),
{
    let ghost part = s@.subrange(from as int, to as int);
    let mut i: usize = from;
    while i < to
        invariant
            from <= i <= to <= s@.len(),
            part == s@.subrange(from as int, to as int),
            forall|j: int| 0 <= j < i - from ==> is_digit(#[trigger] part[j]),
        decreases to - i,
    {
        if s[i] < 48 || s[i] > 57 {
            assert(!is_digit(part[i - from]));
            return false;
        }
        i += 1;
    }
    true
}

/// Tells whether the bytes of `s` in `from..to` form a decimal number.
pub fn decimal_in(s: &[u8], from: usize, to: usize) -> (r: bool)
    requires
        from <= to <= s@.len(),
    ensures
        r == is_decimal(s@.subrange(from as int, to as int)),
{
    let ghost part = s@.subrange(from as int, to as int);
    let mut dot: usize = from;
    while dot < to && s[dot] != 46
        invariant
            from <= dot <= to <= s@.len(),
            part == s@.subrange(from as int, to as int),
            find_sep(part, 46, 0) == find_sep(part, 46, dot - from),
        decreases to - dot,
    {
        dot += 1;
    }
    assert(find_sep(part, 46, 0) == dot - from);
    if dot == to {
        from < to && digits_in(s, from, to)
    } else {
        assert(part.subrange(0, dot - from) == s@.subrange(from as int, dot as int));
        assert(part.subrange(dot - from + 1, part.len() as int) == s@.subrange(
            dot + 1,
            to as int,
        ));
        from < dot && dot + 1 < to && digits_in(s, from, dot) && digits_in(s, dot + 1, to)
    }
}

/// Reads the bytes of `s` in `from..to` as a signed 32-bit decimal integer.
pub fn parse_i32_in(s: &[u8], from: usize, to: usize) -> (r: Option<i32>)
    requires
        from <= to <= s@.len(),
    ensures
        r == spec_parse_i32(s@.subrange(from as int, to as int)),
{
    let ghost part = s@.subrange(from as int, to as int);
    if from == to {
        return None;
    }
    let negative = s[from] == 45;
    let start: usize = if s[from] == 43 || s[from] == 45 { from + 1 } else { from };
    let ghost digits = s@.subrange(start as int, to as int);
    assert(digits == if part.len() > 0 && (part[0] == 43 || part[0] == 45) {
        part.subrange(1, part.len() as int)
    } else {
        part
    });
    if start == to {
        return None;
    }
    let mut acc: i64 = 0;
    let mut i: usize = start;
    while i < to
        invariant
            start <= i <= to <= s@.len(),
            digits == s@.subrange(start as int, to as int),
            part == s@.subrange(from as int, to as int),
            digits == if part.len() > 0 && (part[0] == 43 || part[0] == 45) {
                part.subrange(1, part.len() as int)
            } else {
                part
            },
            negative == (part.len() > 0 && part[0] == 45),
            all_digits(digits.subrange(0, i - start)),
            acc == decimal_value(digits.subrange(0, i - start)),
            0 <= acc <= 2147483648,
        decreases to - i,
    {
        let b = s[i];
        if b < 48 || b > 57 {
            assert(!is_digit(digits[i - start]));
            return None;
        }
        let next: i64 = acc * 10 + (b - 48) as i64;
        proof {
            let upto = digits.subrange(0, i - start + 1);
            assert(upto.drop_last() == digits.subrange(0, i - start));
            assert(upto.last() == b);
            assert(next == decimal_value(upto));
            assert forall|j: int| 0 <= j < upto.len() implies is_digit(#[trigger] upto[j]) by {
                if j < i - start {
                    assert(upto[j] == digits.subrange(0, i - start)[j]);
                }
            }
            if next > 2147483648 {
                lemma_decimal_prefix(digits, i - start + 1);
            }
        }
        if next > 2147483648 {
            return None;
        }
        acc = next;
        i += 1;
    }
    assert(digits.subrange(0, i - start) == digits);
    if negative {
        Some((0 - acc) as i32)
    } else if acc <= 2147483647 {
        Some(acc as i32)
    } else {
        None
    }
}

/// Copies the bytes of `s` in `from..to`.
pub fn copy_range(s: &[u8], from: usize, to: usize) -> (r: Vec<u8>)
    requires
        from <= to <= s@.len(),
    ensures
        r@ == s@.subrange(from as int, to as int),
{
    let mut out: Vec<u8> = Vec::new();
    let mut i: usize = from;
    while i < to
        invariant
            from <= i <= to <= s@.len(),
            out@ == s@.subrange(from as int, i as int),
        decreases to - i,
    {
        out.push(s[i]);
        assert(out@ == s@.subrange(from as int, i + 1));
        i += 1;
    }
    out
}

/// Tells whether `s` ends with `suffix`.
pub fn ends_with(s: &[u8], suffix: &[u8]) -> (r: bool)
    ensures
        r == has_suffix(s@, suffix@),
{
    if suffix.len() > s.len() {
        return false;
    }
    let base: usize = s.len() - suffix.len();
    let ghost tail = s@.subrange(base as int, s@.len() as int);
    let mut i: usize = 0;
    while i < suffix.len()
        invariant
            base + suffix@.len() == s@.len(),
            s@.len() <= usize::MAX,
            tail == s@.subrange(base as int, s@.len() as int),
            0 <= i <= suffix@.len(),
            forall|j: int| 0 <= j < i ==> tail[j] == suffix@[j],
        decreases suffix@.len() - i,
    {
        if s[base + i] != suffix[i] {
            assert(tail[i as int] != suffix@[i as int]);
            return false;
        }
        i += 1;
    }
    assert(tail =~= suffix@);
    true
}

} // verus!
