//! Strings: their pieces between separators, their comparison, and the decimal
//! numbers that they write.

use vstd::prelude::*;
use vstd::string::StrSliceExecFns;
use vstd::string::StringExecFns;

verus! {

/// The pieces of `s` between the occurrences of `sep`, in order. A string without
/// `sep` is its own single piece, and two neighbouring separators hold an empty
/// piece between them.
pub open spec fn split(s: Seq<char>, sep: char) -> Seq<Seq<char>>
    decreases s.len(),
{
    if s.len() == 0 {
        seq![Seq::<char>::empty()]
    } else {
        let before = split(s.drop_last(), sep);
        if s.last() == sep {
            before.push(Seq::<char>::empty())
        } else {
            before.update(before.len() - 1, before.last().push(s.last()))
        }
    }
}

/// The pieces joined again, with `sep` between each two.
pub open spec fn join(pieces: Seq<Seq<char>>, sep: char) -> Seq<char>
    decreases pieces.len(),
{
    if pieces.len() == 0 {
        Seq::<char>::empty()
    } else if pieces.len() == 1 {
        pieces[0]
    } else {
        join(pieces.drop_last(), sep).push(sep) + pieces.last()
    }
}

/// Splitting yields at least one piece.
pub proof fn lemma_split_nonempty(s: Seq<char>, sep: char)
    ensures
        split(s, sep).len() >= 1,
    decreases s.len(),
{
    if s.len() > 0 {
        lemma_split_nonempty(s.drop_last(), sep);
    }
}

/// No piece of a split holds the separator.
pub proof fn lemma_split_pieces_lack_sep(s: Seq<char>, sep: char)
    ensures
        forall|i: int, j: int|
            0 <= i < split(s, sep).len() && 0 <= j < split(s, sep)[i].len() ==> split(
                s,
                sep,
            )[i][j] != sep,
    decreases s.len(),
{
    if s.len() > 0 {
        lemma_split_nonempty(s.drop_last(), sep);
        lemma_split_pieces_lack_sep(s.drop_last(), sep);
    }
}

/// Joining the pieces of a split gives the string back.
pub proof fn lemma_join_split(s: Seq<char>, sep: char)
    ensures
        join(split(s, sep), sep) == s,
    decreases s.len(),
{
    if s.len() > 0 {
        let before = split(s.drop_last(), sep);
        lemma_join_split(s.drop_last(), sep);
        if s.last() == sep {
            let all = before.push(Seq::<char>::empty());
            assert(all.drop_last() == before);
        } else if before.len() > 1 {
            let piece = before.last().push(s.last());
            let all = before.update(before.len() - 1, piece);
            assert(all.drop_last() == before.drop_last());
            assert(join(before, sep) == join(before.drop_last(), sep).push(sep)
                + before.last());
            assert(s.drop_last().push(s.last()) == s);
        }
    }
}

/// A string without the separator is its own single piece.
pub proof fn lemma_split_without_sep(s: Seq<char>, sep: char)
    requires
        !s.contains(sep),
    ensures
        split(s, sep) == seq![s],
    decreases s.len(),
{
    if s.len() == 0 {
        assert(s == Seq::<char>::empty());
    } else {
        let init = s.drop_last();
        assert(forall|i: int| 0 <= i < init.len() ==> init[i] != sep);
        lemma_split_without_sep(init, sep);
        assert(init.push(s.last()) == s);
    }
}

/// The pieces of two strings that a separator joins are the pieces of the
/// first, then the pieces of the second.
pub proof fn lemma_split_joined(a: Seq<char>, b: Seq<char>, sep: char)
    ensures
        split(a.push(sep) + b, sep) == split(a, sep) + split(b, sep),
    decreases b.len(),
{
    let whole = a.push(sep) + b;
    if b.len() == 0 {
        assert(whole.drop_last() == a);
    } else {
        let before = b.drop_last();
        lemma_split_joined(a, before, sep);
        lemma_split_nonempty(before, sep);
        assert(whole.drop_last() == a.push(sep) + before);
        let left = split(a, sep);
        let right = split(before, sep);
        if b.last() == sep {
            assert((left + right).push(Seq::<char>::empty()) == left + right.push(
                Seq::<char>::empty(),
            ));
        } else {
            assert((left + right).update(
                (left + right).len() - 1,
                right.last().push(b.last()),
            ) == left + right.update(right.len() - 1, right.last().push(b.last())));
        }
    }
}

/// Whether two strings hold the same characters.
pub fn same_text(a: &str, b: &str) -> (r: bool)
    ensures
        r == (a@ == b@),
{
    let x = String::from_str(a);
    let y = String::from_str(b);
    x == y
}

/// The characters of a string.
pub fn chars_of(s: &str) -> (v: Vec<char>)
    ensures
        v@ == s@,
{
    let mut v: Vec<char> = Vec::new();
    for c in it: s.chars()
        invariant
            v@ == it.seq().take(it.index() as int),
    {
        v.push(c);
    }
    v
}

/// Where the pieces of `s` lie: for each piece of the split, in order, the
/// place of its first character and the place after its last, counted in
/// characters.
pub fn split_bounds(s: &str, sep: char) -> (bounds: Vec<(usize, usize)>)
    ensures
        bounds@.len() == split(s@, sep).len(),
        forall|i: int|
            0 <= i < bounds@.len() ==> {
                let (from, to) = #[trigger] bounds@[i];
                from <= to <= s@.len() && s@.subrange(from as int, to as int) == split(
                    s@,
                    sep,
                )[i]
            },
{
    let chars = chars_of(s);
    let n = chars.len();
    let mut bounds: Vec<(usize, usize)> = Vec::new();
    let mut start: usize = 0;
    let mut i: usize = 0;
    assert(s@.take(0) == Seq::<char>::empty());
    assert(s@.subrange(0, 0) == Seq::<char>::empty());
    while i < n
        invariant
            chars@ == s@,
            n == chars@.len(),
            start <= i <= n,
            split(s@.take(i as int), sep).len() == bounds@.len() + 1,
            split(s@.take(i as int), sep).last() == s@.subrange(start as int, i as int),
            forall|k: int|
                0 <= k < bounds@.len() ==> {
                    let (from, to) = #[trigger] bounds@[k];
                    from <= to <= i && s@.subrange(from as int, to as int) == split(
                        s@.take(i as int),
                        sep,
                    )[k]
                },
        decreases n - i,
    {
        let c = chars[i];
        proof {
            let next = s@.take(i + 1);
            assert(next.drop_last() == s@.take(i as int));
            assert(s@.subrange(start as int, i as int).push(c) == s@.subrange(
                start as int,
                i + 1,
            ));
            assert(s@.subrange(i + 1, i + 1) == Seq::<char>::empty());
        }
        if c == sep {
            bounds.push((start, i));
            start = i + 1;
        }
        i = i + 1;
    }
    assert(s@.take(n as int) == s@);
    bounds.push((start, n));
    bounds
}

/// Splits `s` at every `sep`.
pub fn split_at_char(s: &str, sep: char) -> (pieces: Vec<String>)
    ensures
        pieces@.len() == split(s@, sep).len(),
        forall|i: int| 0 <= i < pieces@.len() ==> (#[trigger] pieces@[i])@ == split(s@, sep)[i],
{
    let bounds = split_bounds(s, sep);
    let mut pieces: Vec<String> = Vec::new();
    let mut i: usize = 0;
    while i < bounds.len()
        invariant
            i <= bounds@.len(),
            pieces@.len() == i,
            bounds@.len() == split(s@, sep).len(),
            forall|k: int|
                0 <= k < bounds@.len() ==> {
                    let (from, to) = #[trigger] bounds@[k];
                    from <= to <= s@.len() && s@.subrange(from as int, to as int) == split(
                        s@,
                        sep,
                    )[k]
                },
            forall|k: int| 0 <= k < i ==> (#[trigger] pieces@[k])@ == split(s@, sep)[k],
        decreases bounds@.len() - i,
    {
        let (from, to) = bounds[i];
        pieces.push(s.substring_char(from, to).to_owned());
        i = i + 1;
    }
    pieces
}

/// Whether `c` is one of the ten decimal digits.
pub open spec fn is_digit(c: char) -> bool {
    '0' <= c && c <= '9'
}

/// The value of a decimal digit.
pub open spec fn digit_value(c: char) -> nat {
    (c as u32 - '0' as u32) as nat
}

/// Whether `s` consists of decimal digits only.
pub open spec fn all_digits(s: Seq<char>) -> bool {
    forall|i: int| 0 <= i < s.len() ==> is_digit(#[trigger] s[i])
}

/// The number that the digits of `s` write in base ten.
pub open spec fn decimal_value(s: Seq<char>) -> nat
    decreases s.len(),
{
    if s.len() == 0 {
        0
    } else {
        decimal_value(s.drop_last()) * 10 + digit_value(s.last())
    }
}

/// `s` without a leading plus sign.
pub open spec fn unsigned_part(s: Seq<char>) -> Seq<char> {
    if s.len() > 0 && s[0] == '+' {
        s.drop_first()
    } else {
        s
    }
}

/// The number that `s` writes: an optional plus sign, then one or more decimal
/// digits whose value fits in `usize`. Any other string writes no number.
pub open spec fn parse_usize(s: Seq<char>) -> Option<usize> {
    let digits = unsigned_part(s);
    if digits.len() > 0 && all_digits(digits) && decimal_value(digits) <= usize::MAX {
        Some(decimal_value(digits) as usize)
    } else {
        None
    }
}

/// A longer run of digits writes a number that is no smaller than the number
/// its beginning writes.
pub proof fn lemma_decimal_value_grows(s: Seq<char>, k: int)
    requires
        0 <= k <= s.len(),
    ensures
        decimal_value(s.take(k)) <= decimal_value(s),
    decreases s.len(),
{
    if k == s.len() {
        assert(s.take(k) == s);
    } else {
        assert(s.drop_last().take(k) == s.take(k));
        lemma_decimal_value_grows(s.drop_last(), k);
    }
}

/// Reads a number from `s`, as `parse_usize` defines it.
pub fn read_usize(s: &str) -> (r: Option<usize>)
    ensures
        r == parse_usize(s@),
{
    let chars = chars_of(s);
    let n = chars.len();
    let first: usize = if n > 0 && chars[0] == '+' {
        1
    } else {
        0
    };
    let ghost digits = unsigned_part(s@);
    if first == n {
        return None;
    }
    let mut value: usize = 0;
    let mut i: usize = first;
    while i < n
        invariant
            chars@ == s@,
            n == chars@.len(),
            first <= i <= n,
            digits == unsigned_part(s@),
            digits == s@.subrange(first as int, n as int),
            all_digits(digits.take(i - first)),
            value == decimal_value(digits.take(i - first)),
        decreases n - i,
    {
        let c = chars[i];
        proof {
            let next = digits.take(i + 1 - first);
            assert(next.drop_last() == digits.take(i - first));
            assert(digits[i - first] == c);
        }
        if !(c >= '0' && c <= '9') {
            return None;
        }
        let d: usize = (c as u32 - '0' as u32) as usize;
        if value > (usize::MAX - d) / 10 {
            proof {
                lemma_decimal_value_grows(digits, i + 1 - first);
            }
            return None;
        }
        value = value * 10 + d;
        i = i + 1;
    }
    assert(digits.take(n - first) == digits);
    Some(value)
}

/// The character that writes a digit.
pub open spec fn digit_char(d: nat) -> char {
    if d == 0 {
        '0'
    } else if d == 1 {
        '1'
    } else if d == 2 {
        '2'
    } else if d == 3 {
        '3'
    } else if d == 4 {
        '4'
    } else if d == 5 {
        '5'
    } else if d == 6 {
        '6'
    } else if d == 7 {
        '7'
    } else if d == 8 {
        '8'
    } else {
        '9'
    }
}

/// The digits that write `n` in base ten, without leading zeros.
pub open spec fn decimal(n: nat) -> Seq<char>
    decreases n,
{
    if n < 10 {
        seq![digit_char(n)]
    } else {
        decimal(n / 10).push(digit_char(n % 10))
    }
}

/// What `decimal` writes is read back as the same number.
pub proof fn lemma_decimal_read_back(n: nat)
    ensures
        decimal(n).len() > 0,
        all_digits(decimal(n)),
        decimal_value(decimal(n)) == n,
        n <= usize::MAX ==> parse_usize(decimal(n)) == Some(n as usize),
    decreases n,
{
    if n < 10 {
        let s = seq![digit_char(n)];
        assert(decimal_value(s.drop_last()) == 0);
    } else {
        lemma_decimal_read_back(n / 10);
        let s = decimal(n / 10).push(digit_char(n % 10));
        assert(s.drop_last() == decimal(n / 10));
        assert(forall|i: int| 0 <= i < s.len() ==> is_digit(#[trigger] s[i]));
    }
    assert(decimal(n)[0] != '+');
}

/// The string that writes one digit.
fn digit_text(d: usize) -> (r: &'static str)
    requires
        d < 10,
    ensures
        r@ == seq![digit_char(d as nat)],
{
    proof {
        reveal_strlit("0");
        reveal_strlit("1");
        reveal_strlit("2");
        reveal_strlit("3");
        reveal_strlit("4");
        reveal_strlit("5");
        reveal_strlit("6");
        reveal_strlit("7");
        reveal_strlit("8");
        reveal_strlit("9");
    }
    let r = if d == 0 {
        "0"
    } else if d == 1 {
        "1"
    } else if d == 2 {
        "2"
    } else if d == 3 {
        "3"
    } else if d == 4 {
        "4"
    } else if d == 5 {
        "5"
    } else if d == 6 {
        "6"
    } else if d == 7 {
        "7"
    } else if d == 8 {
        "8"
    } else {
        "9"
    };
    r
}

/// Appends to `out` the digits that write `n` in base ten.
pub fn push_decimal(out: &mut String, n: usize)
    ensures
        final(out)@ == old(out)@ + decimal(n as nat),
    decreases n,
{
    if n < 10 {
        out.append(digit_text(n));
    } else {
        push_decimal(out, n / 10);
        out.append(digit_text(n % 10));
        assert(old(out)@ + decimal((n / 10) as nat) + seq![digit_char((n % 10) as nat)] == old(
            out,
        )@ + decimal(n as nat));
    }
}

} // verus!
