//! Plain ASCII text on the wire: fields between separators and unsigned
//! decimal numbers.

use vstd::prelude::*;

verus! {

/// The parts of `s` between the occurrences of `sep`, in order. There is always
/// at least one part; a separator at either end leaves an empty part there.
pub open spec fn split(s: Seq<u8>, sep: u8) -> Seq<Seq<u8>>
    decreases s.len(),
{
    if s.len() == 0 {
        seq![Seq::<u8>::empty()]
    } else {
        let before = split(s.drop_last(), sep);
        if s.last() == sep {
            before.push(Seq::<u8>::empty())
        } else {
            before.drop_last().push(before.last().push(s.last()))
        }
    }
}

/// The contents of a list of byte strings.
pub open spec fn views(parts: Seq<Vec<u8>>) -> Seq<Seq<u8>> {
    Seq::new(parts.len(), |i: int| parts[i]@)
}

/// An ASCII decimal digit.
pub open spec fn is_digit(b: u8) -> bool {
    48 <= b && b <= 57
}

/// Every byte is an ASCII decimal digit.
pub open spec fn all_digits(s: Seq<u8>) -> bool {
    forall|i: int| 0 <= i < s.len() ==> is_digit(#[trigger] s[i])
}

/// The number that a string of decimal digits writes, most significant first.
pub open spec fn digits_value(s: Seq<u8>) -> nat
    decreases s.len(),
{
    if s.len() == 0 {
        0
    } else {
        digits_value(s.drop_last()) * 10 + (s.last() - 48) as nat
    }
}

/// What `s` means as an unsigned decimal number of at most `limit`: one digit
/// or more, nothing but digits.
pub open spec fn number(s: Seq<u8>, limit: nat) -> Option<nat> {
    if s.len() >= 1 && all_digits(s) && digits_value(s) <= limit {
        Some(digits_value(s))
    } else {
        None
    }
}

/// A split string has at least one part.
pub proof fn lemma_split_nonempty(s: Seq<u8>, sep: u8)
    ensures
        split(s, sep).len() >= 1,
    decreases s.len(),
{
    if s.len() > 0 {
        lemma_split_nonempty(s.drop_last(), sep);
    }
}

/// No part of a split string holds the separator, and there is one part more
/// than there are separators.
pub proof fn law_split_parts(s: Seq<u8>, sep: u8)
    ensures
        split(s, sep).len() == 1 + s.filter(|b: u8| b == sep).len(),
        forall|k: int, i: int|
            0 <= k < split(s, sep).len() && 0 <= i < split(s, sep)[k].len() ==> split(
                s,
                sep,
            )[k][i] != sep,
    decreases s.len(),
{
    let is_sep = |b: u8| b == sep;
    if s.len() == 0 {
        assert(s.filter(is_sep).len() == 0) by {
            reveal(Seq::filter);
        }
    } else {
        law_split_parts(s.drop_last(), sep);
        lemma_split_nonempty(s.drop_last(), sep);
        assert(s.filter(is_sep) == if is_sep(s.last()) {
            s.drop_last().filter(is_sep).push(s.last())
        } else {
            s.drop_last().filter(is_sep)
        }) by {
            reveal(Seq::filter);
        }
    }
}

/// A string without the separator is its own single part.
pub proof fn lemma_split_without_separator(s: Seq<u8>, sep: u8)
    requires
        forall|i: int| 0 <= i < s.len() ==> s[i] != sep,
    ensures
        split(s, sep) == seq![s],
    decreases s.len(),
{
    if s.len() == 0 {
        assert(s =~= Seq::<u8>::empty());
    } else {
        lemma_split_without_separator(s.drop_last(), sep);
        assert(s.drop_last().push(s.last()) =~= s);
        assert(split(s, sep) =~= seq![s]);
    }
}

/// What follows the last separator is the last part.
pub proof fn lemma_split_at_last_separator(a: Seq<u8>, b: Seq<u8>, sep: u8)
    requires
        forall|i: int| 0 <= i < b.len() ==> b[i] != sep,
    ensures
        split(a.push(sep) + b, sep) == split(a, sep).push(b),
    decreases b.len(),
{
    let s = a.push(sep) + b;
    if b.len() == 0 {
        assert(b =~= Seq::<u8>::empty());
        assert(s.drop_last() =~= a);
        assert(s.last() == sep);
    } else {
        lemma_split_at_last_separator(a, b.drop_last(), sep);
        assert(s.drop_last() =~= a.push(sep) + b.drop_last());
        assert(b.drop_last().push(b.last()) =~= b);
        assert(split(s, sep) =~= split(a, sep).push(b));
    }
}

/// A prefix of a digit string writes a number no greater than the whole.
pub proof fn lemma_prefix_value(s: Seq<u8>, n: int)
    requires
        0 <= n <= s.len(),
    ensures
        digits_value(s.take(n)) <= digits_value(s),
    decreases s.len(),
{
    if n == s.len() {
        assert(s.take(n) =~= s);
    } else {
        lemma_prefix_value(s.drop_last(), n);
        assert(s.drop_last().take(n) =~= s.take(n));
    }
}

/// Cuts `s` at every occurrence of `sep`.
pub fn split_fields(s: &[u8], sep: u8) -> (parts: Vec<Vec<u8>>)
    ensures
        views(parts@) == split(s@, sep),
{
    let mut done: Vec<Vec<u8>> = Vec::new();
    let mut current: Vec<u8> = Vec::new();
    let mut i: usize = 0;
    while i < s.len()
        invariant
            i <= s.len(),
            views(done@).push(current@) =~= split(s@.take(i as int), sep),
        decreases s.len() - i,
    {
        let b: u8 = s[i];
        proof {
            let next = s@.take(i + 1);
            assert(next.drop_last() =~= s@.take(i as int));
            assert(next.last() == b);
            lemma_split_nonempty(next.drop_last(), sep);
        }
        if b == sep {
            done.push(current);
            current = Vec::new();
        } else {
            current.push(b);
        }
        i += 1;
    }
    proof {
        assert(s@.take(s.len() as int) =~= s@);
    }
    done.push(current);
    proof {
        assert(views(done@) =~= split(s@, sep));
    }
    done
}

/// Reads an unsigned decimal number of at most `limit`.
pub fn parse_number(s: &[u8], limit: u64) -> (r: Option<u64>)
    ensures
        match r {
            Some(v) => number(s@, limit as nat) == Some(v as nat),
            None => number(s@, limit as nat).is_none(),
        },
{
    if s.len() == 0 {
        return None;
    }
    let mut value: u128 = 0;
    let mut i: usize = 0;
    while i < s.len()
        invariant
            i <= s.len(),
            all_digits(s@.take(i as int)),
            value == digits_value(s@.take(i as int)),
            value <= limit,
        decreases s.len() - i,
    {
        let b: u8 = s[i];
        proof {
            assert(s@.take(i + 1).drop_last() =~= s@.take(i as int));
            assert(s@.take(i + 1).last() == b);
        }
        if b < 48 || b > 57 {
            assert(!is_digit(s@[i as int]));
            return None;
        }
        value = value * 10 + (b - 48) as u128;
        if value > limit as u128 {
            proof {
                lemma_prefix_value(s@, i + 1);
            }
            return None;
        }
        i += 1;
    }
    proof {
        assert(s@.take(s.len() as int) =~= s@);
    }
    Some(value as u64)
}

/// The decimal digits of `n`, most significant first, without leading zeros.
pub open spec fn decimal(n: nat) -> Seq<u8>
    decreases n,
{
    if n < 10 {
        seq![(48 + n) as u8]
    } else {
        decimal(n / 10).push((48 + n % 10) as u8)
    }
}

/// What `decimal` writes reads back as the number, and is written with digits
/// only and without a leading zero.
pub proof fn law_decimal_reads_back(n: nat)
    ensures
        decimal(n).len() >= 1,
        all_digits(decimal(n)),
        digits_value(decimal(n)) == n,
        n > 0 ==> decimal(n)[0] != 48,
        number(decimal(n), n) == Some(n),
    decreases n,
{
    if n < 10 {
        let d = decimal(n);
        assert(d.drop_last() =~= Seq::<u8>::empty());
        assert(digits_value(d.drop_last()) == 0);
        assert(digits_value(d) == digits_value(d.drop_last()) * 10 + (d.last() - 48) as nat);
    } else {
        law_decimal_reads_back(n / 10);
        let d = decimal(n);
        assert(d.drop_last() =~= decimal(n / 10));
        assert(d.last() == (48 + n % 10) as u8);
        assert(digits_value(d) == digits_value(d.drop_last()) * 10 + (d.last() - 48) as nat);
        assert(d[0] == decimal(n / 10)[0]);
    }
}

/// Writes `n` in decimal.
pub fn write_decimal(n: u64) -> (digits: Vec<u8>)
    ensures
        digits@ == decimal(n as nat),
    decreases n,
{
    if n < 10 {
        let mut digits: Vec<u8> = Vec::new();
        digits.push(48 + n as u8);
        proof {
            assert(digits@ =~= decimal(n as nat));
        }
        digits
    } else {
        let mut digits = write_decimal(n / 10);
        digits.push(48 + (n % 10) as u8);
        digits
    }
}

/// Appends `tail` to `text`.
pub fn append(text: &mut Vec<u8>, tail: &[u8])
    ensures
        final(text)@ == old(text)@ + tail@,
{
    let mut i: usize = 0;
    while i < tail.len()
        invariant
            i <= tail.len(),
            text@ =~= old(text)@ + tail@.take(i as int),
        decreases tail.len() - i,
    {
        text.push(tail[i]);
        i += 1;
    }
    proof {
        assert(tail@.take(tail.len() as int) =~= tail@);
    }
}

/// Tells whether `s` holds nothing but decimal digits.
pub fn only_digits(s: &[u8]) -> (ok: bool)
    ensures
        ok == all_digits(s@),
{
    let mut i: usize = 0;
    while i < s.len()
        invariant
            i <= s.len(),
            forall|j: int| 0 <= j < i ==> is_digit(#[trigger] s@[j]),
        decreases s.len() - i,
    {
        if s[i] < 48 || s[i] > 57 {
            assert(!is_digit(s@[i as int]));
            return false;
        }
        i += 1;
    }
    true
}

/// ASCII white space: the space, and the controls from tab to carriage return.
pub open spec fn is_blank(b: u8) -> bool {
    b == 0x20 || (0x09 <= b && b <= 0x0D)
}

/// `s` without the white space that it starts with.
pub open spec fn skip_blank(s: Seq<u8>) -> Seq<u8>
    decreases s.len(),
{
    if s.len() > 0 && is_blank(s[0]) {
        skip_blank(s.drop_first())
    } else {
        s
    }
}

/// The bytes of `s` before its first white space.
pub open spec fn word(s: Seq<u8>) -> Seq<u8>
    decreases s.len(),
{
    if s.len() > 0 && !is_blank(s[0]) {
        seq![s[0]] + word(s.drop_first())
    } else {
        Seq::<u8>::empty()
    }
}

/// The first field of a text whose fields are set apart by white space; empty
/// where there is none.
pub open spec fn first_field(s: Seq<u8>) -> Seq<u8> {
    word(skip_blank(s))
}

/// Tells whether `b` is ASCII white space.
pub fn blank(b: u8) -> (r: bool)
    ensures
        r == is_blank(b),
{
    b == 0x20 || (0x09 <= b && b <= 0x0D)
}

/// Finds the first field of a text whose fields are set apart by white space.
pub fn find_first_field(s: &[u8]) -> (field: &[u8])
    ensures
        field@ == first_field(s@),
{
    let mut i: usize = 0;
    proof {
        assert(s@.skip(0) =~= s@);
    }
    while i < s.len() && blank(s[i])
        invariant
            i <= s.len(),
            skip_blank(s@) == skip_blank(s@.skip(i as int)),
        decreases s.len() - i,
    {
        proof {
            assert(s@.skip(i as int).drop_first() =~= s@.skip(i + 1));
        }
        i += 1;
    }
    let mut j: usize = i;
    while j < s.len() && !blank(s[j])
        invariant
            i <= j <= s.len(),
            word(s@.skip(i as int)) =~= s@.subrange(i as int, j as int) + word(s@.skip(j as int)),
        decreases s.len() - j,
    {
        proof {
            assert(s@.skip(j as int).drop_first() =~= s@.skip(j + 1));
            assert(s@.subrange(i as int, j + 1) =~= s@.subrange(i as int, j as int).push(s@[j as int]));
        }
        j += 1;
    }
    proof {
        assert(skip_blank(s@) == s@.skip(i as int));
        assert(word(s@.skip(j as int)) =~= Seq::<u8>::empty());
        assert(first_field(s@) =~= s@.subrange(i as int, j as int));
    }
    vstd::slice::slice_subrange(s, i, j)
}

} // verus!
