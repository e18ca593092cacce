//! Decimal numbers with six places, held as whole numbers of millionths.

use vstd::prelude::*;
use crate::text::{
    all_digits, decimal, digit_char, digit_value, digits_value, is_digit, lemma_decimal_is_read,
    lemma_digit_char, lemma_split_last_piece, lemma_split_one_piece, push_decimal, split, split_at_char,
};

verus! {

/// The largest whole part that a number can have.
pub const MAX_WHOLE: u64 = 1_000_000_000;

/// The digit at place `i` of a fraction, or 0 where the fraction has no such place.
pub open spec fn place(frac: Seq<char>, i: int) -> nat {
    if 0 <= i < frac.len() {
        digit_value(frac[i])
    } else {
        0
    }
}

/// The millionths that the first six places of a fraction write.
pub open spec fn millionths(frac: Seq<char>) -> nat {
    place(frac, 0) * 100_000 + place(frac, 1) * 10_000 + place(frac, 2) * 1_000 + place(frac, 3)
        * 100 + place(frac, 4) * 10 + place(frac, 5)
}

/// The number that `s` writes, in millionths: an optional sign, one or more digits and, after
/// a point, any number of further digits, of which the first six count. `None` for any other
/// text and for a whole part above a thousand million.
pub open spec fn fixed_point(s: Seq<char>) -> Option<int> {
    let signed = s.len() > 0 && (s[0] == '-' || s[0] == '+');
    let body = if signed {
        s.skip(1)
    } else {
        s
    };
    let parts = split(body, '.');
    let frac = if parts.len() == 2 {
        parts[1]
    } else {
        Seq::empty()
    };
    if parts.len() <= 2 && parts[0].len() > 0 && all_digits(parts[0]) && all_digits(frac)
        && digits_value(parts[0]) <= MAX_WHOLE {
        let magnitude = digits_value(parts[0]) * 1_000_000 + millionths(frac);
        Some(
            if s[0] == '-' {
                -magnitude
            } else {
                magnitude as int
            },
        )
    } else {
        None
    }
}

fn only_digits(v: &Vec<char>) -> (out: bool)
    ensures
        out == all_digits(v@),
{
    let mut i: usize = 0;
    while i < v.len()
        invariant
            i <= v.len(),
            forall|j: int| 0 <= j < i ==> is_digit(#[trigger] v@[j]),
        decreases v.len() - i,
    {
        if !('0' <= v[i] && v[i] <= '9') {
            return false;
        }
        i += 1;
    }
    true
}

/// The number that the digits of `v` write, where it does not exceed `max`.
fn whole_value(v: &Vec<char>, max: u64) -> (out: Option<u64>)
    requires
        all_digits(v@),
    ensures
        out matches Some(n) ==> n as nat == digits_value(v@) && n <= max,
        out is None ==> digits_value(v@) > max,
{
    let mut acc: u64 = 0;
    let mut i: usize = 0;
    while i < v.len()
        invariant
            i <= v.len(),
            all_digits(v@),
            acc as nat == digits_value(v@.take(i as int)),
            acc <= max,
        decreases v.len() - i,
    {
        let c = v[i];
        proof {
            assert(v@.take(i + 1).drop_last() =~= v@.take(i as int));
            assert(v@.take(i + 1).last() == c);
            assert(is_digit(v@[i as int]));
        }
        let d: u64 = (c as u8 - 48u8) as u64;
        assert(d as nat == digit_value(c));
        if d > max || acc > (max - d) / 10 {
            proof {
                crate::text::lemma_digits_value_prefix(v@, i + 1);
            }
            return None;
        }
        acc = acc * 10 + d;
        i += 1;
    }
    assert(v@.take(v.len() as int) =~= v@);
    Some(acc)
}

fn place_at(frac: &Vec<char>, i: usize) -> (out: u64)
    requires
        all_digits(frac@),
    ensures
        out as nat == place(frac@, i as int),
        out <= 9,
{
    if i < frac.len() {
        assert(is_digit(frac@[i as int]));
        (frac[i] as u8 - 48u8) as u64
    } else {
        0
    }
}

/// Reads a decimal number as millionths.
pub fn parse_fixed(v: &Vec<char>) -> (out: Option<i64>)
    ensures
        out matches Some(n) ==> fixed_point(v@) == Some(n as int),
        out is None ==> fixed_point(v@) is None,
{
    let signed = v.len() > 0 && (v[0] == '-' || v[0] == '+');
    let negative = v.len() > 0 && v[0] == '-';
    let mut body: Vec<char> = Vec::new();
    let mut i: usize = if signed {
        1
    } else {
        0
    };
    let ghost start = i;
    while i < v.len()
        invariant
            start <= i <= v.len(),
            body@ == v@.subrange(start as int, i as int),
        decreases v.len() - i,
    {
        body.push(v[i]);
        i += 1;
    }
    assert(body@ =~= v@.skip(start as int));
    assert(v@.skip(0) =~= v@);
    let parts = split_at_char(&body, '.');
    if parts.len() > 2 {
        return None;
    }
    let empty: Vec<char> = Vec::new();
    let frac: &Vec<char> = if parts.len() == 2 {
        &parts[1]
    } else {
        &empty
    };
    let whole: &Vec<char> = &parts[0];
    if whole.len() == 0 || !only_digits(whole) || !only_digits(frac) {
        return None;
    }
    let w = match whole_value(whole, MAX_WHOLE) {
        Some(w) => w,
        None => {
            return None;
        },
    };
    let f: u64 = place_at(frac, 0) * 100_000 + place_at(frac, 1) * 10_000 + place_at(frac, 2)
        * 1_000 + place_at(frac, 3) * 100 + place_at(frac, 4) * 10 + place_at(frac, 5);
    let magnitude: i64 = (w * 1_000_000 + f) as i64;
    Some(
        if negative {
            -magnitude
        } else {
            magnitude
        },
    )
}

/// The whole part of `n` millionths, towards zero.
pub open spec fn whole_of(n: int) -> int {
    if n < 0 {
        -((-n) / 1_000_000)
    } else {
        n / 1_000_000
    }
}

/// The whole part of `n` millionths, towards zero.
pub fn whole_part(n: i64) -> (out: i64)
    ensures
        out == whole_of(n as int),
{
    if n < 0 {
        let m: i64 = -(n + 1);
        if m % 1_000_000 == 999_999 {
            -(m / 1_000_000) - 1
        } else {
            -(m / 1_000_000)
        }
    } else {
        n / 1_000_000
    }
}

/// The six places that write `f` millionths.
pub open spec fn six_places(f: nat) -> Seq<char> {
    seq![
        digit_char(f / 100_000 % 10),
        digit_char(f / 10_000 % 10),
        digit_char(f / 1_000 % 10),
        digit_char(f / 100 % 10),
        digit_char(f / 10 % 10),
        digit_char(f % 10),
    ]
}

/// `s` without the zeros at its end.
pub open spec fn without_trailing_zeros(s: Seq<char>) -> Seq<char>
    decreases s.len(),
{
    if s.len() > 0 && s.last() == '0' {
        without_trailing_zeros(s.drop_last())
    } else {
        s
    }
}

/// The size of `n`, whatever its sign.
pub open spec fn size_of(n: int) -> nat {
    if n < 0 {
        (-n) as nat
    } else {
        n as nat
    }
}

/// The sign that is written before `n`: a minus where it is negative, else nothing.
pub open spec fn sign_text(n: int) -> Seq<char> {
    if n < 0 {
        seq!['-']
    } else {
        Seq::empty()
    }
}

/// The whole number `n` as it is written: a minus sign where it is negative, then its digits.
pub open spec fn signed_decimal(n: int) -> Seq<char> {
    sign_text(n) + decimal(size_of(n))
}

/// The places of `f` millionths as they are written: nothing where they are all zero, else a
/// point and the places up to the last that is not zero.
pub open spec fn fraction_text(f: nat) -> Seq<char> {
    let places = without_trailing_zeros(six_places(f));
    if places.len() == 0 {
        Seq::empty()
    } else {
        seq!['.'] + places
    }
}

/// The number of `n` millionths as it is written: a minus sign where it is negative, the
/// whole part, and the places after it.
pub open spec fn fixed_text(n: int) -> Seq<char> {
    sign_text(n) + decimal(size_of(n) / 1_000_000) + fraction_text(size_of(n) % 1_000_000)
}

/// The size of `n`, whatever its sign.
pub fn size(n: i64) -> (out: u64)
    ensures
        out as nat == size_of(n as int),
{
    if n < 0 {
        let m: i64 = -(n + 1);
        m as u64 + 1
    } else {
        n as u64
    }
}

/// Writes the whole number `n` to the end of `out`.
pub fn push_signed(out: &mut Vec<char>, n: i64)
    ensures
        final(out)@ == old(out)@ + signed_decimal(n as int),
{
    if n < 0 {
        out.push('-');
    }
    push_decimal(out, size(n));
    assert(out@ =~= old(out)@ + signed_decimal(n as int));
}

fn digit_of(d: u64) -> (out: char)
    requires
        d < 10,
    ensures
        out == digit_char(d as nat),
{
    (d as u8 + 48u8) as char
}

/// Writes the places of `f` millionths to the end of `out`.
pub fn push_fraction(out: &mut Vec<char>, f: u64)
    requires
        f < 1_000_000,
    ensures
        final(out)@ == old(out)@ + fraction_text(f as nat),
{
    let mut places: Vec<char> = Vec::new();
    places.push(digit_of(f / 100_000 % 10));
    places.push(digit_of(f / 10_000 % 10));
    places.push(digit_of(f / 1_000 % 10));
    places.push(digit_of(f / 100 % 10));
    places.push(digit_of(f / 10 % 10));
    places.push(digit_of(f % 10));
    assert(places@ =~= six_places(f as nat));
    while places.len() > 0 && places[places.len() - 1] == '0'
        invariant
            without_trailing_zeros(places@) == without_trailing_zeros(six_places(f as nat)),
        decreases places.len(),
    {
        places.pop();
    }
    if places.len() > 0 {
        out.push('.');
        let mut i: usize = 0;
        while i < places.len()
            invariant
                i <= places.len(),
                out@ == old(out)@ + seq!['.'] + places@.take(i as int),
            decreases places.len() - i,
        {
            out.push(places[i]);
            assert(places@.take(i + 1) =~= places@.take(i as int).push(places@[i as int]));
            i += 1;
        }
        assert(places@.take(places.len() as int) =~= places@);
        assert(out@ =~= old(out)@ + (seq!['.'] + places@));
    } else {
        assert(out@ =~= old(out)@ + Seq::<char>::empty());
    }
}

/// Writes the number of `n` millionths to the end of `out`.
pub fn push_fixed(out: &mut Vec<char>, n: i64)
    ensures
        final(out)@ == old(out)@ + fixed_text(n as int),
{
    if n < 0 {
        out.push('-');
    }
    let m = size(n);
    push_decimal(out, m / 1_000_000);
    push_fraction(out, m % 1_000_000);
    assert(out@ =~= old(out)@ + fixed_text(n as int));
}

proof fn lemma_places_sum(f: nat)
    requires
        f < 1_000_000,
    ensures
        (f / 100_000 % 10) * 100_000 + (f / 10_000 % 10) * 10_000 + (f / 1_000 % 10) * 1_000 + (f
            / 100 % 10) * 100 + (f / 10 % 10) * 10 + f % 10 == f,
{
    let a = f / 10;
    let b = a / 10;
    let c = b / 10;
    let d = c / 10;
    let e = d / 10;
    assert(f / 100 == b);
    assert(f / 1_000 == c);
    assert(f / 10_000 == d);
    assert(f / 100_000 == e);
    assert(e < 10);
}

/// The six places of a number of millionths are digits, and they write that number.
pub proof fn lemma_six_places(f: nat)
    requires
        f < 1_000_000,
    ensures
        all_digits(six_places(f)),
        millionths(six_places(f)) == f,
{
    let s = six_places(f);
    lemma_digit_char(f / 100_000 % 10);
    lemma_digit_char(f / 10_000 % 10);
    lemma_digit_char(f / 1_000 % 10);
    lemma_digit_char(f / 100 % 10);
    lemma_digit_char(f / 10 % 10);
    lemma_digit_char(f % 10);
    assert(place(s, 0) == f / 100_000 % 10);
    assert(place(s, 1) == f / 10_000 % 10);
    assert(place(s, 2) == f / 1_000 % 10);
    assert(place(s, 3) == f / 100 % 10);
    assert(place(s, 4) == f / 10 % 10);
    assert(place(s, 5) == f % 10);
    lemma_places_sum(f);
}

/// Leaving out the zeros at the end of a row of digits changes no place of it.
pub proof fn lemma_trailing_zeros(s: Seq<char>)
    requires
        all_digits(s),
    ensures
        all_digits(without_trailing_zeros(s)),
        forall|i: int| place(without_trailing_zeros(s), i) == place(s, i),
    decreases s.len(),
{
    if s.len() > 0 && s.last() == '0' {
        lemma_trailing_zeros(s.drop_last());
        assert forall|i: int| place(without_trailing_zeros(s), i) == place(s, i) by {
            assert(place(s.drop_last(), i) == place(s, i));
        }
    }
}

/// A number of millionths that is written and then read is the same number.
pub proof fn lemma_written_is_read(n: int)
    requires
        size_of(n) / 1_000_000 <= MAX_WHOLE,
    ensures
        fixed_point(fixed_text(n)) == Some(n),
{
    let w = size_of(n) / 1_000_000;
    let f = size_of(n) % 1_000_000;
    let whole = decimal(w);
    let places = without_trailing_zeros(six_places(f));
    let frac = fraction_text(f);
    let s = fixed_text(n);
    let body = whole + frac;
    lemma_decimal_is_read(w);
    lemma_six_places(f);
    lemma_trailing_zeros(six_places(f));
    assert(is_digit(whole[0]));
    assert(!whole.contains('.')) by {
        if whole.contains('.') {
            let i = choose|i: int| 0 <= i < whole.len() && whole[i] == '.';
            assert(is_digit(whole[i]));
        }
    }
    assert(!places.contains('.')) by {
        if places.contains('.') {
            let i = choose|i: int| 0 <= i < places.len() && places[i] == '.';
            assert(is_digit(places[i]));
        }
    }
    if n < 0 {
        assert(s[0] == '-');
        assert(s.skip(1) =~= body);
    } else {
        assert(s[0] == whole[0]);
        assert(s =~= body);
    }
    lemma_split_one_piece(whole, '.');
    if places.len() == 0 {
        assert(body =~= whole);
        assert(millionths(places) == 0);
        assert(millionths(Seq::<char>::empty()) == 0);
    } else {
        lemma_split_last_piece(whole, places, '.');
        assert(body =~= whole + seq!['.'] + places);
        assert(split(body, '.') =~= seq![whole, places]);
    }
    assert(millionths(places) == millionths(six_places(f)));
}

} // verus!
