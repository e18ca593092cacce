//! Text helpers: strings as sequences of characters.

use vstd::prelude::*;

verus! {

/// `String::push` appends one character to the end of the string.
pub assume_specification[ String::push ](s: &mut String, c: char)
    ensures
        final(s)@ == old(s)@.push(c),
;

/// The characters of `s`, in order.
pub fn chars_of(s: &str) -> (out: Vec<char>)
    ensures
        out@ == s@,
{
    let mut out: Vec<char> = Vec::new();
    for c in it: s.chars()
        invariant
            out@ == it.seq().take(it.index() as int),
            it.seq() == s@,
    {
        out.push(c);
    }
    out
}

/// The string made of the characters of `v`, in order.
pub fn string_of(v: &Vec<char>) -> (out: String)
    ensures
        out@ == v@,
{
    let mut out = String::new();
    let mut i: usize = 0;
    while i < v.len()
        invariant
            i <= v.len(),
            out@ == v@.take(i as int),
        decreases v.len() - i,
    {
        out.push(v[i]);
        i += 1;
    }
    out
}

/// `s` with every letter in lower case, as Unicode maps it: what `str::to_lowercase` gives.
pub uninterp spec fn lowercase_of(s: Seq<char>) -> Seq<char>;

/// Calls `str::to_lowercase`: the text with every letter in lower case, as Unicode maps
/// it.
#[verifier::external_body]
pub(crate) fn lowercase(s: &str) -> (out: String)
    ensures
        out@ == lowercase_of(s@),
{
    s.to_lowercase()
}

/// `s` with every letter in upper case, as Unicode maps it: what `str::to_uppercase` gives.
pub uninterp spec fn uppercase_of(s: Seq<char>) -> Seq<char>;

/// Calls `str::to_uppercase`: the text with every letter in upper case, as Unicode maps
/// it.
#[verifier::external_body]
pub(crate) fn uppercase(s: &str) -> (out: String)
    ensures
        out@ == uppercase_of(s@),
{
    s.to_uppercase()
}

/// The lower-case form of an ASCII capital letter; every other character is itself.
pub open spec fn lower_char(c: char) -> char {
    if 'A' <= c && c <= 'Z' {
        ((c as u8 + 32) as u8) as char
    } else {
        c
    }
}

/// `s` with each ASCII capital letter replaced by its lower-case form.
pub open spec fn lower(s: Seq<char>) -> Seq<char> {
    Seq::new(s.len(), |i: int| lower_char(s[i]))
}

pub fn to_lower_char(c: char) -> (out: char)
    ensures
        out == lower_char(c),
{
    if 'A' <= c && c <= 'Z' {
        let b: u8 = c as u8;
        (b + 32) as char
    } else {
        c
    }
}

/// Whether `a` and `b` are equal when ASCII letters are compared without regard to case.
pub fn eq_ignore_case(a: &Vec<char>, b: &Vec<char>) -> (out: bool)
    ensures
        out == (lower(a@) == lower(b@)),
{
    if a.len() != b.len() {
        assert(lower(a@).len() != lower(b@).len());
        return false;
    }
    let mut i: usize = 0;
    while i < a.len()
        invariant
            i <= a.len(),
            a.len() == b.len(),
            forall|j: int| 0 <= j < i ==> lower_char(a@[j]) == lower_char(b@[j]),
        decreases a.len() - i,
    {
        if to_lower_char(a[i]) != to_lower_char(b[i]) {
            assert(lower(a@)[i as int] != lower(b@)[i as int]);
            return false;
        }
        i += 1;
    }
    assert(lower(a@) =~= lower(b@));
    true
}

/// Whether `c` is white space: the characters that trimming removes.
pub open spec fn is_space(c: char) -> bool {
    let n = c as u32;
    (0x09 <= n && n <= 0x0d) || n == 0x20 || n == 0x85 || n == 0xa0 || n == 0x1680 || (0x2000 <= n
        && n <= 0x200a) || n == 0x2028 || n == 0x2029 || n == 0x202f || n == 0x205f || n == 0x3000
}

pub fn is_space_char(c: char) -> (out: bool)
    ensures
        out == is_space(c),
{
    let n: u32 = c as u32;
    (0x09 <= n && n <= 0x0d) || n == 0x20 || n == 0x85 || n == 0xa0 || n == 0x1680 || (0x2000 <= n
        && n <= 0x200a) || n == 0x2028 || n == 0x2029 || n == 0x202f || n == 0x205f || n == 0x3000
}

/// The number of white-space characters at the start of `s`.
pub open spec fn leading_spaces(s: Seq<char>) -> nat
    decreases s.len(),
{
    if s.len() > 0 && is_space(s[0]) {
        1 + leading_spaces(s.skip(1))
    } else {
        0
    }
}

/// The number of white-space characters at the end of `s`.
pub open spec fn trailing_spaces(s: Seq<char>) -> nat
    decreases s.len(),
{
    if s.len() > 0 && is_space(s.last()) {
        1 + trailing_spaces(s.drop_last())
    } else {
        0
    }
}

/// `s` without the white space at its start and at its end.
pub open spec fn trimmed(s: Seq<char>) -> Seq<char> {
    let front = s.skip(leading_spaces(s) as int);
    front.take(front.len() - trailing_spaces(front))
}

pub proof fn lemma_leading_spaces(s: Seq<char>, k: nat)
    requires
        k <= s.len(),
        forall|j: int| 0 <= j < k ==> is_space(s[j]),
        k == s.len() || !is_space(s[k as int]),
    ensures
        leading_spaces(s) == k,
    decreases k,
{
    if k > 0 {
        let rest = s.skip(1);
        assert forall|j: int| 0 <= j < k - 1 implies is_space(rest[j]) by {
            assert(rest[j] == s[j + 1]);
        }
        lemma_leading_spaces(rest, (k - 1) as nat);
    }
}

pub proof fn lemma_trailing_spaces(s: Seq<char>, k: nat)
    requires
        k <= s.len(),
        forall|j: int| s.len() - k <= j < s.len() ==> is_space(s[j]),
        k == s.len() || !is_space(s[s.len() - k - 1]),
    ensures
        trailing_spaces(s) == k,
    decreases k,
{
    if k > 0 {
        let rest = s.drop_last();
        assert forall|j: int| rest.len() - (k - 1) <= j < rest.len() implies is_space(rest[j]) by {
            assert(rest[j] == s[j]);
        }
        lemma_trailing_spaces(rest, (k - 1) as nat);
    }
}

/// Removes the white space at both ends of `v`.
pub fn trim(v: &Vec<char>) -> (out: Vec<char>)
    ensures
        out@ == trimmed(v@),
        out@.len() <= v@.len(),
{
    let mut start: usize = 0;
    while start < v.len() && is_space_char(v[start])
        invariant
            start <= v.len(),
            forall|j: int| 0 <= j < start ==> is_space(v@[j]),
        decreases v.len() - start,
    {
        start += 1;
    }
    let mut end: usize = v.len();
    while end > start && is_space_char(v[end - 1])
        invariant
            start <= end <= v.len(),
            forall|j: int| end <= j < v.len() ==> is_space(v@[j]),
        decreases end,
    {
        end -= 1;
    }
    let mut out: Vec<char> = Vec::new();
    let mut i: usize = start;
    while i < end
        invariant
            start <= i <= end <= v.len(),
            out@ == v@.subrange(start as int, i as int),
        decreases end - i,
    {
        out.push(v[i]);
        i += 1;
    }
    proof {
        lemma_leading_spaces(v@, start as nat);
        let front = v@.skip(start as int);
        assert forall|j: int| front.len() - (v.len() - end) <= j < front.len() implies is_space(
            front[j],
        ) by {
            assert(front[j] == v@[j + start]);
        }
        if end > start {
            assert(front[end - start - 1] == v@[end - 1]);
        }
        lemma_trailing_spaces(front, (v.len() - end) as nat);
        assert(out@ =~= trimmed(v@));
    }
    out
}

/// Whether `s` begins with `prefix`.
pub open spec fn has_prefix(s: Seq<char>, prefix: Seq<char>) -> bool {
    prefix.len() <= s.len() && s.take(prefix.len() as int) == prefix
}

pub fn starts_with(v: &Vec<char>, prefix: &Vec<char>) -> (out: bool)
    ensures
        out == has_prefix(v@, prefix@),
{
    if prefix.len() > v.len() {
        return false;
    }
    let mut i: usize = 0;
    while i < prefix.len()
        invariant
            i <= prefix.len() <= v.len(),
            forall|j: int| 0 <= j < i ==> v@[j] == prefix@[j],
        decreases prefix.len() - i,
    {
        if v[i] != prefix[i] {
            assert(v@.take(prefix.len() as int)[i as int] != prefix@[i as int]);
            return false;
        }
        i += 1;
    }
    assert(v@.take(prefix.len() as int) =~= prefix@);
    true
}

/// The pieces of `s` between occurrences of `sep`. A string with `n` separators has `n + 1`
/// pieces, some of which may be empty.
pub open spec fn split(s: Seq<char>, sep: char) -> Seq<Seq<char>>
    decreases s.len(),
{
    if s.len() == 0 {
        seq![Seq::<char>::empty()]
    } else {
        let before = split(s.drop_last(), sep);
        if s.last() == sep {
            before.push(Seq::<char>::empty())
        } else {
            before.drop_last().push(before.last().push(s.last()))
        }
    }
}

/// Splits `v` at every occurrence of `sep`.
pub fn split_at_char(v: &Vec<char>, sep: char) -> (out: Vec<Vec<char>>)
    ensures
        out@.len() == split(v@, sep).len(),
        out@.len() >= 1,
        forall|k: int| 0 <= k < out@.len() ==> (#[trigger] out@[k])@ == split(v@, sep)[k],
{
    let mut done: Vec<Vec<char>> = Vec::new();
    let mut cur: Vec<char> = Vec::new();
    let mut i: usize = 0;
    while i < v.len()
        invariant
            i <= v.len(),
            split(v@.take(i as int), sep).len() == done@.len() + 1,
            forall|k: int|
                0 <= k < done@.len() ==> (#[trigger] done@[k])@ == split(v@.take(i as int), sep)[k],
            cur@ == split(v@.take(i as int), sep).last(),
        decreases v.len() - i,
    {
        let ghost before = split(v@.take(i as int), sep);
        proof {
            assert(v@.take(i + 1).drop_last() =~= v@.take(i as int));
            assert(v@.take(i + 1).last() == v@[i as int]);
        }
        if v[i] == sep {
            done.push(cur);
            cur = Vec::new();
        } else {
            cur.push(v[i]);
        }
        i += 1;
    }
    proof {
        assert(v@.take(v.len() as int) =~= v@);
    }
    done.push(cur);
    done
}

/// The character that stands for the digit `d`.
pub open spec fn digit_char(d: nat) -> char {
    (('0' as u8 + d) as u8) as char
}

/// Whether `c` is one of the ten decimal digits.
pub open spec fn is_digit(c: char) -> bool {
    '0' <= c && c <= '9'
}

/// The digit that `c` stands for.
pub open spec fn digit_value(c: char) -> nat {
    (c as u8 - '0' as u8) as nat
}

/// `n` written in decimal, without leading zeros.
pub open spec fn decimal(n: nat) -> Seq<char>
    decreases n,
{
    if n < 10 {
        seq![digit_char(n)]
    } else {
        decimal(n / 10).push(digit_char(n % 10))
    }
}

/// Appends `n`, written in decimal, to `out`.
pub fn push_decimal(out: &mut Vec<char>, n: u64)
    ensures
        final(out)@ == old(out)@ + decimal(n as nat),
    decreases n,
{
    if n >= 10 {
        push_decimal(out, n / 10);
    }
    let d: u8 = (n % 10) as u8;
    out.push((48u8 + d) as char);
    proof {
        assert('0' as u8 == 48u8);
        if n >= 10 {
            assert(final(out)@ =~= old(out)@ + decimal(n as nat));
        } else {
            assert(final(out)@ =~= old(out)@ + decimal(n as nat));
        }
    }
}

/// `n` written in decimal.
pub fn decimal_string(n: u64) -> (out: String)
    ensures
        out@ == decimal(n as nat),
{
    let mut v: Vec<char> = Vec::new();
    push_decimal(&mut v, n);
    assert(v@ =~= decimal(n as nat));
    string_of(&v)
}

/// Whether every character of `s` is a decimal digit.
pub open spec fn all_digits(s: Seq<char>) -> bool {
    forall|i: int| 0 <= i < s.len() ==> is_digit(#[trigger] s[i])
}

/// The number that the digits of `s` write in decimal.
pub open spec fn digits_value(s: Seq<char>) -> nat
    decreases s.len(),
{
    if s.len() == 0 {
        0
    } else {
        digits_value(s.drop_last()) * 10 + digit_value(s.last())
    }
}

/// The character of a digit is a digit, and stands for it.
pub proof fn lemma_digit_char(d: nat)
    requires
        d < 10,
    ensures
        is_digit(digit_char(d)),
        digit_value(digit_char(d)) == d,
{
}

/// What is written of a number is one or more digits, and they write that number.
pub proof fn lemma_decimal_is_read(n: nat)
    ensures
        decimal(n).len() > 0,
        all_digits(decimal(n)),
        digits_value(decimal(n)) == n,
    decreases n,
{
    if n < 10 {
        let s = decimal(n);
        assert(s.drop_last() =~= Seq::<char>::empty());
        assert(digits_value(s.drop_last()) == 0);
    } else {
        lemma_decimal_is_read(n / 10);
        let s = decimal(n);
        assert(s.drop_last() =~= decimal(n / 10));
        assert(s.last() == digit_char(n % 10));
    }
}

/// A text without the separator is one piece.
pub proof fn lemma_split_one_piece(s: Seq<char>, sep: char)
    requires
        !s.contains(sep),
    ensures
        split(s, sep) == seq![s],
    decreases s.len(),
{
    if s.len() > 0 {
        let head = s.drop_last();
        assert(!head.contains(sep)) by {
            if head.contains(sep) {
                let i = choose|i: int| 0 <= i < head.len() && head[i] == sep;
                assert(s[i] == sep);
            }
        }
        assert(s[s.len() - 1] != sep);
        lemma_split_one_piece(head, sep);
        assert(head.push(s.last()) =~= s);
        assert(seq![head].drop_last().push(s) =~= seq![s]);
    } else {
        assert(s =~= Seq::<char>::empty());
    }
}

/// What follows the last separator is the last piece.
pub proof fn lemma_split_last_piece(a: Seq<char>, b: Seq<char>, sep: char)
    requires
        !b.contains(sep),
    ensures
        split(a + seq![sep] + b, sep) == split(a, sep).push(b),
    decreases b.len(),
{
    let s = a + seq![sep] + b;
    if b.len() == 0 {
        assert(s.drop_last() =~= a);
        assert(s.last() == sep);
        assert(b =~= Seq::<char>::empty());
    } else {
        let head = b.drop_last();
        assert(!head.contains(sep)) by {
            if head.contains(sep) {
                let i = choose|i: int| 0 <= i < head.len() && head[i] == sep;
                assert(b[i] == sep);
            }
        }
        assert(b[b.len() - 1] != sep);
        lemma_split_last_piece(a, head, sep);
        assert(s.drop_last() =~= a + seq![sep] + head);
        assert(s.last() == b.last());
        let before = split(a, sep).push(head);
        assert(before.drop_last() =~= split(a, sep));
        assert(head.push(b.last()) =~= b);
    }
}

/// The number that `s` writes: an optional `+`, then one or more decimal digits. `None` where
/// `s` has another form or the number is above `max`.
pub open spec fn parse_unsigned(s: Seq<char>, max: nat) -> Option<nat> {
    let body = if s.len() > 0 && s[0] == '+' {
        s.skip(1)
    } else {
        s
    };
    if body.len() > 0 && all_digits(body) && digits_value(body) <= max {
        Some(digits_value(body))
    } else {
        None
    }
}

pub proof fn lemma_digits_value_prefix(s: Seq<char>, i: int)
    requires
        0 <= i <= s.len(),
    ensures
        digits_value(s.take(i)) <= digits_value(s),
    decreases s.len() - i,
{
    if i < s.len() {
        assert(s.take(i + 1).drop_last() =~= s.take(i));
        lemma_digits_value_prefix(s, i + 1);
    } else {
        assert(s.take(i) =~= s);
    }
}

/// Reads a decimal number no larger than `max`.
pub fn parse_decimal(v: &Vec<char>, max: u64) -> (out: Option<u64>)
    ensures
        out matches Some(n) ==> parse_unsigned(v@, max as nat) == Some(n as nat),
        out is None ==> parse_unsigned(v@, max as nat) is None,
{
    let start: usize = if v.len() > 0 && v[0] == '+' {
        1
    } else {
        0
    };
    let ghost body = v@.skip(start as int);
    assert(v@.skip(0) =~= v@);
    if start == v.len() {
        return None;
    }
    let mut acc: u64 = 0;
    let mut i: usize = start;
    let mut fits = true;
    let mut digits = true;
    while i < v.len() && fits && digits
        invariant
            start <= i <= v.len(),
            body == v@.skip(start as int),
            digits ==> all_digits(body.take(i - start)),
            !digits ==> !all_digits(body),
            digits && fits ==> acc as nat == digits_value(body.take(i - start)) && acc <= max,
            digits && !fits ==> digits_value(body.take(i - start)) > max,
        decreases v.len() - i,
    {
        let c = v[i];
        let ghost pre = body.take(i - start);
        let ghost cur = body.take(i - start + 1);
        proof {
            assert(cur.drop_last() =~= pre);
            assert(cur.last() == c);
            assert(body[i - start] == c);
        }
        if !('0' <= c && c <= '9') {
            assert(!is_digit(body[i - start]));
            digits = false;
        } else {
            let d: u64 = (c as u8 - 48u8) as u64;
            assert(d as nat == digit_value(c));
            assert(digits_value(cur) == acc * 10 + d);
            assert(all_digits(cur)) by {
                assert forall|j: int| 0 <= j < cur.len() implies is_digit(#[trigger] cur[j]) by {
                    if j < pre.len() {
                        assert(cur[j] == pre[j]);
                    }
                }
            }
            if d > max || acc > (max - d) / 10 {
                fits = false;
            } else {
                acc = acc * 10 + d;
            }
        }
        i += 1;
    }
    if !digits {
        return None;
    }
    proof {
        lemma_digits_value_prefix(body, i - start);
    }
    if !fits {
        return None;
    }
    assert(body.take(i - start) =~= body);
    Some(acc)
}

/// Replaces each ASCII capital letter of `v` by its lower-case form.
pub fn to_lower(v: &Vec<char>) -> (out: Vec<char>)
    ensures
        out@ == lower(v@),
{
    let mut out: Vec<char> = Vec::new();
    let mut i: usize = 0;
    while i < v.len()
        invariant
            i <= v.len(),
            out@.len() == i,
            forall|j: int| 0 <= j < i ==> out@[j] == lower_char(v@[j]),
        decreases v.len() - i,
    {
        out.push(to_lower_char(v[i]));
        i += 1;
    }
    assert(out@ =~= lower(v@));
    out
}

/// Whether `a` and `b` hold the same characters.
pub fn same_chars(a: &Vec<char>, b: &Vec<char>) -> (out: bool)
    ensures
        out == (a@ == b@),
{
    if a.len() != b.len() {
        return false;
    }
    let mut i: usize = 0;
    while i < a.len()
        invariant
            i <= a.len(),
            a.len() == b.len(),
            forall|j: int| 0 <= j < i ==> a@[j] == b@[j],
        decreases a.len() - i,
    {
        if a[i] != b[i] {
            return false;
        }
        i += 1;
    }
    assert(a@ =~= b@);
    true
}

/// Whether `a` and `b` are the same text.
pub fn text_eq(a: &str, b: &str) -> (out: bool)
    ensures
        out == (a@ == b@),
{
    same_chars(&chars_of(a), &chars_of(b))
}

/// Whether `a` and `b` are the same text when ASCII letters are compared without regard to
/// case.
pub fn text_eq_ignore_case(a: &str, b: &str) -> (out: bool)
    ensures
        out == (lower(a@) == lower(b@)),
{
    eq_ignore_case(&chars_of(a), &chars_of(b))
}

/// A copy of the text, if there is one.
pub fn copy_text(t: &Option<String>) -> (out: Option<String>)
    ensures
        out == *t,
{
    match t {
        Some(s) => Some(s.clone()),
        None => None,
    }
}

/// The numbers of `nums` in decimal, separated by a comma and a space.
pub open spec fn joined(nums: Seq<u64>) -> Seq<char>
    decreases nums.len(),
{
    if nums.len() == 0 {
        Seq::empty()
    } else if nums.len() == 1 {
        decimal(nums[0] as nat)
    } else {
        joined(nums.drop_last()) + seq![',', ' '] + decimal(nums.last() as nat)
    }
}

/// `nums` written as a list: in square brackets, separated by a comma and a space.
pub open spec fn list_literal(nums: Seq<u64>) -> Seq<char> {
    seq!['['] + joined(nums) + seq![']']
}

/// Writes `nums` as a list.
pub fn list_text(nums: &Vec<u64>) -> (out: String)
    ensures
        out@ == list_literal(nums@),
{
    let mut text: Vec<char> = Vec::new();
    text.push('[');
    let mut i: usize = 0;
    while i < nums.len()
        invariant
            i <= nums.len(),
            text@ == seq!['['] + joined(nums@.take(i as int)),
        decreases nums.len() - i,
    {
        let ghost before = text@;
        proof {
            assert(nums@.take(i + 1).drop_last() =~= nums@.take(i as int));
            assert(nums@.take(i + 1).last() == nums@[i as int]);
        }
        if i > 0 {
            text.push(',');
            text.push(' ');
        }
        push_decimal(&mut text, nums[i]);
        proof {
            if i == 0 {
                assert(joined(nums@.take(0)) =~= Seq::<char>::empty());
                assert(nums@.take(1)[0] == nums@[0]);
                assert(text@ =~= seq!['['] + joined(nums@.take(1)));
            } else {
                assert(text@ =~= seq!['['] + joined(nums@.take(i + 1)));
            }
        }
        i += 1;
    }
    text.push(']');
    proof {
        assert(nums@.take(nums.len() as int) =~= nums@);
        assert(text@ =~= list_literal(nums@));
    }
    string_of(&text)
}

/// `s` without the white space at its ends.
pub fn trim_text(s: &str) -> (out: String)
    ensures
        out@ == trimmed(s@),
        out@.len() <= s@.len(),
{
    let v = trim(&chars_of(s));
    string_of(&v)
}

/// Whether `c` is a digit of a hexadecimal number, in capitals or not.
pub open spec fn is_hex(c: char) -> bool {
    ('0' <= c && c <= '9') || ('a' <= c && c <= 'f') || ('A' <= c && c <= 'F')
}

/// The number that the hexadecimal digit `c` stands for.
pub open spec fn hex_value(c: char) -> nat {
    if '0' <= c && c <= '9' {
        (c as u8 - '0' as u8) as nat
    } else if 'a' <= c && c <= 'f' {
        (c as u8 - 'a' as u8 + 10) as nat
    } else {
        (c as u8 - 'A' as u8 + 10) as nat
    }
}

/// Whether every character of `s` is a hexadecimal digit.
pub open spec fn all_hex(s: Seq<char>) -> bool {
    forall|i: int| 0 <= i < s.len() ==> is_hex(#[trigger] s[i])
}

/// The number that the digits of `s` write in hexadecimal.
pub open spec fn hex_number(s: Seq<char>) -> nat
    decreases s.len(),
{
    if s.len() == 0 {
        0
    } else {
        hex_number(s.drop_last()) * 16 + hex_value(s.last())
    }
}

/// The number that `s` writes in hexadecimal: an optional `+`, then one or more digits.
/// `None` where `s` has another form or the number is above `max`.
pub open spec fn parse_hex(s: Seq<char>, max: nat) -> Option<nat> {
    let body = if s.len() > 0 && s[0] == '+' {
        s.skip(1)
    } else {
        s
    };
    if body.len() > 0 && all_hex(body) && hex_number(body) <= max {
        Some(hex_number(body))
    } else {
        None
    }
}

pub proof fn lemma_hex_number_prefix(s: Seq<char>, i: int)
    requires
        0 <= i <= s.len(),
    ensures
        hex_number(s.take(i)) <= hex_number(s),
    decreases s.len() - i,
{
    if i < s.len() {
        assert(s.take(i + 1).drop_last() =~= s.take(i));
        lemma_hex_number_prefix(s, i + 1);
    } else {
        assert(s.take(i) =~= s);
    }
}

/// Reads a hexadecimal number no larger than `max`.
pub fn parse_hexadecimal(v: &Vec<char>, max: u64) -> (out: Option<u64>)
    ensures
        out matches Some(n) ==> parse_hex(v@, max as nat) == Some(n as nat),
        out is None ==> parse_hex(v@, max as nat) is None,
{
    let start: usize = if v.len() > 0 && v[0] == '+' {
        1
    } else {
        0
    };
    let ghost body = v@.skip(start as int);
    assert(v@.skip(0) =~= v@);
    if start == v.len() {
        return None;
    }
    let mut acc: u64 = 0;
    let mut i: usize = start;
    let mut fits = true;
    let mut digits = true;
    while i < v.len() && fits && digits
        invariant
            start <= i <= v.len(),
            body == v@.skip(start as int),
            digits ==> all_hex(body.take(i - start)),
            !digits ==> !all_hex(body),
            digits && fits ==> acc as nat == hex_number(body.take(i - start)) && acc <= max,
            digits && !fits ==> hex_number(body.take(i - start)) > max,
        decreases v.len() - i,
    {
        let c = v[i];
        let ghost pre = body.take(i - start);
        let ghost cur = body.take(i - start + 1);
        proof {
            assert(cur.drop_last() =~= pre);
            assert(cur.last() == c);
            assert(body[i - start] == c);
        }
        let digit: Option<u64> = if '0' <= c && c <= '9' {
            Some((c as u8 - 48u8) as u64)
        } else if 'a' <= c && c <= 'f' {
            Some((c as u8 - 97u8 + 10u8) as u64)
        } else if 'A' <= c && c <= 'F' {
            Some((c as u8 - 65u8 + 10u8) as u64)
        } else {
            None
        };
        match digit {
            None => {
                assert(!is_hex(body[i - start]));
                digits = false;
            },
            Some(d) => {
                assert(d as nat == hex_value(c));
                assert(hex_number(cur) == acc * 16 + d);
                assert(all_hex(cur)) by {
                    assert forall|j: int| 0 <= j < cur.len() implies is_hex(#[trigger] cur[j]) by {
                        if j < pre.len() {
                            assert(cur[j] == pre[j]);
                        }
                    }
                }
                if d > max || acc > (max - d) / 16 {
                    fits = false;
                } else {
                    acc = acc * 16 + d;
                }
            },
        }
        i += 1;
    }
    if !digits {
        return None;
    }
    proof {
        lemma_hex_number_prefix(body, i - start);
    }
    if !fits {
        return None;
    }
    assert(body.take(i - start) =~= body);
    Some(acc)
}

} // verus!
