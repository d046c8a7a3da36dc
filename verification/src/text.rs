//! Numerals and scanning over sequences of characters.
//!
//! Everything the panels write as text (register values, breakpoint hints,
//! debugger commands) and everything they read from text (breakpoint
//! numbers, address labels) goes through the functions of this module.

use vstd::prelude::*;
use vstd::string::*;

verus! {

/// The character that writes the digit `d`, for `d` below sixteen: `0` to `9`,
/// then `a` to `f`.
pub open spec fn digit_char(d: nat) -> char {
    if d < 10 {
        (48 + d) as char
    } else {
        (87 + d) as char
    }
}

/// `v` in decimal, most significant digit first, without padding.
pub open spec fn decimal(v: nat) -> Seq<char>
    decreases v,
{
    if v < 10 {
        seq![digit_char(v)]
    } else {
        decimal(v / 10).push(digit_char(v % 10))
    }
}

/// `v` in lower-case hexadecimal, most significant digit first, without
/// padding.
pub open spec fn hex(v: nat) -> Seq<char>
    decreases v,
{
    if v < 16 {
        seq![digit_char(v)]
    } else {
        hex(v / 16).push(digit_char(v % 16))
    }
}

/// The lowest `width` hexadecimal digits of `v`, most significant first: `v`
/// padded with zeros on the left when it is short.
pub open spec fn hex_padded(v: nat, width: nat) -> Seq<char>
    decreases width,
{
    if width == 0 {
        Seq::empty()
    } else {
        hex_padded(v / 16, (width - 1) as nat).push(digit_char(v % 16))
    }
}

/// Whether `c` separates words: a space, or one of the control characters
/// from tab to carriage return.
pub open spec fn is_blank(c: char) -> bool {
    c == ' ' || ('\t' <= c && c <= '\r')
}

/// Whether `c` is one of `0` to `9`.
pub open spec fn is_decimal_digit(c: char) -> bool {
    '0' <= c && c <= '9'
}

/// The first position at or after `from` where `s` holds `c`; the length of
/// `s` when there is none.
pub open spec fn position_of(s: Seq<char>, c: char, from: int) -> int
    decreases s.len() - from,
{
    if from < 0 || from >= s.len() {
        s.len() as int
    } else if s[from] == c {
        from
    } else {
        position_of(s, c, from + 1)
    }
}

/// The first position at or after `from` that holds no blank; the length of
/// `s` when only blanks follow.
pub open spec fn skip_blanks(s: Seq<char>, from: int) -> int
    decreases s.len() - from,
{
    if from < 0 || from >= s.len() {
        s.len() as int
    } else if !is_blank(s[from]) {
        from
    } else {
        skip_blanks(s, from + 1)
    }
}

/// The first position at or after `from` that holds a blank; the length of
/// `s` when the word runs to the end.
pub open spec fn skip_word(s: Seq<char>, from: int) -> int
    decreases s.len() - from,
{
    if from < 0 || from >= s.len() {
        s.len() as int
    } else if is_blank(s[from]) {
        from
    } else {
        skip_word(s, from + 1)
    }
}

/// The number that the decimal digits of `s` write. Only meaningful when
/// every character of `s` is a digit.
pub open spec fn digits_value(s: Seq<char>) -> nat
    decreases s.len(),
{
    if s.len() == 0 {
        0
    } else {
        (digits_value(s.drop_last()) * 10 + (s.last() as int - 48)) as nat
    }
}

/// Whether `s` is one or more decimal digits.
pub open spec fn is_digits(s: Seq<char>) -> bool {
    s.len() > 0 && forall|i: int| 0 <= i < s.len() ==> is_decimal_digit(#[trigger] s[i])
}

/// `s` without one leading `+`, if it has one.
pub open spec fn unsigned_part(s: Seq<char>) -> Seq<char> {
    if s.len() > 0 && s[0] == '+' {
        s.subrange(1, s.len() as int)
    } else {
        s
    }
}

/// What a word means as a non-negative number: an optional `+`, then one or
/// more decimal digits, whose value fits the machine word. Anything else is no
/// number.
pub open spec fn number_of(s: Seq<char>) -> Option<usize> {
    let digits = unsigned_part(s);
    if is_digits(digits) && digits_value(digits) <= usize::MAX {
        Some(digits_value(digits) as usize)
    } else {
        None
    }
}

/// Whether `s` ends with `tail`.
pub open spec fn ends_with(s: Seq<char>, tail: Seq<char>) -> bool {
    tail.len() <= s.len() && s.subrange(s.len() - tail.len(), s.len() as int) == tail
}

/// Whether `s` starts with `head`.
pub open spec fn starts_with(s: Seq<char>, head: Seq<char>) -> bool {
    head.len() <= s.len() && s.subrange(0, head.len() as int) == head
}

/// The position that `position_of` gives is not before `from`; it holds `c`,
/// if it is a position of `s`; and no position between `from` and it does.
pub proof fn lemma_position_of(s: Seq<char>, c: char, from: int)
    requires
        0 <= from <= s.len(),
    ensures
        from <= position_of(s, c, from) <= s.len(),
        position_of(s, c, from) < s.len() ==> s[position_of(s, c, from)] == c,
        forall|i: int| from <= i < position_of(s, c, from) ==> #[trigger] s[i] != c,
    decreases s.len() - from,
{
    if from < s.len() && s[from] != c {
        lemma_position_of(s, c, from + 1);
    }
}

/// Stepping over blanks passes blanks only and stops at the first character
/// that is none; stepping over a word passes no blank and stops at the first.
pub proof fn lemma_skips(s: Seq<char>, from: int)
    requires
        0 <= from <= s.len(),
    ensures
        from <= skip_blanks(s, from) <= s.len(),
        skip_blanks(s, from) < s.len() ==> !is_blank(s[skip_blanks(s, from)]),
        forall|i: int| from <= i < skip_blanks(s, from) ==> is_blank(#[trigger] s[i]),
        from <= skip_word(s, from) <= s.len(),
        skip_word(s, from) < s.len() ==> is_blank(s[skip_word(s, from)]),
        forall|i: int| from <= i < skip_word(s, from) ==> !is_blank(#[trigger] s[i]),
    decreases s.len() - from,
{
    if from < s.len() {
        lemma_skips(s, from + 1);
    }
}

/// A position that holds `c`, or the end of `s`, with no `c` between `from`
/// and it, is the position that `position_of` gives.
pub proof fn lemma_position_found(s: Seq<char>, c: char, from: int, at: int)
    requires
        0 <= from <= at <= s.len(),
        forall|i: int| from <= i < at ==> #[trigger] s[i] != c,
        at < s.len() ==> s[at] == c,
    ensures
        position_of(s, c, from) == at,
    decreases at - from,
{
    if from < at {
        lemma_position_found(s, c, from + 1, at);
    }
}

/// A position that holds no blank, or the end of `s`, with only blanks
/// between `from` and it, is where stepping over blanks stops.
pub proof fn lemma_blanks_end(s: Seq<char>, from: int, at: int)
    requires
        0 <= from <= at <= s.len(),
        forall|i: int| from <= i < at ==> is_blank(#[trigger] s[i]),
        at < s.len() ==> !is_blank(s[at]),
    ensures
        skip_blanks(s, from) == at,
    decreases at - from,
{
    if from < at {
        lemma_blanks_end(s, from + 1, at);
    }
}

/// A position that holds a blank, or the end of `s`, with no blank between
/// `from` and it, is where stepping over a word stops.
pub proof fn lemma_word_end(s: Seq<char>, from: int, at: int)
    requires
        0 <= from <= at <= s.len(),
        forall|i: int| from <= i < at ==> !is_blank(#[trigger] s[i]),
        at < s.len() ==> is_blank(s[at]),
    ensures
        skip_word(s, from) == at,
    decreases at - from,
{
    if from < at {
        lemma_word_end(s, from + 1, at);
    }
}

/// A number in decimal is one or more digits that write that number: reading
/// what was written gives the number back.
pub proof fn lemma_decimal_reads_back(v: nat)
    ensures
        is_digits(decimal(v)),
        digits_value(decimal(v)) == v,
        unsigned_part(decimal(v)) == decimal(v),
        v <= usize::MAX ==> number_of(decimal(v)) == Some(v as usize),
    decreases v,
{
    let all = decimal(v);
    if v >= 10 {
        lemma_decimal_reads_back(v / 10);
        let head = decimal(v / 10);
        assert(all.drop_last() =~= head);
        assert forall|i: int| 0 <= i < all.len() implies is_decimal_digit(#[trigger] all[i]) by {}
    } else {
        assert(digits_value(all.drop_last()) == 0);
    }
}

/// A number in padded hexadecimal has as many digits as were asked for.
pub proof fn lemma_hex_padded_len(v: nat, width: nat)
    ensures
        hex_padded(v, width).len() == width,
    decreases width,
{
    if width > 0 {
        lemma_hex_padded_len(v / 16, (width - 1) as nat);
    }
}

/// The characters of a string, in a vector.
pub fn to_chars(s: &str) -> (out: Vec<char>)
    ensures
        out@ == s@,
{
    let mut out: Vec<char> = Vec::new();
    for c in it: s.chars()
        invariant
            out@ == it.seq().take(it.index() as int),
    {
        out.push(c);
    }
    out
}

/// The character of `text` at `i`.
pub fn char_at(text: &Vec<char>, i: usize) -> (c: char)
    requires
        i < text@.len(),
    ensures
        c == text@[i as int],
{
    text[i]
}

/// The one-character string that writes the digit `d`.
fn digit_str(d: u8) -> (s: &'static str)
    requires
        d < 16,
    ensures
        s@ == seq![digit_char(d as nat)],
{
    proof {
        reveal_strlit("0");
        reveal_strlit("1");
        reveal_strlit("2");
        reveal_strlit("3");
        reveal_strlit("4");
        reveal_strlit("5");
        reveal_strlit("6");
        reveal_strlit("7");
        reveal_strlit("8");
        reveal_strlit("9");
        reveal_strlit("a");
        reveal_strlit("b");
        reveal_strlit("c");
        reveal_strlit("d");
        reveal_strlit("e");
        reveal_strlit("f");
    }
    let s = match d {
        0 => "0",
        1 => "1",
        2 => "2",
        3 => "3",
        4 => "4",
        5 => "5",
        6 => "6",
        7 => "7",
        8 => "8",
        9 => "9",
        10 => "a",
        11 => "b",
        12 => "c",
        13 => "d",
        14 => "e",
        _ => "f",
    };
    s
}

/// The character that writes the digit `d`.
fn digit_of(d: u8) -> (c: char)
    requires
        d < 16,
    ensures
        c == digit_char(d as nat),
{
    match d {
        0 => '0',
        1 => '1',
        2 => '2',
        3 => '3',
        4 => '4',
        5 => '5',
        6 => '6',
        7 => '7',
        8 => '8',
        9 => '9',
        10 => 'a',
        11 => 'b',
        12 => 'c',
        13 => 'd',
        14 => 'e',
        _ => 'f',
    }
}

/// The characters that write the digits of `digits`.
spec fn digit_chars(digits: Seq<u8>) -> Seq<char> {
    Seq::new(digits.len(), |i: int| digit_char(digits[i] as nat))
}

/// The decimal digits of `v`, least significant first.
fn decimal_digits_reversed(v: u64) -> (rev: Vec<u8>)
    ensures
        digit_chars(rev@.reverse()) == decimal(v as nat),
        rev@.len() >= 1,
        forall|i: int| 0 <= i < rev@.len() ==> rev@[i] < 10,
{
    let mut rev: Vec<u8> = Vec::new();
    rev.push((v % 10) as u8);
    let mut rest: u64 = v / 10;
    while rest > 0
        invariant
            rev@.len() >= 1,
            forall|i: int| 0 <= i < rev@.len() ==> rev@[i] < 10,
            decimal(v as nat) == leading_decimal(rest as nat) + digit_chars(rev@.reverse()),
        decreases rest,
    {
        let d: u8 = (rest % 10) as u8;
        rev.push(d);
        rest = rest / 10;
    }
    rev
}

/// `v` in decimal, but nothing for zero: the digits still to be written in
/// front of those already found.
spec fn leading_decimal(v: nat) -> Seq<char> {
    if v == 0 {
        Seq::empty()
    } else {
        decimal(v)
    }
}

/// `v` in hexadecimal, but nothing for zero: the digits still to be written
/// in front of those already found.
spec fn leading_hex(v: nat) -> Seq<char> {
    if v == 0 {
        Seq::empty()
    } else {
        hex(v)
    }
}

/// Appends `v` in decimal to `s`.
pub fn push_decimal(s: &mut String, v: u64)
    ensures
        final(s)@ == old(s)@ + decimal(v as nat),
{
    let rev = decimal_digits_reversed(v);
    let mut k: usize = rev.len();
    while k > 0
        invariant
            k <= rev@.len(),
            forall|i: int| 0 <= i < rev@.len() ==> rev@[i] < 10,
            s@ == old(s)@ + digit_chars(rev@.reverse().take(rev@.len() - k)),
        decreases k,
    {
        k = k - 1;
        let d = rev[k];
        s.append(digit_str(d));
    }
}

/// `v` in decimal.
pub fn decimal_string(v: u64) -> (s: String)
    ensures
        s@ == decimal(v as nat),
{
    let mut s = String::new();
    push_decimal(&mut s, v);
    s
}

/// The hexadecimal digits of `v`, without padding.
pub fn hex_chars(v: u64) -> (out: Vec<char>)
    ensures
        out@ == hex(v as nat),
{
    let mut rev: Vec<char> = Vec::new();
    rev.push(digit_of((v % 16) as u8));
    let mut rest: u64 = v / 16;
    while rest > 0
        invariant
            rev@.len() >= 1,
            hex(v as nat) == leading_hex(rest as nat) + rev@.reverse(),
        decreases rest,
    {
        let c = digit_of((rest % 16) as u8);
        rev.push(c);
        rest = rest / 16;
    }
    let mut out: Vec<char> = Vec::new();
    let mut k: usize = rev.len();
    while k > 0
        invariant
            k <= rev@.len(),
            out@ == rev@.reverse().take(rev@.len() - k),
        decreases k,
    {
        k = k - 1;
        out.push(rev[k]);
    }
    out
}

/// `v` in sixteen hexadecimal digits, padded with zeros on the left.
pub fn hex16(v: u64) -> (s: String)
    ensures
        s@ == hex_padded(v as nat, 16),
{
    let mut digits: Vec<u8> = Vec::new();
    let mut rest: u64 = v;
    let mut n: usize = 0;
    while n < 16
        invariant
            n <= 16,
            digits@.len() == n,
            forall|i: int| 0 <= i < digits@.len() ==> digits@[i] < 16,
            hex_padded(v as nat, 16) == hex_padded(rest as nat, (16 - n) as nat) + digit_chars(
                digits@.reverse(),
            ),
        decreases 16 - n,
    {
        let d: u8 = (rest % 16) as u8;
        digits.push(d);
        rest = rest / 16;
        n = n + 1;
    }
    let mut s = String::new();
    let mut k: usize = 16;
    while k > 0
        invariant
            k <= 16,
            digits@.len() == 16,
            forall|i: int| 0 <= i < digits@.len() ==> digits@[i] < 16,
            s@ == digit_chars(digits@.reverse().take(16 - k)),
        decreases k,
    {
        k = k - 1;
        let d = digits[k];
        s.append(digit_str(d));
    }
    s
}

/// Finds the first `c` in `s` at or after `from`.
pub fn find_char(s: &Vec<char>, c: char, from: usize) -> (at: usize)
    ensures
        at == position_of(s@, c, from as int),
        from <= s@.len() ==> from <= at,
        at <= s@.len(),
{
    let mut i: usize = from;
    while i < s.len() && s[i] != c
        invariant
            from <= i,
            position_of(s@, c, from as int) == position_of(s@, c, i as int),
        decreases s@.len() - i,
    {
        i = i + 1;
    }
    if i > s.len() {
        s.len()
    } else {
        i
    }
}

/// Whether `c` separates words.
pub fn blank(c: char) -> (b: bool)
    ensures
        b == is_blank(c),
{
    c == ' ' || c == '\t' || c == '\n' || c == '\x0b' || c == '\x0c' || c == '\r'
}

/// Steps over the blanks of `s[..end]` that start at `from`.
pub fn after_blanks(s: &Vec<char>, from: usize, end: usize) -> (at: usize)
    requires
        from <= end <= s@.len(),
    ensures
        at == skip_blanks(s@.take(end as int), from as int),
        from <= at <= end,
{
    let mut i: usize = from;
    while i < end && blank(s[i])
        invariant
            from <= i <= end <= s@.len(),
            skip_blanks(s@.take(end as int), from as int) == skip_blanks(
                s@.take(end as int),
                i as int,
            ),
        decreases end - i,
    {
        i = i + 1;
    }
    i
}

/// Steps over the word of `s[..end]` that starts at `from`.
pub fn after_word(s: &Vec<char>, from: usize, end: usize) -> (at: usize)
    requires
        from <= end <= s@.len(),
    ensures
        at == skip_word(s@.take(end as int), from as int),
        from <= at <= end,
{
    let mut i: usize = from;
    while i < end && !blank(s[i])
        invariant
            from <= i <= end <= s@.len(),
            skip_word(s@.take(end as int), from as int) == skip_word(
                s@.take(end as int),
                i as int,
            ),
        decreases end - i,
    {
        i = i + 1;
    }
    i
}

/// A longer run of digits writes a number at least as large as any of its
/// beginnings.
pub proof fn lemma_digits_value_grows(s: Seq<char>, n: int)
    requires
        0 <= n <= s.len(),
        forall|i: int| 0 <= i < s.len() ==> is_decimal_digit(#[trigger] s[i]),
    ensures
        digits_value(s.take(n)) <= digits_value(s),
    decreases s.len(),
{
    if n == s.len() {
        assert(s.take(n) =~= s);
    } else {
        assert(s.drop_last().take(n) =~= s.take(n));
        lemma_digits_value_grows(s.drop_last(), n);
    }
}

/// Reads `s[from..to]` as a number.
pub fn parse_number(s: &Vec<char>, from: usize, to: usize) -> (r: Option<usize>)
    requires
        from <= to <= s@.len(),
    ensures
        r == number_of(s@.subrange(from as int, to as int)),
{
    let ghost word = s@.subrange(from as int, to as int);
    let start: usize = if from < to && s[from] == '+' {
        from + 1
    } else {
        from
    };
    let ghost digits = unsigned_part(word);
    if start == to {
        return None;
    }
    let mut acc: usize = 0;
    let mut i: usize = start;
    while i < to
        invariant
            start <= i <= to <= s@.len(),
            start < to,
            digits == s@.subrange(start as int, to as int),
            digits == unsigned_part(s@.subrange(from as int, to as int)),
            forall|j: int| 0 <= j < i - start ==> is_decimal_digit(#[trigger] digits[j]),
            acc == digits_value(digits.take(i - start)),
        decreases to - i,
    {
        let c = s[i];
        if !(c >= '0' && c <= '9') {
            assert(!is_decimal_digit(digits[i - start]));
            return None;
        }
        let d: usize = (c as u32 - 48) as usize;
        let ghost next = digits.take(i - start + 1);
        proof {
            assert(next.drop_last() =~= digits.take(i - start));
        }
        let grown = match acc.checked_mul(10) {
            Some(m) => m.checked_add(d),
            None => None,
        };
        match grown {
            Some(g) => {
                acc = g;
            },
            None => {
                proof {
                    if is_digits(digits) {
                        lemma_digits_value_grows(digits, i - start + 1);
                    }
                }
                return None;
            },
        }
        i = i + 1;
    }
    assert(digits.take(to - start) =~= digits);
    Some(acc)
}

/// Whether `s` starts with `head`.
pub fn has_prefix(s: &Vec<char>, head: &Vec<char>) -> (b: bool)
    ensures
        b == starts_with(s@, head@),
{
    if head.len() > s.len() {
        return false;
    }
    let mut i: usize = 0;
    while i < head.len()
        invariant
            i <= head@.len() <= s@.len(),
            s@.subrange(0, i as int) == head@.subrange(0, i as int),
        decreases head@.len() - i,
    {
        if char_at(s, i) != char_at(head, i) {
            return false;
        }
        i = i + 1;
    }
    assert(head@.subrange(0, i as int) =~= head@);
    true
}

/// Whether the first `end` characters of `s` end with `tail`.
pub fn has_suffix(s: &Vec<char>, end: usize, tail: &Vec<char>) -> (b: bool)
    requires
        end <= s@.len(),
    ensures
        b == ends_with(s@.take(end as int), tail@),
{
    let n = tail.len();
    if n > end {
        return false;
    }
    let start: usize = end - n;
    let ghost part = s@.take(end as int).subrange(end - n, end as int);
    let mut i: usize = 0;
    while i < n
        invariant
            i <= n == tail@.len(),
            n <= end <= s@.len(),
            start == end - n,
            part == s@.take(end as int).subrange(end - n, end as int),
            part.subrange(0, i as int) == tail@.subrange(0, i as int),
        decreases n - i,
    {
        if char_at(s, start + i) != char_at(tail, i) {
            return false;
        }
        i = i + 1;
    }
    assert(part.subrange(0, n as int) =~= part);
    assert(tail@.subrange(0, n as int) =~= tail@);
    true
}

} // verus!
