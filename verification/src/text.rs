//! Text: decimal numerals, words and concatenation, over `Seq<char>`.

use vstd::arithmetic::{div_mod, power};
use vstd::prelude::*;
use vstd::string::*;

verus! {

/// The text of an optional string.
pub open spec fn opt_text(s: Option<String>) -> Option<Seq<char>> {
    match s {
        Some(t) => Some(t@),
        None => None,
    }
}

/// The texts of a sequence of strings.
pub open spec fn texts(s: Seq<String>) -> Seq<Seq<char>> {
    s.map_values(|t: String| t@)
}

/// The character of one decimal digit.
pub open spec fn digit_char(d: nat) -> char {
    (48 + d) as char
}

/// The decimal numeral of `n`, without leading zeros.
pub open spec fn decimal(n: nat) -> Seq<char>
    decreases n,
{
    if n < 10 {
        seq![digit_char(n)]
    } else {
        decimal(n / 10).push(digit_char(n % 10))
    }
}

/// Is `c` one of the digits `0` to `9`?
pub open spec fn is_digit(c: char) -> bool {
    '0' <= c <= '9'
}

/// Is `s` a non-empty run of decimal digits?
pub open spec fn is_numeral(s: Seq<char>) -> bool {
    s.len() > 0 && forall|i: int| 0 <= i < s.len() ==> is_digit(#[trigger] s[i])
}

/// The value of a run of decimal digits, most significant first.
pub open spec fn numeral_value(s: Seq<char>) -> int
    decreases s.len(),
{
    if s.len() == 0 {
        0
    } else {
        10 * numeral_value(s.drop_last()) + (s.last() as int - 48)
    }
}

/// The digits of an unsigned number: what follows one optional leading `+`.
pub open spec fn unsigned_digits(s: Seq<char>) -> Seq<char> {
    if s.len() > 0 && s[0] == '+' {
        s.skip(1)
    } else {
        s
    }
}

/// What `s` says as a `u32`: an optional `+`, then a numeral that fits.
pub open spec fn parsed_u32(s: Seq<char>) -> Option<u32> {
    let digits = unsigned_digits(s);
    if is_numeral(digits) && numeral_value(digits) <= u32::MAX {
        Some(numeral_value(digits) as u32)
    } else {
        None
    }
}

/// Does `c` have the Unicode property `White_Space`?
pub open spec fn is_space(c: char) -> bool {
    let n = c as int;
    ||| 9 <= n <= 13
    ||| n == 0x20
    ||| n == 0x85
    ||| n == 0xA0
    ||| n == 0x1680
    ||| 0x2000 <= n <= 0x200A
    ||| 0x2028 <= n <= 0x2029
    ||| n == 0x202F
    ||| n == 0x205F
    ||| n == 0x3000
}

/// `s` without its leading white space.
pub open spec fn skip_spaces(s: Seq<char>) -> Seq<char>
    decreases s.len(),
{
    if s.len() > 0 && is_space(s[0]) {
        skip_spaces(s.skip(1))
    } else {
        s
    }
}

/// The longest prefix of `s` that holds no white space.
pub open spec fn word_prefix(s: Seq<char>) -> Seq<char>
    decreases s.len(),
{
    if s.len() == 0 || is_space(s[0]) {
        Seq::empty()
    } else {
        seq![s[0]] + word_prefix(s.skip(1))
    }
}

/// The first word of `s`, words being separated by white space.
pub open spec fn first_word(s: Seq<char>) -> Option<Seq<char>> {
    if skip_spaces(s).len() == 0 {
        None
    } else {
        Some(word_prefix(skip_spaces(s)))
    }
}

/// The number that the first word of `s` spells.
pub open spec fn leading_number(s: Seq<char>) -> Option<u32> {
    match first_word(s) {
        Some(w) => parsed_u32(w),
        None => None,
    }
}

/// Do `a` and `b` hold the same characters?
pub fn same_text(a: &str, b: &str) -> (r: bool)
    ensures
        r == (a@ == b@),
{
    a.to_owned() == b.to_owned()
}

/// A copy of an optional string.
pub(crate) fn copy_opt(s: &Option<String>) -> (r: Option<String>)
    ensures
        r == *s,
{
    match s {
        Some(t) => Some(t.clone()),
        None => None,
    }
}

/// A copy of a list of strings.
pub(crate) fn copy_all(s: &Vec<String>) -> (r: Vec<String>)
    ensures
        r@ == s@,
{
    let mut out: Vec<String> = Vec::new();
    for i in 0..s.len()
        invariant
            out@ == s@.take(i as int),
    {
        out.push(s[i].clone());
        assert(s@.take(i as int + 1) =~= s@.take(i as int).push(s@[i as int]));
    }
    assert(s@.take(s@.len() as int) =~= s@);
    out
}

fn digit_text(d: u64) -> (r: &'static str)
    requires
        d < 10,
    ensures
        r@ == seq![digit_char(d as nat)],
{
    proof {
        reveal_strlit("0");
        reveal_strlit("1");
        reveal_strlit("2");
        reveal_strlit("3");
        reveal_strlit("4");
        reveal_strlit("5");
        reveal_strlit("6");
        reveal_strlit("7");
        reveal_strlit("8");
        reveal_strlit("9");
    }
    match d {
        0 => "0",
        1 => "1",
        2 => "2",
        3 => "3",
        4 => "4",
        5 => "5",
        6 => "6",
        7 => "7",
        8 => "8",
        _ => "9",
    }
}

/// The decimal numeral of `n`.
pub fn decimal_text(n: u64) -> (r: String)
    ensures
        r@ == decimal(n as nat),
    decreases n,
{
    if n < 10 {
        digit_text(n).to_owned()
    } else {
        let mut s = decimal_text(n / 10);
        s.append(digit_text(n % 10));
        s
    }
}

/// The characters of `s`.
fn characters(s: &str) -> (r: Vec<char>)
    ensures
        r@ == s@,
{
    let mut out: Vec<char> = Vec::new();
    for c in it: s.chars()
        invariant
            it.seq() == s@,
            out@ == s@.take(it.index()),
    {
        out.push(c);
        assert(s@.take(it.index() + 1) =~= s@.take(it.index()).push(c));
    }
    assert(s@.take(s@.len() as int) =~= s@);
    out
}

fn is_space_char(c: char) -> (r: bool)
    ensures
        r == is_space(c),
{
    let n: u32 = c as u32;
    (9 <= n && n <= 13) || n == 0x20 || n == 0x85 || n == 0xA0 || n == 0x1680 || (0x2000 <= n && n
        <= 0x200A) || (0x2028 <= n && n <= 0x2029) || n == 0x202F || n == 0x205F || n == 0x3000
}

/// The number that the first word of `message` spells, as `u32` parsing reads it.
pub fn leading_u32(message: &str) -> (r: Option<u32>)
    ensures
        r == leading_number(message@),
{
    let cs = characters(message);
    let mut start: usize = 0;
    assert(cs@.skip(0) =~= cs@);
    while start < cs.len() && is_space_char(cs[start])
        invariant
            start <= cs@.len(),
            skip_spaces(cs@) == skip_spaces(cs@.skip(start as int)),
        decreases cs@.len() - start,
    {
        assert(cs@.skip(start as int).skip(1) =~= cs@.skip(start as int + 1));
        start = start + 1;
    }
    if start == cs.len() {
        return None;
    }
    let ghost rest = cs@.skip(start as int);
    let mut end: usize = start;
    while end < cs.len() && !is_space_char(cs[end])
        invariant
            start <= end <= cs@.len(),
            rest == cs@.skip(start as int),
            word_prefix(rest) =~= rest.take(end - start) + word_prefix(cs@.skip(end as int)),
        decreases cs@.len() - end,
    {
        assert(cs@.skip(end as int).skip(1) =~= cs@.skip(end as int + 1));
        assert(rest.take(end - start + 1) =~= rest.take(end - start).push(cs@[end as int]));
        end = end + 1;
    }
    assert(word_prefix(cs@.skip(end as int)) =~= Seq::empty());
    let ghost word = rest.take(end - start);
    assert(first_word(message@) == Some(word));
    let mut at: usize = start;
    if cs[start] == '+' {
        at = start + 1;
    }
    let ghost digits = unsigned_digits(word);
    let first: usize = at;
    assert(digits =~= cs@.subrange(first as int, end as int));
    if first == end {
        return None;
    }
    let mut value: u32 = 0;
    while at < end
        invariant
            first <= at <= end <= cs@.len(),
            digits == cs@.subrange(first as int, end as int),
            forall|i: int| 0 <= i < at - first ==> is_digit(#[trigger] digits[i]),
            value == numeral_value(digits.take(at - first)),
            parsed_u32(word) == leading_number(message@),
            digits == unsigned_digits(word),
        decreases end - at,
    {
        let c = cs[at];
        let ghost i = at - first;
        assert(digits[i] == c);
        if c < '0' || '9' < c {
            return None;
        }
        let d: u32 = c as u32 - 48;
        assert(digits.take(i + 1).drop_last() =~= digits.take(i));
        let next: u64 = value as u64 * 10 + d as u64;
        assert(next == numeral_value(digits.take(i + 1)));
        if next > u32::MAX as u64 {
            proof {
                lemma_value_grows(digits, i + 1);
            }
            return None;
        }
        value = next as u32;
        at = at + 1;
    }
    assert(digits.take(end - first) =~= digits);
    Some(value)
}

/// A run that starts with a numeral above `u32` is no `u32`.
proof fn lemma_value_grows(s: Seq<char>, i: int)
    requires
        0 <= i <= s.len(),
        numeral_value(s.take(i)) > u32::MAX,
    ensures
        !(is_numeral(s) && numeral_value(s) <= u32::MAX),
    decreases s.len() - i,
{
    assert(s.take(s.len() as int) =~= s);
    if i < s.len() && is_numeral(s) {
        assert(s.take(i + 1).drop_last() =~= s.take(i));
        assert(is_digit(s[i]));
        lemma_value_grows(s, i + 1);
    }
}

/// The numeral of `n` is a numeral, and its value is `n`.
pub proof fn lemma_decimal_value(n: nat)
    ensures
        is_numeral(decimal(n)),
        numeral_value(decimal(n)) == n,
    decreases n,
{
    if n < 10 {
        assert(decimal(n).drop_last() =~= Seq::empty());
        assert(numeral_value(Seq::empty()) == 0);
    } else {
        lemma_decimal_value(n / 10);
        assert(decimal(n).drop_last() =~= decimal(n / 10));
        assert forall|i: int| 0 <= i < decimal(n).len() implies is_digit(#[trigger] decimal(n)[i]) by {
            if i < decimal(n).len() - 1 {
                assert(decimal(n)[i] == decimal(n / 10)[i]);
            }
        }
    }
}

/// A word followed by white space is the longest prefix without white space.
proof fn lemma_word_prefix(word: Seq<char>, rest: Seq<char>)
    requires
        forall|i: int| 0 <= i < word.len() ==> !is_space(#[trigger] word[i]),
        rest.len() > 0,
        is_space(rest[0]),
    ensures
        word_prefix(word + rest) == word,
    decreases word.len(),
{
    if word.len() == 0 {
        assert(word + rest =~= rest);
    } else {
        assert((word + rest)[0] == word[0]);
        assert((word + rest).skip(1) =~= word.skip(1) + rest);
        assert forall|i: int| 0 <= i < word.skip(1).len() implies !is_space(
            #[trigger] word.skip(1)[i],
        ) by {
            assert(word.skip(1)[i] == word[i + 1]);
        }
        lemma_word_prefix(word.skip(1), rest);
        assert(seq![word[0]] + word.skip(1) =~= word);
    }
}

/// A text that opens with the numeral of `n`, then white space, is read as `n`.
pub proof fn lemma_leading_decimal(n: u32, rest: Seq<char>)
    requires
        rest.len() > 0,
        is_space(rest[0]),
    ensures
        leading_number(decimal(n as nat) + rest) == Some(n),
{
    let numeral = decimal(n as nat);
    lemma_decimal_value(n as nat);
    assert(is_digit(numeral[0]));
    assert((numeral + rest)[0] == numeral[0]);
    assert(skip_spaces(numeral + rest) == numeral + rest);
    assert forall|i: int| 0 <= i < numeral.len() implies !is_space(#[trigger] numeral[i]) by {
        assert(is_digit(numeral[i]));
    }
    lemma_word_prefix(numeral, rest);
    assert(unsigned_digits(numeral) == numeral);
}

/// The digit of the numeral of `n` that stands `i` places from its end is the
/// remainder by ten of `n` divided by the `i`-th power of ten.
pub proof fn law_numeral_digits(n: nat, i: nat)
    requires
        i < decimal(n).len(),
    ensures
        decimal(n)[decimal(n).len() - 1 - i] as int == 48 + (n as int / power::pow(10, i)) % 10,
    decreases i,
{
    power::lemma_pow0(10);
    if n < 10 {
        assert(n as int / 1 == n);
    } else if i == 0 {
        assert(n as int / 1 == n);
    } else {
        let j = (i - 1) as nat;
        law_numeral_digits(n / 10, j);
        power::lemma_pow_positive(10, j);
        assert(power::pow(10, i) == 10 * power::pow(10, j)) by {
            reveal(power::pow);
        }
        div_mod::lemma_div_denominator(n as int, 10, power::pow(10, j));
        assert(decimal(n)[decimal(n).len() - 1 - i] == decimal(n / 10)[decimal(n / 10).len() - 1
            - j]);
    }
}

/// The numeral of a number has as many digits as the number asks for: no zero
/// leads it, but for the number zero itself.
pub proof fn law_numeral_length(n: nat)
    ensures
        decimal(n).len() > 0,
        n as int / power::pow(10, decimal(n).len()) == 0,
        decimal(n).len() > 1 ==> decimal(n)[0] != '0',
        decimal(n) == seq!['0'] <==> n == 0,
    decreases n,
{
    reveal(power::pow);
    if n < 10 {
        power::lemma_pow1(10);
        assert(decimal(n)[0] as int == 48 + n);
        assert(n as int / 10 == 0);
        if n == 0 {
            assert(decimal(n) =~= seq!['0']);
        } else {
            assert(decimal(n)[0] != seq!['0'][0]);
        }
    } else {
        let shorter = decimal(n / 10);
        law_numeral_length(n / 10);
        power::lemma_pow_positive(10, shorter.len());
        div_mod::lemma_div_denominator(n as int, 10, power::pow(10, shorter.len()));
        assert(power::pow(10, decimal(n).len()) == 10 * power::pow(10, shorter.len()));
        assert(decimal(n)[0] == shorter[0]);
        assert(decimal(n).len() == shorter.len() + 1);
        if shorter.len() == 1 {
            assert(shorter =~= seq![shorter[0]]);
            assert(shorter != seq!['0']);
        }
        assert(decimal(n).len() > seq!['0'].len());
    }
}

/// Two numbers with the same numeral are the same number.
pub proof fn law_numerals_are_distinct(m: nat, n: nat)
    ensures
        decimal(m) == decimal(n) ==> m == n,
{
    lemma_decimal_value(m);
    lemma_decimal_value(n);
}

/// A run of digits that no zero leads is the numeral of its value.
pub proof fn law_value_of_a_numeral(s: Seq<char>)
    requires
        s.len() > 0,
        forall|i: int| 0 <= i < s.len() ==> '0' <= #[trigger] s[i] <= '9',
        s.len() == 1 || s[0] != '0',
    ensures
        numeral_value(s) >= 0,
        decimal(numeral_value(s) as nat) == s,
    decreases s.len(),
{
    let init = s.drop_last();
    assert('0' <= s.last() <= '9');
    if s.len() == 1 {
        assert(init =~= Seq::empty());
        assert(numeral_value(init) == 0);
        assert(decimal(numeral_value(s) as nat) =~= s);
    } else {
        assert forall|i: int| 0 <= i < init.len() implies '0' <= #[trigger] init[i] <= '9' by {
            assert(init[i] == s[i]);
        }
        assert(init[0] == s[0]);
        law_value_of_a_numeral(init);
        let v = numeral_value(init);
        if v == 0 {
            assert(decimal(0) =~= seq!['0']);
            assert(init[0] == '0');
        }
        assert(numeral_value(s) / 10 == v);
        assert(numeral_value(s) % 10 == s.last() as int - 48);
        assert(decimal(numeral_value(s) as nat) =~= init.push(s.last()));
        assert(init.push(s.last()) =~= s);
    }
}

/// A zero in front of digits leaves their value as it is.
pub proof fn law_leading_zero_counts_nothing(s: Seq<char>)
    ensures
        numeral_value(seq!['0'] + s) == numeral_value(s),
    decreases s.len(),
{
    let t = seq!['0'] + s;
    if s.len() == 0 {
        assert(t.drop_last() =~= Seq::empty());
        assert(numeral_value(t.drop_last()) == 0);
    } else {
        law_leading_zero_counts_nothing(s.drop_last());
        assert(t.drop_last() =~= seq!['0'] + s.drop_last());
        assert(t.last() == s.last());
    }
}

/// Every number of 32 bits is read back from its numeral, with a plus sign or
/// without; a larger one is not read.
pub proof fn law_numeral_is_read_back(n: nat)
    ensures
        n <= u32::MAX ==> parsed_u32(decimal(n)) == Some(n as u32),
        n <= u32::MAX ==> parsed_u32(seq!['+'] + decimal(n)) == Some(n as u32),
        n > u32::MAX ==> parsed_u32(decimal(n)) is None,
        n > u32::MAX ==> parsed_u32(seq!['+'] + decimal(n)) is None,
{
    lemma_decimal_value(n);
    assert(is_digit(decimal(n)[0]));
    assert((seq!['+'] + decimal(n)).skip(1) =~= decimal(n));
}

/// Only digits are read as a number, behind one plus sign at most, and at least
/// one of them; zeros in front of them count nothing.
pub proof fn law_only_digits_are_read(s: Seq<char>)
    ensures
        parsed_u32(s) is Some ==> {
            &&& s.len() > 0
            &&& s[0] == '+' ==> s.len() > 1
            &&& forall|i: int|
                0 <= i < s.len() ==> '0' <= #[trigger] s[i] <= '9' || (i == 0 && s[i] == '+')
        },
        s.len() > 0 && s[0] != '+' ==> parsed_u32(seq!['0'] + s) == parsed_u32(s),
        s.len() > 0 && s[0] != '+' ==> parsed_u32(seq!['+'] + s) == parsed_u32(s),
{
    let digits = unsigned_digits(s);
    if parsed_u32(s) is Some {
        assert forall|i: int| 0 <= i < s.len() implies '0' <= #[trigger] s[i] <= '9' || (i == 0
            && s[i] == '+') by {
            if s[0] == '+' {
                if i > 0 {
                    assert(is_digit(digits[i - 1]));
                }
            } else {
                assert(is_digit(digits[i]));
            }
        }
    }
    if s.len() > 0 && s[0] != '+' {
        assert((seq!['+'] + s).skip(1) =~= s);
        let t = seq!['0'] + s;
        law_leading_zero_counts_nothing(s);
        assert(t[0] == '0');
        assert forall|i: int| 0 <= i < s.len() implies t[i + 1] == #[trigger] s[i] by {
        }
        if is_numeral(t) {
            assert forall|i: int| 0 <= i < s.len() implies is_digit(#[trigger] s[i]) by {
                assert(is_digit(t[i + 1]));
            }
        }
        if is_numeral(s) {
            assert forall|i: int| 0 <= i < t.len() implies is_digit(#[trigger] t[i]) by {
                if i > 0 {
                    assert(t[i] == s[i - 1]);
                }
            }
        }
    }
}

/// White space is the horizontal and the vertical tab, the line and the form
/// feed, the carriage return, the blank, the next line, the no-break spaces
/// and the spaces and separators of other scripts; nothing else.
pub proof fn law_white_space(c: char)
    ensures
        is_space(c) <==> seq![
            0x9int, 0xA, 0xB, 0xC, 0xD, 0x20, 0x85, 0xA0, 0x1680, 0x2000, 0x2001, 0x2002, 0x2003,
            0x2004, 0x2005, 0x2006, 0x2007, 0x2008, 0x2009, 0x200A, 0x2028, 0x2029, 0x202F, 0x205F,
            0x3000,
        ].contains(c as int),
{
    let all = seq![
        0x9int, 0xA, 0xB, 0xC, 0xD, 0x20, 0x85, 0xA0, 0x1680, 0x2000, 0x2001, 0x2002, 0x2003,
        0x2004, 0x2005, 0x2006, 0x2007, 0x2008, 0x2009, 0x200A, 0x2028, 0x2029, 0x202F, 0x205F,
        0x3000,
    ];
    let n = c as int;
    if is_space(c) {
        let at: int = if n <= 13 {
            n - 9
        } else if n == 0x20 {
            5
        } else if n == 0x85 {
            6
        } else if n == 0xA0 {
            7
        } else if n == 0x1680 {
            8
        } else if n <= 0x200A {
            n - 0x2000 + 9
        } else if n <= 0x2029 {
            n - 0x2028 + 20
        } else if n == 0x202F {
            22
        } else if n == 0x205F {
            23
        } else {
            24
        };
        assert(all[at] == n);
    }
}

proof fn lemma_blanks_are_skipped(blanks: Seq<char>, rest: Seq<char>)
    requires
        forall|i: int| 0 <= i < blanks.len() ==> is_space(#[trigger] blanks[i]),
        rest.len() == 0 || !is_space(rest[0]),
    ensures
        skip_spaces(blanks + rest) == rest,
    decreases blanks.len(),
{
    if blanks.len() == 0 {
        assert(blanks + rest =~= rest);
    } else {
        assert((blanks + rest)[0] == blanks[0]);
        assert((blanks + rest).skip(1) =~= blanks.skip(1) + rest);
        assert forall|i: int| 0 <= i < blanks.skip(1).len() implies is_space(
            #[trigger] blanks.skip(1)[i],
        ) by {
            assert(blanks.skip(1)[i] == blanks[i + 1]);
        }
        lemma_blanks_are_skipped(blanks.skip(1), rest);
    }
}

proof fn lemma_word_alone(word: Seq<char>)
    requires
        forall|i: int| 0 <= i < word.len() ==> !is_space(#[trigger] word[i]),
    ensures
        word_prefix(word) == word,
    decreases word.len(),
{
    if word.len() > 0 {
        assert forall|i: int| 0 <= i < word.skip(1).len() implies !is_space(
            #[trigger] word.skip(1)[i],
        ) by {
            assert(word.skip(1)[i] == word[i + 1]);
        }
        lemma_word_alone(word.skip(1));
        assert(seq![word[0]] + word.skip(1) =~= word);
    } else {
        assert(word_prefix(word) =~= word);
    }
}

/// The number that a text opens with is what its first word spells, whatever
/// white space stands before that word and whatever follows behind it; a text
/// of white space alone opens with none.
pub proof fn law_first_word_is_read(blanks: Seq<char>, word: Seq<char>, rest: Seq<char>)
    requires
        forall|i: int| 0 <= i < blanks.len() ==> is_space(#[trigger] blanks[i]),
        forall|i: int| 0 <= i < word.len() ==> !is_space(#[trigger] word[i]),
        word.len() > 0,
        rest.len() == 0 || is_space(rest[0]),
    ensures
        first_word(blanks + word + rest) == Some(word),
        leading_number(blanks + word + rest) == parsed_u32(word),
        first_word(blanks) is None,
        leading_number(blanks) is None,
{
    assert((word + rest)[0] == word[0]);
    assert(blanks + word + rest =~= blanks + (word + rest));
    lemma_blanks_are_skipped(blanks, word + rest);
    if rest.len() == 0 {
        assert(word + rest =~= word);
        lemma_word_alone(word);
    } else {
        lemma_word_prefix(word, rest);
    }
    assert(blanks + Seq::<char>::empty() =~= blanks);
    lemma_blanks_are_skipped(blanks, Seq::empty());
}

/// A list of strings is told text by text, in its order, and an optional string
/// by its text where there is one.
pub proof fn law_texts_are_told_in_order(s: Seq<String>, i: int, t: Option<String>)
    requires
        0 <= i < s.len(),
    ensures
        texts(s).len() == s.len(),
        texts(s)[i] == s[i]@,
        opt_text(t) is Some <==> t is Some,
        t is Some ==> opt_text(t)->0 == t->0@,
{
}

} // verus!
