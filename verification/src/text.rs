//! Text: decimal numbers, white space, and bytes read as UTF-8.

use vstd::prelude::*;
use vstd::string::*;
use vstd::utf8::decode_utf8;
use vstd::utf8::encode_utf8_decode_utf8;
use vstd::utf8::valid_utf8;

verus! {

/// The character of one decimal digit.
pub open spec fn digit_char(d: nat) -> char {
    if d == 0 {
        '0'
    } else if d == 1 {
        '1'
    } else if d == 2 {
        '2'
    } else if d == 3 {
        '3'
    } else if d == 4 {
        '4'
    } else if d == 5 {
        '5'
    } else if d == 6 {
        '6'
    } else if d == 7 {
        '7'
    } else if d == 8 {
        '8'
    } else {
        '9'
    }
}

/// `n` written in decimal, without leading zeros.
pub open spec fn decimal(n: nat) -> Seq<char>
    decreases n,
{
    if n < 10 {
        seq![digit_char(n)]
    } else {
        decimal(n / 10).push(digit_char(n % 10))
    }
}

/// Appends the character of one decimal digit.
fn append_digit(text: &mut String, d: u64)
    requires
        d < 10,
    ensures
        final(text)@ == old(text)@.push(digit_char(d as nat)),
{
    proof {
        reveal_strlit("0");
        reveal_strlit("1");
        reveal_strlit("2");
        reveal_strlit("3");
        reveal_strlit("4");
        reveal_strlit("5");
        reveal_strlit("6");
        reveal_strlit("7");
        reveal_strlit("8");
        reveal_strlit("9");
    }
    let digit: &str = match d {
        0 => "0",
        1 => "1",
        2 => "2",
        3 => "3",
        4 => "4",
        5 => "5",
        6 => "6",
        7 => "7",
        8 => "8",
        _ => "9",
    };
    text.append(digit);
    assert(text@ =~= old(text)@.push(digit_char(d as nat)));
}

/// `n` written in decimal.
pub fn to_decimal(n: u64) -> (text: String)
    ensures
        text@ == decimal(n as nat),
    decreases n,
{
    if n < 10 {
        let mut text = String::from_str("");
        proof {
            reveal_strlit("");
        }
        append_digit(&mut text, n);
        assert(text@ =~= decimal(n as nat));
        text
    } else {
        let mut text = to_decimal(n / 10);
        append_digit(&mut text, n % 10);
        text
    }
}

/// Whether every character is a decimal digit.
pub open spec fn all_digits(s: Seq<char>) -> bool {
    forall|i: int| 0 <= i < s.len() ==> '0' <= #[trigger] s[i] <= '9'
}

/// The number that a sequence of decimal digits stands for.
pub open spec fn digits_value(s: Seq<char>) -> nat
    decreases s.len(),
{
    if s.len() == 0 {
        0
    } else {
        digits_value(s.drop_last()) * 10 + (s.last() as nat - '0' as nat) as nat
    }
}

/// A decimal number reads back as itself.
pub proof fn law_decimal_reads_back(n: nat)
    ensures
        decimal(n).len() > 0,
        all_digits(decimal(n)),
        digits_value(decimal(n)) == n,
    decreases n,
{
    if n < 10 {
        assert(decimal(n).drop_last() =~= Seq::<char>::empty());
        assert(digits_value(Seq::<char>::empty()) == 0);
    } else {
        law_decimal_reads_back(n / 10);
        assert(decimal(n).drop_last() =~= decimal(n / 10));
        assert(decimal(n).last() == digit_char(n % 10));
    }
}

/// Different numbers are written differently.
pub proof fn law_decimal_injective(a: nat, b: nat)
    requires
        decimal(a) == decimal(b),
    ensures
        a == b,
{
    law_decimal_reads_back(a);
    law_decimal_reads_back(b);
}

/// Whether a character has the Unicode property `White_Space`.
pub open spec fn is_white_space(c: char) -> bool {
    let u = c as u32;
    ||| 0x9 <= u <= 0xd
    ||| u == 0x20
    ||| u == 0x85
    ||| u == 0xa0
    ||| u == 0x1680
    ||| 0x2000 <= u <= 0x200a
    ||| u == 0x2028
    ||| u == 0x2029
    ||| u == 0x202f
    ||| u == 0x205f
    ||| u == 0x3000
}

/// `s` without the white space in front.
pub open spec fn trim_start(s: Seq<char>) -> Seq<char>
    decreases s.len(),
{
    if s.len() > 0 && is_white_space(s.first()) {
        trim_start(s.drop_first())
    } else {
        s
    }
}

/// `s` without the white space at the end.
pub open spec fn trim_end(s: Seq<char>) -> Seq<char>
    decreases s.len(),
{
    if s.len() > 0 && is_white_space(s.last()) {
        trim_end(s.drop_last())
    } else {
        s
    }
}

/// `s` without the white space around it.
pub open spec fn trimmed(s: Seq<char>) -> Seq<char> {
    trim_end(trim_start(s))
}

/// The number that `s` stands for, if it is a decimal number of 16 bits: one
/// or more digits, with an optional plus sign in front.
pub open spec fn u16_value(s: Seq<char>) -> Option<u16> {
    let digits = if s.len() > 0 && s.first() == '+' {
        s.drop_first()
    } else {
        s
    };
    if digits.len() > 0 && all_digits(digits) && digits_value(digits) <= u16::MAX {
        Some(digits_value(digits) as u16)
    } else {
        None
    }
}

fn white_space(c: char) -> (white: bool)
    ensures
        white == is_white_space(c),
{
    let u: u32 = c as u32;
    (0x9 <= u && u <= 0xd) || u == 0x20 || u == 0x85 || u == 0xa0 || u == 0x1680 || (0x2000 <= u
        && u <= 0x200a) || u == 0x2028 || u == 0x2029 || u == 0x202f || u == 0x205f || u == 0x3000
}

/// The characters of a text.
fn to_chars(s: &str) -> (chars: Vec<char>)
    ensures
        chars@ == s@,
{
    let mut chars: Vec<char> = Vec::new();
    let n: usize = s.unicode_len();
    let mut i: usize = 0;
    while i < n
        invariant
            n == s@.len(),
            i <= n,
            chars@ == s@.subrange(0, i as int),
        decreases n - i,
    {
        chars.push(s.get_char(i));
        i = i + 1;
        assert(chars@ =~= s@.subrange(0, i as int));
    }
    assert(s@.subrange(0, n as int) =~= s@);
    chars
}

/// A prefix of a number's digits stands for no more than the number.
proof fn lemma_digits_prefix(s: Seq<char>, k: int)
    requires
        0 <= k <= s.len(),
    ensures
        digits_value(s.subrange(0, k)) <= digits_value(s),
    decreases s.len(),
{
    if k == s.len() {
        assert(s.subrange(0, k) =~= s);
    } else {
        lemma_digits_prefix(s.drop_last(), k);
        assert(s.drop_last().subrange(0, k) =~= s.subrange(0, k));
    }
}

/// Reads a decimal number of 16 bits.
fn digits_to_u16(digits: &[char]) -> (value: Option<u16>)
    ensures
        value == (if digits@.len() > 0 && all_digits(digits@) && digits_value(digits@)
            <= u16::MAX {
            Some(digits_value(digits@) as u16)
        } else {
            None
        }),
{
    if digits.len() == 0 {
        return None;
    }
    let mut value: u32 = 0;
    let mut i: usize = 0;
    assert(digits@.subrange(0, 0) =~= Seq::<char>::empty());
    while i < digits.len()
        invariant
            i <= digits@.len(),
            all_digits(digits@.subrange(0, i as int)),
            value == digits_value(digits@.subrange(0, i as int)),
            value <= u16::MAX,
        decreases digits@.len() - i,
    {
        let c: char = digits[i];
        if !('0' <= c && c <= '9') {
            assert(!all_digits(digits@));
            return None;
        }
        value = value * 10 + (c as u32 - '0' as u32);
        i = i + 1;
        let ghost prefix = digits@.subrange(0, i as int);
        assert(prefix.drop_last() =~= digits@.subrange(0, i - 1));
        if value > 65535 {
            proof {
                lemma_digits_prefix(digits@, i as int);
            }
            return None;
        }
        assert forall|j: int| 0 <= j < prefix.len() implies '0' <= #[trigger] prefix[j]
            <= '9' by {
            if j < i - 1 {
                assert(prefix[j] == prefix.drop_last()[j]);
            }
        }
    }
    assert(digits@.subrange(0, i as int) =~= digits@);
    Some(value as u16)
}

/// What is left of `s` after leading white space is dropped starts where the
/// first other character stands.
proof fn lemma_trim_start(s: Seq<char>, from: int)
    requires
        0 <= from <= s.len(),
        forall|i: int| 0 <= i < from ==> is_white_space(#[trigger] s[i]),
        from < s.len() ==> !is_white_space(s[from]),
    ensures
        trim_start(s) == s.subrange(from, s.len() as int),
    decreases s.len(),
{
    if from == 0 {
        assert(s.subrange(0, s.len() as int) =~= s);
    } else {
        assert(is_white_space(s[0]));
        lemma_trim_start(s.drop_first(), from - 1);
        assert(s.drop_first().subrange(from - 1, s.len() - 1) =~= s.subrange(
            from,
            s.len() as int,
        ));
    }
}

/// What is left of `s` after trailing white space is dropped ends where the
/// last other character stands.
proof fn lemma_trim_end(s: Seq<char>, to: int)
    requires
        0 <= to <= s.len(),
        forall|i: int| to <= i < s.len() ==> is_white_space(#[trigger] s[i]),
        to > 0 ==> !is_white_space(s[to - 1]),
    ensures
        trim_end(s) == s.subrange(0, to),
    decreases s.len(),
{
    if to == s.len() {
        assert(s.subrange(0, to) =~= s);
    } else {
        assert(is_white_space(s.last()));
        lemma_trim_end(s.drop_last(), to);
        assert(s.drop_last().subrange(0, to) =~= s.subrange(0, to));
    }
}

/// Reads a decimal number of 16 bits with white space around it.
pub fn parse_u16_trimmed(s: &str) -> (value: Option<u16>)
    ensures
        value == u16_value(trimmed(s@)),
{
    let chars = to_chars(s);
    let n: usize = chars.len();
    let mut from: usize = 0;
    while from < n && white_space(chars[from])
        invariant
            n == chars@.len(),
            from <= n,
            forall|i: int| 0 <= i < from ==> is_white_space(#[trigger] chars@[i]),
        ensures
            from <= n,
            forall|i: int| 0 <= i < from ==> is_white_space(#[trigger] chars@[i]),
            from < n ==> !is_white_space(chars@[from as int]),
        decreases n - from,
    {
        from = from + 1;
    }
    let mut to: usize = n;
    while to > from && white_space(chars[to - 1])
        invariant
            n == chars@.len(),
            from <= to <= n,
            forall|i: int| to <= i < n ==> is_white_space(#[trigger] chars@[i]),
        ensures
            from <= to <= n,
            forall|i: int| to <= i < n ==> is_white_space(#[trigger] chars@[i]),
            to > from ==> !is_white_space(chars@[to - 1]),
        decreases to,
    {
        to = to - 1;
    }
    proof {
        lemma_trim_start(chars@, from as int);
        let rest = chars@.subrange(from as int, n as int);
        assert forall|i: int| to - from <= i < rest.len() implies is_white_space(
            #[trigger] rest[i],
        ) by {
            assert(rest[i] == chars@[from + i]);
        }
        lemma_trim_end(rest, to - from);
        assert(rest.subrange(0, to - from) =~= chars@.subrange(from as int, to as int));
    }
    let all: &[char] = chars.as_slice();
    let core_text: &[char] = &all[from..to];
    assert(core_text@ == trimmed(s@));
    if core_text.len() > 0 && core_text[0] == '+' {
        let rest: &[char] = &core_text[1..core_text.len()];
        assert(rest@ =~= core_text@.drop_first());
        digits_to_u16(rest)
    } else {
        digits_to_u16(core_text)
    }
}

/// Whether two byte strings are equal.
pub fn same_bytes(a: &[u8], b: &[u8]) -> (same: bool)
    ensures
        same == (a@ == b@),
{
    if a.len() != b.len() {
        return false;
    }
    let mut i: usize = 0;
    while i < a.len()
        invariant
            a@.len() == b@.len(),
            i <= a@.len(),
            forall|j: int| 0 <= j < i ==> a@[j] == b@[j],
        decreases a@.len() - i,
    {
        if a[i] != b[i] {
            return false;
        }
        i = i + 1;
    }
    assert(a@ =~= b@);
    true
}

/// Whether two texts are equal.
pub fn same_text(a: &str, b: &str) -> (same: bool)
    ensures
        same == (a@ == b@),
{
    proof {
        encode_utf8_decode_utf8(a@);
        encode_utf8_decode_utf8(b@);
    }
    same_bytes(a.as_bytes(), b.as_bytes())
}

/// What `String::from_utf8_lossy` makes of bytes.
pub uninterp spec fn utf8_lossy(bytes: Seq<u8>) -> Seq<char>;

/// `String::from_utf8_lossy`: the text that the bytes stand for, with
/// replacement characters where they are not UTF-8. Of valid UTF-8 it is the
/// text itself; how the replacement characters are placed is left unsaid.
#[verifier::external_body]
pub(crate) fn from_utf8_lossy(bytes: &[u8]) -> (text: String)
    ensures
        text@ == utf8_lossy(bytes@),
        valid_utf8(bytes@) ==> text@ == decode_utf8(bytes@),
{
    String::from_utf8_lossy(bytes).into_owned()
}

/// A decimal number is written with as few digits as possible: the first digit
/// is zero in the number zero alone.
pub proof fn law_decimal_has_no_leading_zero(n: nat)
    ensures
        n < 10 ==> decimal(n).len() == 1,
        n > 0 ==> decimal(n)[0] != '0',
        n >= 10 ==> decimal(n).len() == decimal(n / 10).len() + 1,
    decreases n,
{
    if n >= 10 {
        law_decimal_has_no_leading_zero(n / 10);
        law_decimal_reads_back(n / 10);
    }
}

/// Digits in front of others are worth ten times as much for each of these.
pub proof fn law_digits_value(s: Seq<char>, digit: char)
    requires
        '0' <= digit <= '9',
    ensures
        digits_value(Seq::<char>::empty()) == 0,
        digits_value(s.push(digit)) == digits_value(s) * 10 + (digit as nat - '0' as nat),
{
    assert(s.push(digit).drop_last() =~= s);
}

/// A number of 16 bits that is written in decimal, with or without a plus sign,
/// reads back as itself; a larger one, and a text that is empty or holds anything
/// but digits, is no such number.
pub proof fn law_u16_reads_back(n: nat, s: Seq<char>)
    ensures
        n <= 0xffff ==> u16_value(decimal(n)) == Some(n as u16),
        n <= 0xffff ==> u16_value(seq!['+'] + decimal(n)) == Some(n as u16),
        n > 0xffff ==> u16_value(decimal(n)) is None,
        u16_value(Seq::<char>::empty()) is None,
        (exists|i: int| 1 <= i < s.len() && !('0' <= #[trigger] s[i] <= '9')) ==> u16_value(
            s,
        ) is None,
        s.len() > 0 && s[0] != '+' && !('0' <= s[0] <= '9') ==> u16_value(s) is None,
{
    law_decimal_reads_back(n);
    assert(decimal(n)[0] != '+');
    assert((seq!['+'] + decimal(n)).drop_first() =~= decimal(n));
    assert((seq!['+'] + decimal(n)).first() == '+');
    if exists|i: int| 1 <= i < s.len() && !('0' <= #[trigger] s[i] <= '9') {
        let i = choose|i: int| 1 <= i < s.len() && !('0' <= #[trigger] s[i] <= '9');
        assert(s.drop_first()[i - 1] == s[i]);
        assert(!all_digits(s));
        assert(!all_digits(s.drop_first()));
    }
    if s.len() > 0 && s[0] != '+' && !('0' <= s[0] <= '9') {
        assert(!all_digits(s));
    }
}

/// White space around a text is dropped, and nothing else is: what is left is
/// the text between, which neither starts nor ends with white space.
pub proof fn law_trimmed(front: Seq<char>, core_text: Seq<char>, back: Seq<char>)
    requires
        forall|i: int| 0 <= i < front.len() ==> is_white_space(#[trigger] front[i]),
        forall|i: int| 0 <= i < back.len() ==> is_white_space(#[trigger] back[i]),
        core_text.len() > 0,
        !is_white_space(core_text[0]),
        !is_white_space(core_text.last()),
    ensures
        trimmed(front + core_text + back) == core_text,
{
    let s = front + core_text + back;
    assert forall|i: int| 0 <= i < front.len() implies is_white_space(#[trigger] s[i]) by {
        assert(s[i] == front[i]);
    }
    assert(s[front.len() as int] == core_text[0]);
    lemma_trim_start(s, front.len() as int);
    let rest = s.subrange(front.len() as int, s.len() as int);
    assert(rest =~= core_text + back);
    assert forall|i: int| core_text.len() <= i < rest.len() implies is_white_space(
        #[trigger] rest[i],
    ) by {
        assert(rest[i] == back[i - core_text.len()]);
    }
    lemma_trim_end(rest, core_text.len() as int);
    assert(rest.subrange(0, core_text.len() as int) =~= core_text);
}

/// Blanks, tabs and line ends are white space; digits, letters and signs are not.
pub proof fn law_white_space(c: char)
    ensures
        is_white_space(' '),
        is_white_space('\t'),
        is_white_space('\n'),
        is_white_space('\r'),
        '!' <= c <= '~' ==> !is_white_space(c),
{
}

} // verus!
