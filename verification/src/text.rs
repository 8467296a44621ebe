//! Text helpers shared by the protocol, the worker and the handshake:
//! comparison of string slices, decimal numerals written and read, white
//! space, and the search for a run of characters and for the last word.

use vstd::prelude::*;
use vstd::string::*;

verus! {

/// The character that stands for the decimal digit `d`.
pub open spec fn digit_char(d: int) -> char {
    if d == 0 {
        '0'
    } else if d == 1 {
        '1'
    } else if d == 2 {
        '2'
    } else if d == 3 {
        '3'
    } else if d == 4 {
        '4'
    } else if d == 5 {
        '5'
    } else if d == 6 {
        '6'
    } else if d == 7 {
        '7'
    } else if d == 8 {
        '8'
    } else {
        '9'
    }
}

/// The value of a decimal digit character, if it is one.
pub open spec fn digit_value(c: char) -> Option<int> {
    if c == '0' {
        Some(0)
    } else if c == '1' {
        Some(1)
    } else if c == '2' {
        Some(2)
    } else if c == '3' {
        Some(3)
    } else if c == '4' {
        Some(4)
    } else if c == '5' {
        Some(5)
    } else if c == '6' {
        Some(6)
    } else if c == '7' {
        Some(7)
    } else if c == '8' {
        Some(8)
    } else if c == '9' {
        Some(9)
    } else {
        None
    }
}

/// The shortest decimal numeral of `n`: no sign, no leading zero except for
/// zero itself.
pub open spec fn decimal(n: nat) -> Seq<char>
    decreases n,
{
    if n < 10 {
        seq![digit_char(n as int)]
    } else {
        decimal(n / 10).push(digit_char((n % 10) as int))
    }
}

/// Whether two string slices hold the same characters.
pub fn same_text(a: &str, b: &str) -> (r: bool)
    ensures
        r == (a@ == b@),
{
    let x = a.as_bytes();
    let y = b.as_bytes();
    proof {
        vstd::utf8::encode_utf8_decode_utf8(a@);
        vstd::utf8::encode_utf8_decode_utf8(b@);
    }
    if x.len() != y.len() {
        return false;
    }
    let mut i: usize = 0;
    while i < x.len()
        invariant
            i <= x.len(),
            x.len() == y.len(),
            x@ == a.spec_bytes(),
            y@ == b.spec_bytes(),
            forall|k: int| 0 <= k < i ==> x@[k] == y@[k],
        decreases x.len() - i,
    {
        if x[i] != y[i] {
            return false;
        }
        i = i + 1;
    }
    assert(x@ =~= y@);
    true
}

fn digit_text(d: u64) -> (r: &'static str)
    requires
        d < 10,
    ensures
        r@ == seq![digit_char(d as int)],
{
    proof {
        reveal_strlit("0");
        reveal_strlit("1");
        reveal_strlit("2");
        reveal_strlit("3");
        reveal_strlit("4");
        reveal_strlit("5");
        reveal_strlit("6");
        reveal_strlit("7");
        reveal_strlit("8");
        reveal_strlit("9");
    }
    let r = if d == 0 {
        "0"
    } else if d == 1 {
        "1"
    } else if d == 2 {
        "2"
    } else if d == 3 {
        "3"
    } else if d == 4 {
        "4"
    } else if d == 5 {
        "5"
    } else if d == 6 {
        "6"
    } else if d == 7 {
        "7"
    } else if d == 8 {
        "8"
    } else {
        "9"
    };
    assert(r@ =~= seq![digit_char(d as int)]);
    r
}

/// Appends the decimal numeral of `n` to `out`.
pub fn push_decimal(out: &mut String, n: u64)
    ensures
        final(out)@ == old(out)@ + decimal(n as nat),
    decreases n,
{
    if n >= 10 {
        push_decimal(out, n / 10);
    }
    out.append(digit_text(n % 10));
    assert(out@ =~= old(out)@ + decimal(n as nat));
}

/// The decimal numeral of `n` as an owned string.
pub fn to_decimal(n: u64) -> (s: String)
    ensures
        s@ == decimal(n as nat),
{
    let mut s = String::new();
    push_decimal(&mut s, n);
    assert(s@ =~= decimal(n as nat));
    s
}

/// The characters of a string slice, one by one.
pub fn chars_of(text: &str) -> (chars: Vec<char>)
    ensures
        chars@ == text@,
{
    let mut chars: Vec<char> = Vec::new();
    for c in it: text.chars()
        invariant
            chars@ == it.seq().take(it.index() as int),
            it.seq() == text@,
    {
        chars.push(c);
        assert(chars@ =~= it.seq().take(it.index() + 1));
    }
    assert(chars@ =~= text@);
    chars
}

/// Whether a character is white space in the sense of Unicode's
/// `White_Space` property.
pub open spec fn is_space(c: char) -> bool {
    let u = c as u32;
    (0x09 <= u <= 0x0D) || u == 0x20 || u == 0x85 || u == 0xA0 || u == 0x1680 || (0x2000 <= u
        <= 0x200A) || u == 0x2028 || u == 0x2029 || u == 0x202F || u == 0x205F || u == 0x3000
}

/// Whether a character is white space.
pub fn is_whitespace(c: char) -> (r: bool)
    ensures
        r == is_space(c),
{
    let u: u32 = c as u32;
    (0x09 <= u && u <= 0x0D) || u == 0x20 || u == 0x85 || u == 0xA0 || u == 0x1680 || (0x2000 <= u
        && u <= 0x200A) || u == 0x2028 || u == 0x2029 || u == 0x202F || u == 0x205F || u
        == 0x3000
}

/// Whether `needle` stands in `text` at position `at`.
pub open spec fn occurs_at(text: Seq<char>, needle: Seq<char>, at: int) -> bool {
    0 <= at && at + needle.len() <= text.len() && text.subrange(at, at + needle.len()) == needle
}

/// Whether `needle` stands somewhere in `text`.
pub open spec fn contains_text(text: Seq<char>, needle: Seq<char>) -> bool {
    exists|at: int| occurs_at(text, needle, at)
}

fn matches_at(text: &Vec<char>, needle: &Vec<char>, at: usize) -> (r: bool)
    requires
        at + needle@.len() <= text@.len(),
    ensures
        r == occurs_at(text@, needle@, at as int),
{
    let len: usize = text.len();
    let mut k: usize = 0;
    while k < needle.len()
        invariant
            k <= needle@.len(),
            at + needle@.len() <= text@.len() <= usize::MAX,
            forall|j: int| 0 <= j < k ==> text@[at + j] == needle@[j],
        decreases needle@.len() - k,
    {
        if text[at + k] != needle[k] {
            assert(text@.subrange(at as int, at + needle@.len())[k as int] != needle@[k as int]);
            return false;
        }
        k = k + 1;
    }
    assert(text@.subrange(at as int, at + needle@.len()) =~= needle@);
    true
}

/// Whether `needle` stands somewhere in `text`.
pub fn contains(text: &Vec<char>, needle: &Vec<char>) -> (r: bool)
    ensures
        r == contains_text(text@, needle@),
{
    if needle.len() > text.len() {
        return false;
    }
    if needle.len() == 0 {
        assert(text@.subrange(0, 0) =~= needle@);
        assert(occurs_at(text@, needle@, 0));
        return true;
    }
    let last: usize = text.len() - needle.len();
    let mut at: usize = 0;
    while at <= last
        invariant
            at <= last + 1,
            last == text@.len() - needle@.len(),
            last < usize::MAX,
            forall|k: int| 0 <= k < at ==> !occurs_at(text@, needle@, k),
        decreases last + 1 - at,
    {
        if matches_at(text, needle, at) {
            return true;
        }
        at = at + 1;
    }
    false
}

/// The length of `text` without the white space at its end.
pub open spec fn trimmed_len(text: Seq<char>) -> nat
    decreases text.len(),
{
    if text.len() > 0 && is_space(text.last()) {
        trimmed_len(text.drop_last())
    } else {
        text.len()
    }
}

/// Where the run of characters that are no white space at the end of
/// `text` begins.
pub open spec fn word_start(text: Seq<char>) -> nat
    decreases text.len(),
{
    if text.len() > 0 && !is_space(text.last()) {
        word_start(text.drop_last())
    } else {
        text.len()
    }
}

/// The last of the words that white space parts in `text`; empty where
/// `text` holds nothing but white space.
pub open spec fn last_word(text: Seq<char>) -> Seq<char> {
    let end = trimmed_len(text);
    text.subrange(word_start(text.take(end as int)) as int, end as int)
}

/// The last of the words that white space parts in `text`.
pub fn last_word_of(text: &Vec<char>) -> (word: Vec<char>)
    ensures
        word@ == last_word(text@),
{
    let mut end: usize = text.len();
    assert(text@.take(end as int) =~= text@);
    while end > 0 && is_whitespace(text[end - 1])
        invariant
            end <= text@.len(),
            trimmed_len(text@) == trimmed_len(text@.take(end as int)),
        decreases end,
    {
        assert(text@.take(end as int).drop_last() =~= text@.take(end - 1));
        end = end - 1;
    }
    assert(trimmed_len(text@) == end);
    let mut start: usize = end;
    let ghost head = text@.take(end as int);
    assert(head.take(start as int) =~= head);
    while start > 0 && !is_whitespace(text[start - 1])
        invariant
            start <= end <= text@.len(),
            head == text@.take(end as int),
            word_start(head) == word_start(head.take(start as int)),
        decreases start,
    {
        assert(head.take(start as int).drop_last() =~= head.take(start - 1));
        assert(head.take(start as int).last() == text@[start - 1]);
        start = start - 1;
    }
    assert(word_start(head) == start) by {
        if start > 0 {
            assert(head.take(start as int).last() == text@[start - 1]);
        }
    }
    let mut word: Vec<char> = Vec::new();
    let mut i: usize = start;
    while i < end
        invariant
            start <= i <= end <= text@.len(),
            word@ == text@.subrange(start as int, i as int),
        decreases end - i,
    {
        word.push(text[i]);
        assert(word@ =~= text@.subrange(start as int, i + 1));
        i = i + 1;
    }
    word
}

/// The number that a run of decimal digits stands for; `None` where a
/// character is no digit. The empty run stands for 0.
pub open spec fn digits_value(digits: Seq<char>) -> Option<nat>
    decreases digits.len(),
{
    if digits.len() == 0 {
        Some(0)
    } else {
        match (digits_value(digits.drop_last()), digit_value(digits.last())) {
            (Some(value), Some(digit)) => Some((value * 10 + digit) as nat),
            _ => None,
        }
    }
}

/// The number below 65536 that `text` stands for: decimal digits, at least
/// one, with an optional `+` in front.
pub open spec fn parse_u16(text: Seq<char>) -> Option<u16> {
    let digits = if text.len() > 0 && text[0] == '+' {
        text.drop_first()
    } else {
        text
    };
    if digits.len() == 0 {
        None
    } else {
        match digits_value(digits) {
            Some(value) => if value <= 65535 {
                Some(value as u16)
            } else {
                None
            },
            None => None,
        }
    }
}

fn digit_of(c: char) -> (r: Option<u64>)
    ensures
        match r {
            Some(d) => digit_value(c) == Some(d as int) && d < 10,
            None => digit_value(c).is_none(),
        },
{
    if c == '0' {
        Some(0)
    } else if c == '1' {
        Some(1)
    } else if c == '2' {
        Some(2)
    } else if c == '3' {
        Some(3)
    } else if c == '4' {
        Some(4)
    } else if c == '5' {
        Some(5)
    } else if c == '6' {
        Some(6)
    } else if c == '7' {
        Some(7)
    } else if c == '8' {
        Some(8)
    } else if c == '9' {
        Some(9)
    } else {
        None
    }
}

/// Reads a number below 65536 from its decimal numeral.
pub fn read_u16(text: &Vec<char>) -> (r: Option<u16>)
    ensures
        r == parse_u16(text@),
{
    let begin: usize = if text.len() > 0 && text[0] == '+' {
        1
    } else {
        0
    };
    if begin == text.len() {
        return None;
    }
    let ghost digits = text@.skip(begin as int);
    assert(digits =~= if begin == 1 {
        text@.drop_first()
    } else {
        text@
    });
    let mut value: u64 = 0;
    let mut valid: bool = true;
    let mut i: usize = begin;
    let ghost mut exact: nat = 0;
    assert(digits.take(0).len() == 0);
    while i < text.len()
        invariant
            begin <= i <= text@.len(),
            digits == text@.skip(begin as int),
            digits_value(digits.take(i - begin)) == if valid {
                Some(exact)
            } else {
                None
            },
            valid ==> (exact <= 65535 ==> value == exact) && (exact > 65535 ==> value == 65536),
            value <= 65536,
        decreases text@.len() - i,
    {
        let ghost prefix = digits.take(i - begin + 1);
        assert(prefix.drop_last() =~= digits.take(i - begin));
        assert(prefix.last() == text@[i as int]);
        match digit_of(text[i]) {
            Some(d) => {
                if valid {
                    proof {
                        exact = exact * 10 + d as nat;
                    }
                    value = value * 10 + d;
                    if value > 65535 {
                        value = 65536;
                    }
                }
            },
            None => {
                valid = false;
            },
        }
        i = i + 1;
    }
    assert(digits.take(i - begin) =~= digits);
    if valid && value <= 65535 {
        Some(value as u16)
    } else {
        None
    }
}

/// A decimal numeral is made of digits, at least one, and reads back as the
/// number it was written for.
pub proof fn lemma_decimal_reads_back(n: nat)
    ensures
        decimal(n).len() > 0,
        forall|i: int|
            0 <= i < decimal(n).len() ==> digit_value(#[trigger] decimal(n)[i]).is_some()
                && !is_space(decimal(n)[i]) && decimal(n)[i] != '+',
        digits_value(decimal(n)) == Some(n),
    decreases n,
{
    reveal_with_fuel(digits_value, 2);
    if n < 10 {
        let numeral = decimal(n);
        assert(numeral.drop_last().len() == 0);
        assert(digit_value(digit_char(n as int)) == Some(n as int));
    } else {
        lemma_decimal_reads_back(n / 10);
        let numeral = decimal(n);
        let front = decimal(n / 10);
        assert(numeral.drop_last() =~= front);
        assert(numeral.last() == digit_char((n % 10) as int));
        assert(digit_value(digit_char((n % 10) as int)) == Some((n % 10) as int));
        assert forall|i: int| 0 <= i < numeral.len() implies digit_value(
            #[trigger] numeral[i],
        ).is_some() && !is_space(numeral[i]) && numeral[i] != '+' by {
            if i < front.len() {
                assert(numeral[i] == front[i]);
            }
        }
    }
}

/// The numeral of a number below 65536 is read as that number.
pub proof fn lemma_parse_of_decimal(n: u16)
    ensures
        parse_u16(decimal(n as nat)) == Some(n),
{
    lemma_decimal_reads_back(n as nat);
    assert(decimal(n as nat)[0] != '+');
}

/// A word at the end of a text, with white space before it, is the last
/// word of the text.
pub proof fn lemma_last_word_at_end(front: Seq<char>, word: Seq<char>)
    requires
        word.len() > 0,
        forall|i: int| 0 <= i < word.len() ==> !is_space(#[trigger] word[i]),
        front.len() == 0 || is_space(front.last()),
    ensures
        last_word(front + word) == word,
{
    let text = front + word;
    assert(text.last() == word.last());
    assert(trimmed_len(text) == text.len());
    assert(text.take(text.len() as int) =~= text);
    lemma_word_start(front, word);
    assert(text.subrange(front.len() as int, text.len() as int) =~= word);
}

proof fn lemma_word_start(front: Seq<char>, word: Seq<char>)
    requires
        forall|i: int| 0 <= i < word.len() ==> !is_space(#[trigger] word[i]),
        front.len() == 0 || is_space(front.last()),
    ensures
        word_start(front + word) == front.len(),
    decreases word.len(),
{
    let text = front + word;
    if word.len() == 0 {
        assert(text =~= front);
    } else {
        assert(text.last() == word.last());
        assert(text.drop_last() =~= front + word.drop_last());
        lemma_word_start(front, word.drop_last());
    }
}

} // verus!
