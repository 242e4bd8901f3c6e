//! Text helpers shared by the syntax tree and the tree builder.

use vstd::prelude::*;
use crate::ast::{IDClass, Operator};

verus! {

/// The characters of `s` that are not a double quote, in their order.
pub open spec fn without_quotes(s: Seq<char>) -> Seq<char> {
    s.filter(|c: char| c != '"')
}

/// Appending one character to a text appends it to the text without quotes,
/// unless the character is a quote.
pub proof fn lemma_without_quotes_push(s: Seq<char>, c: char)
    ensures
        without_quotes(s.push(c)) == if c != '"' {
            without_quotes(s).push(c)
        } else {
            without_quotes(s)
        },
{
    reveal(Seq::filter);
    assert(s.push(c).drop_last() =~= s);
}

/// A text without quotes holds no quote, and a text that held none is
/// unchanged.
pub proof fn lemma_without_quotes(s: Seq<char>)
    ensures
        without_quotes(s).len() <= s.len(),
        forall|i: int| 0 <= i < without_quotes(s).len() ==> without_quotes(s)[i] != '"',
        (forall|i: int| 0 <= i < s.len() ==> s[i] != '"') ==> without_quotes(s) == s,
    decreases s.len(),
{
    reveal(Seq::filter);
    if s.len() > 0 {
        lemma_without_quotes(s.drop_last());
        lemma_without_quotes_push(s.drop_last(), s.last());
        assert(s.drop_last().push(s.last()) =~= s);
        if forall|i: int| 0 <= i < s.len() ==> s[i] != '"' {
            assert forall|i: int| 0 <= i < s.drop_last().len() implies s.drop_last()[i] != '"' by {
                assert(s.drop_last()[i] == s[i]);
            }
            assert(s.last() == s[s.len() - 1]);
        }
    }
}

/// `String::push`: appends one character to the end of the string.
#[verifier::external_body]
fn push_char(s: &mut String, c: char)
    ensures
        final(s)@ == old(s)@.push(c),
{
    s.push(c)
}

/// Removes every double quote from `inp`, wherever it stands. Quotes inside
/// the text are deleted like the delimiting pair; nothing is unescaped.
pub fn str_content(inp: String) -> (out: String)
    ensures
        out@ == without_quotes(inp@),
{
    broadcast use vstd::string::group_string_axioms;

    let mut out = String::new();
    let text = inp.as_str();
    for c in it: text.chars()
        invariant
            it.seq() == text@,
            out@ == without_quotes(text@.take(it.index())),
    {
        proof {
            lemma_without_quotes_push(text@.take(it.index()), c);
            assert(text@.take(it.index()).push(c) =~= text@.take(it.index() + 1));
        }
        if c != '"' {
            push_char(&mut out, c);
        }
    }
    assert(text@.take(text@.len() as int) =~= text@);
    out
}

/// Tells whether `text` and `word` hold the same characters.
pub fn same_text(text: &String, word: &str) -> (same: bool)
    ensures
        same == (text@ == word@),
{
    let word = word.to_owned();
    *text == word
}

/// Whether `t` is the one character `a`.
pub open spec fn is_one(t: Seq<char>, a: char) -> bool {
    t.len() == 1 && t[0] == a
}

/// Whether `t` is the two characters `a` and `b`.
pub open spec fn is_two(t: Seq<char>, a: char, b: char) -> bool {
    t.len() == 2 && t[0] == a && t[1] == b
}

/// The binary operator that a token spells, if it spells one.
pub open spec fn operator_of(t: Seq<char>) -> Option<Operator> {
    if is_two(t, '|', '|') {
        Some(Operator::Or)
    } else if is_two(t, '&', '&') {
        Some(Operator::And)
    } else if is_two(t, '=', '=') {
        Some(Operator::Equal)
    } else if is_two(t, '!', '=') {
        Some(Operator::NotEqual)
    } else if is_two(t, '.', '.') {
        Some(Operator::Range)
    } else if is_two(t, '>', '=') {
        Some(Operator::MoreOrEqual)
    } else if is_two(t, '<', '=') {
        Some(Operator::LessOrEqual)
    } else if is_one(t, '>') {
        Some(Operator::More)
    } else if is_one(t, '<') {
        Some(Operator::Less)
    } else if is_one(t, '/') {
        Some(Operator::Slash)
    } else if is_one(t, '*') {
        Some(Operator::Star)
    } else if is_one(t, '^') {
        Some(Operator::Power)
    } else if is_one(t, '+') {
        Some(Operator::Plus)
    } else if is_one(t, '-') {
        Some(Operator::Minus)
    } else if is_one(t, '%') {
        Some(Operator::Modulo)
    } else if is_one(t, '=') {
        Some(Operator::Assign)
    } else if is_two(t, '+', '=') {
        Some(Operator::Add)
    } else if is_two(t, '-', '=') {
        Some(Operator::Subtract)
    } else if is_two(t, '*', '=') {
        Some(Operator::Multiply)
    } else if is_two(t, '/', '=') {
        Some(Operator::Divide)
    } else {
        None
    }
}

/// Reads a binary operator from its token.
pub fn parse_operator(text: &str) -> (op: Option<Operator>)
    ensures
        op == operator_of(text@),
{
    let len = text.unicode_len();
    if len == 1 {
        let a = text.get_char(0);
        if a == '>' {
            Some(Operator::More)
        } else if a == '<' {
            Some(Operator::Less)
        } else if a == '/' {
            Some(Operator::Slash)
        } else if a == '*' {
            Some(Operator::Star)
        } else if a == '^' {
            Some(Operator::Power)
        } else if a == '+' {
            Some(Operator::Plus)
        } else if a == '-' {
            Some(Operator::Minus)
        } else if a == '%' {
            Some(Operator::Modulo)
        } else if a == '=' {
            Some(Operator::Assign)
        } else {
            None
        }
    } else if len == 2 {
        let a = text.get_char(0);
        let b = text.get_char(1);
        if a == '|' && b == '|' {
            Some(Operator::Or)
        } else if a == '&' && b == '&' {
            Some(Operator::And)
        } else if a == '.' && b == '.' {
            Some(Operator::Range)
        } else if b == '=' {
            if a == '=' {
                Some(Operator::Equal)
            } else if a == '!' {
                Some(Operator::NotEqual)
            } else if a == '>' {
                Some(Operator::MoreOrEqual)
            } else if a == '<' {
                Some(Operator::LessOrEqual)
            } else if a == '+' {
                Some(Operator::Add)
            } else if a == '-' {
                Some(Operator::Subtract)
            } else if a == '*' {
                Some(Operator::Multiply)
            } else if a == '/' {
                Some(Operator::Divide)
            } else {
                None
            }
        } else {
            None
        }
    } else {
        None
    }
}

/// The class that the letter behind a handle names, if it names one.
pub open spec fn class_of(t: Seq<char>) -> Option<IDClass> {
    if is_one(t, 'g') {
        Some(IDClass::Group)
    } else if is_one(t, 'c') {
        Some(IDClass::Color)
    } else if is_one(t, 'i') {
        Some(IDClass::Item)
    } else if is_one(t, 'b') {
        Some(IDClass::Block)
    } else {
        None
    }
}

/// Reads the class of a handle from the letter behind it.
pub fn parse_class(text: &str) -> (class: Option<IDClass>)
    ensures
        class == class_of(text@),
{
    if text.unicode_len() == 1 {
        let a = text.get_char(0);
        if a == 'g' {
            Some(IDClass::Group)
        } else if a == 'c' {
            Some(IDClass::Color)
        } else if a == 'i' {
            Some(IDClass::Item)
        } else if a == 'b' {
            Some(IDClass::Block)
        } else {
            None
        }
    } else {
        None
    }
}

/// Whether `c` is one of the ten decimal digits.
pub open spec fn is_digit(c: char) -> bool {
    '0' <= c && c <= '9'
}

/// The number that the digit `c` stands for.
pub open spec fn digit_value(c: char) -> nat {
    (c as int - '0' as int) as nat
}

/// The number that a sequence of decimal digits spells.
pub open spec fn decimal_value(s: Seq<char>) -> nat
    decreases s.len(),
{
    if s.len() == 0 {
        0
    } else {
        10 * decimal_value(s.drop_last()) + digit_value(s.last())
    }
}

/// Whether every character of `s` is a decimal digit.
pub open spec fn all_digits(s: Seq<char>) -> bool {
    forall|i: int| 0 <= i < s.len() ==> is_digit(#[trigger] s[i])
}

/// `s` without the plus sign that may stand in front of a number.
pub open spec fn unsigned_part(s: Seq<char>) -> Seq<char> {
    if s.len() > 0 && s[0] == '+' {
        s.skip(1)
    } else {
        s
    }
}

/// The number that `s` spells, where `s` is one or more decimal digits, with
/// or without a plus sign in front, and the number fits in sixteen bits.
pub open spec fn u16_of(s: Seq<char>) -> Option<u16> {
    let digits = unsigned_part(s);
    if digits.len() > 0 && all_digits(digits) && decimal_value(digits) <= u16::MAX {
        Some(decimal_value(digits) as u16)
    } else {
        None
    }
}

/// Reads the number of a handle. Anything but decimal digits behind an
/// optional plus sign, and any number above 65535, gives `None`.
pub fn parse_u16(text: &str) -> (number: Option<u16>)
    ensures
        number == u16_of(text@),
{
    broadcast use vstd::string::group_string_axioms;

    let ghost digits = unsigned_part(text@);
    let ghost mut skipped: int = 0;
    let mut value: u32 = 0;
    let mut overflow = false;
    let mut first = true;
    let mut seen = false;
    for c in it: text.chars()
        invariant
            it.seq() == text@,
            digits == unsigned_part(text@),
            first == (it.index() == 0),
            skipped == (if it.index() > 0 && text@[0] == '+' { 1int } else { 0int }),
            seen == (it.index() > skipped),
            all_digits(text@.subrange(skipped, it.index())),
            !overflow ==> value == decimal_value(text@.subrange(skipped, it.index())) && value
                <= u16::MAX,
            overflow ==> decimal_value(text@.subrange(skipped, it.index())) > u16::MAX,
    {
        let ghost at = it.index();
        if first && c == '+' {
            proof {
                skipped = 1;
                assert(text@.subrange(1, 1) =~= Seq::<char>::empty());
            }
        } else if c >= '0' && c <= '9' {
            proof {
                let before = text@.subrange(skipped, at);
                let after = text@.subrange(skipped, at + 1);
                assert(after.drop_last() =~= before);
                assert(after.last() == c);
            }
            seen = true;
            if !overflow {
                let digit: u32 = c as u32 - '0' as u32;
                value = value * 10 + digit;
                if value > 65535 {
                    overflow = true;
                }
            }
        } else {
            proof {
                let offset = if text@.len() > 0 && text@[0] == '+' { 1int } else { 0int };
                assert(digits[at - offset] == c);
            }
            return None;
        }
        first = false;
    }
    proof {
        assert(text@.subrange(skipped, text@.len() as int) =~= digits);
    }
    if seen && !overflow {
        Some(value as u16)
    } else {
        None
    }
}

/// Whether `c` is a plus or a minus sign.
pub open spec fn is_sign(c: char) -> bool {
    c == '+' || c == '-'
}

/// Whether `c` is the letter `small` or its capital `capital`.
pub open spec fn is_letter(c: char, small: char, capital: char) -> bool {
    c == small || c == capital
}

/// Where the run of digits that starts at place `from` of `s` ends: the
/// first place from there on that holds no digit.
pub open spec fn digits_end(s: Seq<char>, from: int) -> int
    decreases s.len() - from,
{
    if 0 <= from < s.len() && is_digit(s[from]) {
        digits_end(s, from + 1)
    } else {
        from
    }
}

/// Whether `s` from place `from` on spells `inf`, `infinity` or `nan`, in
/// small or capital letters.
pub open spec fn special_from(s: Seq<char>, from: int) -> bool {
    let t = s.skip(from);
    ||| {
        &&& t.len() == 3
        &&& is_letter(t[0], 'i', 'I')
        &&& is_letter(t[1], 'n', 'N')
        &&& is_letter(t[2], 'f', 'F')
    }
    ||| {
        &&& t.len() == 3
        &&& is_letter(t[0], 'n', 'N')
        &&& is_letter(t[1], 'a', 'A')
        &&& is_letter(t[2], 'n', 'N')
    }
    ||| {
        &&& t.len() == 8
        &&& is_letter(t[0], 'i', 'I')
        &&& is_letter(t[1], 'n', 'N')
        &&& is_letter(t[2], 'f', 'F')
        &&& is_letter(t[3], 'i', 'I')
        &&& is_letter(t[4], 'n', 'N')
        &&& is_letter(t[5], 'i', 'I')
        &&& is_letter(t[6], 't', 'T')
        &&& is_letter(t[7], 'y', 'Y')
    }
}

/// Whether `s` from place `from` on spells an exponent behind its letter:
/// one or more digits, with or without a sign in front.
pub open spec fn exponent_from(s: Seq<char>, from: int) -> bool {
    let digits = if from < s.len() && is_sign(s[from]) {
        from + 1
    } else {
        from
    };
    digits < s.len() && digits_end(s, digits) == s.len()
}

/// Whether `s` from place `from` on spells a decimal number: digits with at
/// most one point among them and at least one digit, and behind them
/// nothing, or the letter `e` and an exponent.
pub open spec fn number_from(s: Seq<char>, from: int) -> bool {
    let point = digits_end(s, from);
    let end = if point < s.len() && s[point] == '.' {
        digits_end(s, point + 1)
    } else {
        point
    };
    let digits = if end == point {
        point - from
    } else {
        end - from - 1
    };
    digits > 0 && (end == s.len() || (is_letter(s[end], 'e', 'E') && exponent_from(s, end + 1)))
}

/// Whether `s` spells a floating-point number as `f64::from_str` reads one:
/// behind an optional sign either `inf`, `infinity` or `nan` or a decimal
/// number with an optional exponent, and nothing else.
pub open spec fn float_text(s: Seq<char>) -> bool {
    let from: int = if s.len() > 0 && is_sign(s[0]) {
        1
    } else {
        0
    };
    from < s.len() && (number_from(s, from) || special_from(s, from))
}

/// The characters of `text`, one by one.
fn chars_of(text: &str) -> (chars: Vec<char>)
    ensures
        chars@ == text@,
{
    broadcast use vstd::string::group_string_axioms;

    let mut chars: Vec<char> = Vec::new();
    for c in it: text.chars()
        invariant
            it.seq() == text@,
            chars@ == text@.take(it.index()),
    {
        chars.push(c);
        assert(text@.take(it.index()).push(c) =~= text@.take(it.index() + 1));
    }
    assert(text@.take(text@.len() as int) =~= text@);
    chars
}

/// Finds where the run of digits that starts at place `from` ends.
fn skip_digits(chars: &Vec<char>, from: usize) -> (end: usize)
    requires
        from <= chars.len(),
    ensures
        end == digits_end(chars@, from as int),
        from <= end <= chars.len(),
{
    let mut end = from;
    while end < chars.len() && chars[end] >= '0' && chars[end] <= '9'
        invariant
            from <= end <= chars.len(),
            digits_end(chars@, from as int) == digits_end(chars@, end as int),
        decreases chars.len() - end,
    {
        end += 1;
    }
    end
}

/// Tells whether `c` is the letter `small` or its capital `capital`.
fn letter(c: char, small: char, capital: char) -> (same: bool)
    ensures
        same == is_letter(c, small, capital),
{
    c == small || c == capital
}

/// Tells whether `chars` from place `from` on spell `inf`, `infinity` or
/// `nan`.
fn special(chars: &Vec<char>, from: usize) -> (ok: bool)
    requires
        from <= chars.len(),
    ensures
        ok == special_from(chars@, from as int),
{
    let len = chars.len() - from;
    if len == 3 {
        let a = chars[from];
        let b = chars[from + 1];
        let c = chars[from + 2];
        (letter(a, 'i', 'I') && letter(b, 'n', 'N') && letter(c, 'f', 'F')) || (letter(a, 'n', 'N')
            && letter(b, 'a', 'A') && letter(c, 'n', 'N'))
    } else if len == 8 {
        letter(chars[from], 'i', 'I') && letter(chars[from + 1], 'n', 'N') && letter(
            chars[from + 2],
            'f',
            'F',
        ) && letter(chars[from + 3], 'i', 'I') && letter(chars[from + 4], 'n', 'N') && letter(
            chars[from + 5],
            'i',
            'I',
        ) && letter(chars[from + 6], 't', 'T') && letter(chars[from + 7], 'y', 'Y')
    } else {
        false
    }
}

/// Tells whether `text` spells a floating-point number.
pub fn is_float_text(text: &str) -> (ok: bool)
    ensures
        ok == float_text(text@),
{
    let chars = chars_of(text);
    let len = chars.len();
    let from: usize = if len > 0 && (chars[0] == '+' || chars[0] == '-') {
        1
    } else {
        0
    };
    if from == len {
        return false;
    }
    if special(&chars, from) {
        return true;
    }
    let point = skip_digits(&chars, from);
    let end = if point < len && chars[point] == '.' {
        skip_digits(&chars, point + 1)
    } else {
        point
    };
    let digits = if end == point {
        point - from
    } else {
        end - from - 1
    };
    if digits == 0 {
        return false;
    }
    if end == len {
        return true;
    }
    if !letter(chars[end], 'e', 'E') {
        return false;
    }
    let sign = end + 1;
    let exponent = if sign < len && (chars[sign] == '+' || chars[sign] == '-') {
        sign + 1
    } else {
        sign
    };
    exponent < len && skip_digits(&chars, exponent) == len
}

} // verus!
