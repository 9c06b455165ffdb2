//! Rendering of numbers as text, and the text helpers the other modules share.

use vstd::prelude::*;
use vstd::string::*;
use vstd::utf8::{decode_utf8, valid_utf8};

verus! {

/// `String::push` appends one character to the end of the string.
pub assume_specification[ String::push ](s: &mut String, c: char)
    ensures
        final(s)@ == old(s)@.push(c),
;

/// The view of a text that may be absent.
pub open spec fn text_view(text: Option<String>) -> Option<Seq<char>> {
    match text {
        Some(t) => Some(t@),
        None => None,
    }
}

/// The character that stands for the digit `d` in bases up to sixteen:
/// `0` to `9`, then `a` to `f`.
pub open spec fn digit_char(d: nat) -> char {
    if d < 10 {
        ('0' as u8 + d) as u8 as char
    } else {
        ('a' as u8 + d - 10) as u8 as char
    }
}

/// The digits of `n` in `base`, most significant first, without leading
/// zeros; zero is the single digit `0`.
pub open spec fn digits(n: nat, base: nat) -> Seq<char>
    decreases n,
{
    if base < 2 || n < base {
        seq![digit_char(n)]
    } else {
        proof {
            lemma_quotient_smaller(n, base);
        }
        digits(n / base, base).push(digit_char(n % base))
    }
}

/// Dividing by a base of at least two gives a smaller number, and the
/// remainder is below the base.
pub proof fn lemma_quotient_smaller(n: nat, base: nat)
    by (nonlinear_arith)
    requires
        2 <= base <= n,
    ensures
        n / base < n,
        n % base < base,
{
}

/// Lower-case hexadecimal rendering of `n`.
pub open spec fn hex(n: nat) -> Seq<char> {
    digits(n, 16)
}

/// Decimal rendering of `n`.
pub open spec fn decimal(n: nat) -> Seq<char> {
    digits(n, 10)
}

fn digit(d: u64) -> (c: char)
    requires
        d < 16,
    ensures
        c == digit_char(d as nat),
{
    let d = d as u8;
    if d < 10 {
        ('0' as u8 + d) as char
    } else {
        ('a' as u8 + (d - 10)) as char
    }
}

fn push_digits(out: &mut String, n: u64, base: u64)
    requires
        2 <= base <= 16,
    ensures
        final(out)@ == old(out)@ + digits(n as nat, base as nat),
    decreases n,
{
    if n >= base {
        proof {
            lemma_quotient_smaller(n as nat, base as nat);
        }
        push_digits(out, n / base, base);
        out.push(digit(n % base));
    } else {
        out.push(digit(n));
    }
    assert(out@ =~= old(out)@ + digits(n as nat, base as nat));
}

/// Renders `n` in lower-case hexadecimal.
pub fn to_hex(n: u64) -> (text: String)
    ensures
        text@ == hex(n as nat),
{
    let mut text = String::new();
    push_digits(&mut text, n, 16);
    text
}

/// Renders `n` in decimal.
pub fn to_decimal(n: u64) -> (text: String)
    ensures
        text@ == decimal(n as nat),
{
    let mut text = String::new();
    push_digits(&mut text, n, 10);
    text
}

/// Different digits are written with different characters.
pub proof fn lemma_digit_chars_differ(a: nat, b: nat)
    requires
        a < 16,
        b < 16,
        digit_char(a) == digit_char(b),
    ensures
        a == b,
{
}

/// A rendering has one digit for a number below the base and more than one
/// for any other.
pub proof fn lemma_digits_len(n: nat, base: nat)
    requires
        2 <= base,
    ensures
        digits(n, base).len() >= 1,
        n < base <==> digits(n, base).len() == 1,
    decreases n,
{
    if n >= base {
        lemma_quotient_smaller(n, base);
        lemma_digits_len(n / base, base);
    }
}

/// Different numbers have different renderings in one base: the number can
/// be read back from its digits.
pub proof fn lemma_digits_injective(a: nat, b: nat, base: nat)
    requires
        2 <= base <= 16,
        digits(a, base) == digits(b, base),
    ensures
        a == b,
    decreases a,
{
    lemma_digits_len(a, base);
    lemma_digits_len(b, base);
    if a < base {
        assert(digits(a, base)[0] == digit_char(a));
        assert(digits(b, base)[0] == digit_char(b));
        lemma_digit_chars_differ(a, b);
    } else {
        lemma_quotient_smaller(a, base);
        lemma_quotient_smaller(b, base);
        let high_a = digits(a / base, base);
        let high_b = digits(b / base, base);
        assert(digits(a, base).drop_last() =~= high_a);
        assert(digits(b, base).drop_last() =~= high_b);
        assert(digits(a, base).last() == digit_char(a % base));
        assert(digits(b, base).last() == digit_char(b % base));
        lemma_digits_injective(a / base, b / base, base);
        lemma_digit_chars_differ(a % base, b % base);
        assert(a == b) by (nonlinear_arith)
            requires
                base > 0,
                a / base == b / base,
                a % base == b % base,
        ;
    }
}

/// Numbers from `0x1000_0000` up to `0xffff_ffff` are written with eight
/// hexadecimal digits.
pub proof fn lemma_hex_of_eight_digits(n: nat)
    requires
        0x1000_0000 <= n <= 0xffff_ffff,
    ensures
        hex(n).len() == 8,
{
    reveal_with_fuel(digits, 9);
}

/// Whether `c` is white space as Unicode defines it: one of the twenty-five
/// characters with the `White_Space` property. These are the controls from
/// tab to carriage return, the space, the next-line control, the no-break
/// space, the Ogham space mark, the spaces from en quad to hair space, the
/// line and paragraph separators, the narrow no-break space, the medium
/// mathematical space and the ideographic space.
pub open spec fn is_white_space(c: char) -> bool {
    let code = c as u32;
    ||| 0x0009 <= code <= 0x000d
    ||| code == 0x0020
    ||| code == 0x0085
    ||| code == 0x00a0
    ||| code == 0x1680
    ||| 0x2000 <= code <= 0x200a
    ||| code == 0x2028
    ||| code == 0x2029
    ||| code == 0x202f
    ||| code == 0x205f
    ||| code == 0x3000
}

/// `char::is_whitespace` tells whether a character has Unicode's
/// `White_Space` property, which is the set that `is_white_space` lists.
#[verifier::external_body]
fn is_whitespace(c: char) -> (white: bool)
    ensures
        white == is_white_space(c),
{
    c.is_whitespace()
}

/// The text that `String::from_utf8_lossy` makes of `bytes`: their decoding
/// as UTF-8, with the replacement character in place of what is no UTF-8.
pub uninterp spec fn utf8_lossy(bytes: Seq<u8>) -> Seq<char>;

/// `String::from_utf8_lossy` decodes bytes as UTF-8 and never fails; the
/// text depends on the bytes alone, and bytes that are valid UTF-8 give
/// the text that they encode, with nothing replaced.
#[verifier::external_body]
pub(crate) fn decode_lossy(bytes: &Vec<u8>) -> (text: String)
    ensures
        text@ == utf8_lossy(bytes@),
        valid_utf8(bytes@) ==> text@ == decode_utf8(bytes@),
{
    String::from_utf8_lossy(bytes).into_owned()
}

/// `text` without the white space at its start.
pub open spec fn trim_start(text: Seq<char>) -> Seq<char>
    decreases text.len(),
{
    if text.len() > 0 && is_white_space(text[0]) {
        trim_start(text.drop_first())
    } else {
        text
    }
}

/// `text` without the white space at its end.
pub open spec fn trim_end(text: Seq<char>) -> Seq<char>
    decreases text.len(),
{
    if text.len() > 0 && is_white_space(text.last()) {
        trim_end(text.drop_last())
    } else {
        text
    }
}

/// `text` without the white space at either end.
pub open spec fn trimmed(text: Seq<char>) -> Seq<char> {
    trim_end(trim_start(text))
}

/// How many characters of white space `text` begins with.
pub open spec fn leading_white(text: Seq<char>) -> nat
    decreases text.len(),
{
    if text.len() > 0 && is_white_space(text[0]) {
        1 + leading_white(text.drop_first())
    } else {
        0
    }
}

/// How many characters of white space `text` ends with.
pub open spec fn trailing_white(text: Seq<char>) -> nat
    decreases text.len(),
{
    if text.len() > 0 && is_white_space(text.last()) {
        1 + trailing_white(text.drop_last())
    } else {
        0
    }
}

/// Trimming at the start removes exactly the run of white space that the
/// text begins with: what is left begins with another character or is empty.
pub proof fn lemma_trim_start(text: Seq<char>)
    ensures
        leading_white(text) <= text.len(),
        trim_start(text) == text.subrange(leading_white(text) as int, text.len() as int),
        forall|i: int| 0 <= i < leading_white(text) ==> is_white_space(#[trigger] text[i]),
        leading_white(text) < text.len() ==> !is_white_space(text[leading_white(text) as int]),
    decreases text.len(),
{
    if text.len() > 0 && is_white_space(text[0]) {
        let rest = text.drop_first();
        lemma_trim_start(rest);
        let skip = leading_white(rest) as int;
        assert(rest.subrange(skip, rest.len() as int) =~= text.subrange(
            skip + 1,
            text.len() as int,
        ));
        assert forall|i: int| 0 <= i < leading_white(text) implies is_white_space(
            #[trigger] text[i],
        ) by {
            if i > 0 {
                assert(text[i] == rest[i - 1]);
            }
        }
    } else {
        assert(text.subrange(0, text.len() as int) =~= text);
    }
}

/// Trimming at the end removes exactly the run of white space that the
/// text ends with: what is left ends with another character or is empty.
pub proof fn lemma_trim_end(text: Seq<char>)
    ensures
        trailing_white(text) <= text.len(),
        trim_end(text) == text.subrange(0, text.len() - trailing_white(text)),
        forall|i: int|
            text.len() - trailing_white(text) <= i < text.len() ==> is_white_space(
                #[trigger] text[i],
            ),
        trailing_white(text) < text.len() ==> !is_white_space(
            text[text.len() - trailing_white(text) - 1],
        ),
    decreases text.len(),
{
    if text.len() > 0 && is_white_space(text.last()) {
        let rest = text.drop_last();
        lemma_trim_end(rest);
        assert(rest.subrange(0, rest.len() - trailing_white(rest)) =~= text.subrange(
            0,
            text.len() - trailing_white(text),
        ));
        assert forall|i: int|
            text.len() - trailing_white(text) <= i < text.len() implies is_white_space(
            #[trigger] text[i],
        ) by {
            if i < text.len() - 1 {
                assert(text[i] == rest[i]);
            }
        }
    } else {
        assert(text.subrange(0, text.len() as int) =~= text);
    }
}

/// The trimmed text is the stretch of the text between the white space it
/// begins with and the white space it ends with: everything cut off is
/// white space, and what is left neither begins nor ends with any.
pub proof fn lemma_trimmed(text: Seq<char>)
    ensures
        exists|from: int, to: int|
            {
                &&& 0 <= from <= to <= text.len()
                &&& trimmed(text) == #[trigger] text.subrange(from, to)
                &&& forall|i: int| 0 <= i < from ==> is_white_space(#[trigger] text[i])
                &&& forall|i: int| to <= i < text.len() ==> is_white_space(#[trigger] text[i])
                &&& from < to ==> !is_white_space(text[from]) && !is_white_space(text[to - 1])
            },
{
    lemma_trim_start(text);
    let from = leading_white(text) as int;
    let tail = text.subrange(from, text.len() as int);
    lemma_trim_end(tail);
    let to = text.len() - trailing_white(tail);
    assert(tail.subrange(0, tail.len() - trailing_white(tail)) =~= text.subrange(from, to));
    assert forall|i: int| to <= i < text.len() implies is_white_space(#[trigger] text[i]) by {
        assert(text[i] == tail[i - from]);
    }
    if from < to {
        assert(tail[0] == text[from]);
        assert(tail[to - from - 1] == text[to - 1]);
    }
    assert(trimmed(text) == text.subrange(from, to));
}

/// Removes the white space at both ends of `text`.
pub fn trim(text: &str) -> (core: String)
    ensures
        core@ == trimmed(text@),
{
    let len = text.unicode_len();
    let mut start: usize = 0;
    assert(text@.subrange(0, len as int) =~= text@);
    while start < len && is_whitespace(text.get_char(start))
        invariant
            start <= len == text@.len(),
            trim_start(text@) == trim_start(text@.subrange(start as int, len as int)),
        decreases len - start,
    {
        assert(text@.subrange(start as int, len as int).drop_first() =~= text@.subrange(
            start + 1,
            len as int,
        ));
        start = start + 1;
    }
    let mut end: usize = len;
    while end > start && is_whitespace(text.get_char(end - 1))
        invariant
            start <= end <= len == text@.len(),
            trim_end(text@.subrange(start as int, len as int)) == trim_end(
                text@.subrange(start as int, end as int),
            ),
        decreases end,
    {
        assert(text@.subrange(start as int, end as int).drop_last() =~= text@.subrange(
            start as int,
            end - 1,
        ));
        end = end - 1;
    }
    text.substring_char(start, end).to_owned()
}

} // verus!
