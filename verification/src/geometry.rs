//! Rectangles in compositor coordinates and the text form that the screen
//! grabber and the selector read: `x,y WxH`, every number in decimal.

use vstd::prelude::*;

verus! {

/// The character of one decimal digit.
pub open spec fn digit_char(d: int) -> char
    recommends
        0 <= d < 10,
{
    if d == 0 {
        '0'
    } else if d == 1 {
        '1'
    } else if d == 2 {
        '2'
    } else if d == 3 {
        '3'
    } else if d == 4 {
        '4'
    } else if d == 5 {
        '5'
    } else if d == 6 {
        '6'
    } else if d == 7 {
        '7'
    } else if d == 8 {
        '8'
    } else {
        '9'
    }
}

/// The decimal digits of a natural number, most significant first, with no
/// leading zero (zero itself is the single digit `0`).
pub open spec fn decimal_digits(n: nat) -> Seq<char>
    decreases n,
{
    if n < 10 {
        seq![digit_char(n as int)]
    } else {
        decimal_digits(n / 10).push(digit_char((n % 10) as int))
    }
}

/// The decimal text of an integer: a minus sign for a negative number, then
/// the digits of its magnitude.
pub open spec fn decimal(n: int) -> Seq<char> {
    if n < 0 {
        seq!['-'] + decimal_digits((-n) as nat)
    } else {
        decimal_digits(n as nat)
    }
}

/// Whether a character is one of the ten decimal digits.
pub open spec fn is_digit(c: char) -> bool {
    0x30 <= c as u32 <= 0x39
}

/// The number that a string of decimal digits stands for.
pub open spec fn digits_value(digits: Seq<char>) -> int
    decreases digits.len(),
{
    if digits.len() == 0 {
        0
    } else {
        digits_value(digits.drop_last()) * 10 + (digits.last() as u32 - 0x30)
    }
}

/// The digits of a number are its decimal numeral and nothing else: at least
/// one character, every one of them a digit, no zero in front of a number
/// other than zero, and read as a numeral they give the number back.
pub proof fn lemma_decimal_digits_canonical(n: nat)
    ensures
        decimal_digits(n).len() >= 1,
        forall|i: int| 0 <= i < decimal_digits(n).len() ==> is_digit(#[trigger] decimal_digits(n)[i]),
        decimal_digits(n)[0] == '0' <==> n == 0,
        digits_value(decimal_digits(n)) == n,
    decreases n,
{
    let digits = decimal_digits(n);
    if n < 10 {
        assert(digits.drop_last() =~= Seq::<char>::empty());
        assert(digits_value(digits) == digits_value(digits.drop_last()) * 10 + (digits.last() as u32
            - 0x30));
    } else {
        let front = decimal_digits(n / 10);
        lemma_decimal_digits_canonical(n / 10);
        assert(digits.drop_last() =~= front);
        assert(digits[0] == front[0]);
        assert forall|i: int| 0 <= i < digits.len() implies is_digit(#[trigger] digits[i]) by {
            if i < front.len() {
                assert(digits[i] == front[i]);
            }
        }
    }
}

/// The text of a number that is not negative is made of digits alone: no
/// sign, no blank, no separator.
pub proof fn lemma_decimal_of_natural(n: int)
    requires
        0 <= n,
    ensures
        decimal(n) == decimal_digits(n as nat),
        forall|i: int| 0 <= i < decimal(n).len() ==> is_digit(#[trigger] decimal(n)[i]),
{
    lemma_decimal_digits_canonical(n as nat);
}

fn push_digit(out: &mut String, d: u8)
    requires
        d < 10,
    ensures
        final(out)@ == old(out)@.push(digit_char(d as int)),
{
    proof {
        reveal_strlit("0");
        reveal_strlit("1");
        reveal_strlit("2");
        reveal_strlit("3");
        reveal_strlit("4");
        reveal_strlit("5");
        reveal_strlit("6");
        reveal_strlit("7");
        reveal_strlit("8");
        reveal_strlit("9");
    }
    let text = if d == 0 {
        "0"
    } else if d == 1 {
        "1"
    } else if d == 2 {
        "2"
    } else if d == 3 {
        "3"
    } else if d == 4 {
        "4"
    } else if d == 5 {
        "5"
    } else if d == 6 {
        "6"
    } else if d == 7 {
        "7"
    } else if d == 8 {
        "8"
    } else {
        "9"
    };
    out.append(text);
    assert(final(out)@ =~= old(out)@.push(digit_char(d as int)));
}

fn push_digits(out: &mut String, n: u64)
    ensures
        final(out)@ == old(out)@ + decimal_digits(n as nat),
    decreases n,
{
    if n >= 10 {
        push_digits(out, n / 10);
    }
    push_digit(out, (n % 10) as u8);
    assert(final(out)@ =~= old(out)@ + decimal_digits(n as nat));
}

/// Appends the decimal text of `n` to `out`.
pub fn push_decimal(out: &mut String, n: i64)
    ensures
        final(out)@ == old(out)@ + decimal(n as int),
{
    if n < 0 {
        out.append("-");
        proof {
            reveal_strlit("-");
        }
        let magnitude: u64 = (-(n + 1)) as u64 + 1;
        push_digits(out, magnitude);
    } else {
        push_digits(out, n as u64);
    }
    assert(final(out)@ =~= old(out)@ + decimal(n as int));
}

/// The decimal text of `n`.
pub fn decimal_text(n: i64) -> (text: String)
    ensures
        text@ == decimal(n as int),
{
    let mut text = String::new();
    push_decimal(&mut text, n);
    text
}

/// The text of the rectangle with corner `(x, y)`, `w` wide and `h` high:
/// the four numbers in decimal as `x,y WxH`, with one comma, one space and
/// one `x` and nothing else between or around them.
pub open spec fn geometry_text(x: int, y: int, w: int, h: int) -> Seq<char> {
    decimal(x) + seq![','] + decimal(y) + seq![' '] + decimal(w) + seq!['x'] + decimal(h)
}

/// A numeral: one digit or more, and digits only.
pub open spec fn is_numeral(text: Seq<char>) -> bool {
    &&& text.len() >= 1
    &&& forall|i: int| 0 <= i < text.len() ==> is_digit(#[trigger] text[i])
}

/// The text of a rectangle whose four numbers are not negative is made of
/// their four numerals with a comma, a blank and an `x` between them, and of
/// nothing else: no sign, no padding, no further separator.
pub proof fn lemma_geometry_text_of_naturals(x: int, y: int, w: int, h: int)
    requires
        0 <= x,
        0 <= y,
        0 <= w,
        0 <= h,
    ensures
        geometry_text(x, y, w, h) == decimal_digits(x as nat) + seq![','] + decimal_digits(y as nat)
            + seq![' '] + decimal_digits(w as nat) + seq!['x'] + decimal_digits(h as nat),
        is_numeral(decimal_digits(x as nat)) && digits_value(decimal_digits(x as nat)) == x,
        is_numeral(decimal_digits(y as nat)) && digits_value(decimal_digits(y as nat)) == y,
        is_numeral(decimal_digits(w as nat)) && digits_value(decimal_digits(w as nat)) == w,
        is_numeral(decimal_digits(h as nat)) && digits_value(decimal_digits(h as nat)) == h,
{
    lemma_decimal_digits_canonical(x as nat);
    lemma_decimal_digits_canonical(y as nat);
    lemma_decimal_digits_canonical(w as nat);
    lemma_decimal_digits_canonical(h as nat);
}

/// A numeral, a separator and what follows, in one text.
pub open spec fn numeral_then(numeral: Seq<char>, separator: char, rest: Seq<char>) -> Seq<char> {
    numeral + seq![separator] + rest
}

proof fn lemma_numeral_ends_at_separator(
    first: Seq<char>,
    rest: Seq<char>,
    other: Seq<char>,
    other_rest: Seq<char>,
    separator: char,
)
    requires
        is_numeral(first),
        is_numeral(other),
        !is_digit(separator),
        numeral_then(first, separator, rest) == numeral_then(other, separator, other_rest),
    ensures
        first == other,
        rest == other_rest,
{
    let text = numeral_then(first, separator, rest);
    let same = numeral_then(other, separator, other_rest);
    if first.len() < other.len() {
        assert(text[first.len() as int] == separator);
        assert(same[first.len() as int] == other[first.len() as int]);
        assert(is_digit(other[first.len() as int]));
    }
    if other.len() < first.len() {
        assert(same[other.len() as int] == separator);
        assert(text[other.len() as int] == first[other.len() as int]);
        assert(is_digit(first[other.len() as int]));
    }
    assert(first.len() == other.len());
    assert(first =~= text.take(first.len() as int));
    assert(other =~= same.take(other.len() as int));
    assert(rest =~= text.skip(first.len() as int + 1));
    assert(other_rest =~= same.skip(other.len() as int + 1));
}

proof fn lemma_geometry_text_nests(x: int, y: int, w: int, h: int)
    requires
        0 <= x,
        0 <= y,
        0 <= w,
        0 <= h,
    ensures
        geometry_text(x, y, w, h) == numeral_then(
            decimal_digits(x as nat),
            ',',
            numeral_then(
                decimal_digits(y as nat),
                ' ',
                numeral_then(decimal_digits(w as nat), 'x', decimal_digits(h as nat)),
            ),
        ),
{
    let a = decimal_digits(x as nat);
    let b = decimal_digits(y as nat);
    let c = decimal_digits(w as nat);
    let d = decimal_digits(h as nat);
    let inner = numeral_then(c, 'x', d);
    let middle = numeral_then(b, ' ', inner);
    assert(middle =~= b + seq![' '] + c + seq!['x'] + d);
    assert(numeral_then(a, ',', middle) =~= a + seq![','] + b + seq![' '] + c + seq!['x'] + d);
}

/// A geometry can be read back: two rectangles without negative numbers
/// that are written alike are the same rectangle.
pub proof fn lemma_geometry_text_is_unambiguous(
    x: int,
    y: int,
    w: int,
    h: int,
    other_x: int,
    other_y: int,
    other_w: int,
    other_h: int,
)
    requires
        0 <= x && 0 <= y && 0 <= w && 0 <= h,
        0 <= other_x && 0 <= other_y && 0 <= other_w && 0 <= other_h,
        geometry_text(x, y, w, h) == geometry_text(other_x, other_y, other_w, other_h),
    ensures
        x == other_x,
        y == other_y,
        w == other_w,
        h == other_h,
{
    lemma_geometry_text_of_naturals(x, y, w, h);
    lemma_geometry_text_of_naturals(other_x, other_y, other_w, other_h);
    lemma_geometry_text_nests(x, y, w, h);
    lemma_geometry_text_nests(other_x, other_y, other_w, other_h);
    let a = decimal_digits(x as nat);
    let b = decimal_digits(y as nat);
    let c = decimal_digits(w as nat);
    let d = decimal_digits(h as nat);
    let p = decimal_digits(other_x as nat);
    let q = decimal_digits(other_y as nat);
    let r = decimal_digits(other_w as nat);
    let t = decimal_digits(other_h as nat);
    lemma_numeral_ends_at_separator(
        a,
        numeral_then(b, ' ', numeral_then(c, 'x', d)),
        p,
        numeral_then(q, ' ', numeral_then(r, 'x', t)),
        ',',
    );
    lemma_numeral_ends_at_separator(b, numeral_then(c, 'x', d), q, numeral_then(r, 'x', t), ' ');
    lemma_numeral_ends_at_separator(c, d, r, t, 'x');
}

/// Appends the text of a rectangle to `out`.
pub fn push_geometry(out: &mut String, x: i32, y: i32, w: i32, h: i32)
    ensures
        final(out)@ == old(out)@ + geometry_text(x as int, y as int, w as int, h as int),
{
    proof {
        reveal_strlit(",");
        reveal_strlit(" ");
        reveal_strlit("x");
    }
    push_decimal(out, x as i64);
    out.append(",");
    push_decimal(out, y as i64);
    out.append(" ");
    push_decimal(out, w as i64);
    out.append("x");
    push_decimal(out, h as i64);
    assert(final(out)@ =~= old(out)@ + geometry_text(x as int, y as int, w as int, h as int));
}

/// Writes a rectangle as the screen grabber reads it.
pub fn format_geometry(x: i32, y: i32, w: i32, h: i32) -> (text: String)
    ensures
        text@ == geometry_text(x as int, y as int, w as int, h as int),
{
    let mut text = String::new();
    push_geometry(&mut text, x, y, w, h);
    text
}

} // verus!
