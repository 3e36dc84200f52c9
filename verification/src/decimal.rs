//! Decimal text of integers: writing an `i32` out and reading one back.

use vstd::prelude::*;

verus! {

/// The character of a digit `0..=9`.
pub open spec fn digit_char(d: int) -> char {
    if d == 0 {
        '0'
    } else if d == 1 {
        '1'
    } else if d == 2 {
        '2'
    } else if d == 3 {
        '3'
    } else if d == 4 {
        '4'
    } else if d == 5 {
        '5'
    } else if d == 6 {
        '6'
    } else if d == 7 {
        '7'
    } else if d == 8 {
        '8'
    } else {
        '9'
    }
}

/// The digits of `n`, most significant first, without leading zeros; `0` is
/// the one digit `0`.
pub open spec fn digits_of(n: nat) -> Seq<char>
    decreases n,
{
    if n < 10 {
        seq![digit_char(n as int)]
    } else {
        digits_of(n / 10).push(digit_char((n % 10) as int))
    }
}

/// The decimal text of `v`: its digits, after a `-` when `v` is negative.
pub open spec fn decimal(v: int) -> Seq<char> {
    if v < 0 {
        seq!['-'] + digits_of((-v) as nat)
    } else {
        digits_of(v as nat)
    }
}

/// The characters of the digits in `low`, which holds the least significant
/// digit first, turned round into reading order.
pub open spec fn reversed_digits(low: Seq<u8>) -> Seq<char> {
    Seq::new(low.len(), |i: int| digit_char(low[low.len() - 1 - i] as int))
}

/// The one-character text of a digit.
fn digit_text(d: u8) -> (t: &'static str)
    requires
        d < 10,
    ensures
        t@ == seq![digit_char(d as int)],
{
    proof {
        reveal_strlit("0");
        reveal_strlit("1");
        reveal_strlit("2");
        reveal_strlit("3");
        reveal_strlit("4");
        reveal_strlit("5");
        reveal_strlit("6");
        reveal_strlit("7");
        reveal_strlit("8");
        reveal_strlit("9");
    }
    let t = if d == 0 {
        "0"
    } else if d == 1 {
        "1"
    } else if d == 2 {
        "2"
    } else if d == 3 {
        "3"
    } else if d == 4 {
        "4"
    } else if d == 5 {
        "5"
    } else if d == 6 {
        "6"
    } else if d == 7 {
        "7"
    } else if d == 8 {
        "8"
    } else {
        "9"
    };
    assert(t@ =~= seq![digit_char(d as int)]);
    t
}

/// Writes `v` in decimal, as `i32`'s own `to_string` does.
pub fn render(v: i32) -> (s: String)
    ensures
        s@ == decimal(v as int),
{
    let size: u32 = if v < 0 {
        (-(v as i64)) as u32
    } else {
        v as u32
    };
    let mut low: Vec<u8> = Vec::new();
    let mut n: u32 = size;
    while n >= 10
        invariant
            digits_of(size as nat) == digits_of(n as nat) + reversed_digits(low@),
            forall|i: int| 0 <= i < low.len() ==> low[i] < 10,
        decreases n,
    {
        let ghost before = low@;
        let d: u8 = (n % 10) as u8;
        low.push(d);
        proof {
            let rest = (n / 10) as nat;
            assert(digits_of(n as nat) == digits_of(rest).push(digit_char(d as int)));
            assert(reversed_digits(low@) =~= seq![digit_char(d as int)] + reversed_digits(
                before,
            ));
            assert(digits_of(size as nat) =~= digits_of(rest) + reversed_digits(low@));
        }
        n = n / 10;
    }
    let mut s = String::new();
    if v < 0 {
        proof {
            reveal_strlit("-");
        }
        s.append("-");
    }
    let ghost sign = s@;
    assert(sign =~= if v < 0 {
        seq!['-']
    } else {
        Seq::<char>::empty()
    });
    s.append(digit_text(n as u8));
    let mut i: usize = low.len();
    while i > 0
        invariant
            i <= low.len(),
            forall|j: int| 0 <= j < low.len() ==> low[j] < 10,
            s@ == sign + digits_of(n as nat) + reversed_digits(low@).take(low.len() - i),
            n < 10,
        decreases i,
    {
        i = i - 1;
        s.append(digit_text(low[i]));
        proof {
            let r = reversed_digits(low@);
            assert(r.take(low.len() - i) =~= r.take(low.len() - i - 1).push(
                digit_char(low[i as int] as int),
            ));
            assert(s@ =~= sign + digits_of(n as nat) + r.take(low.len() - i));
        }
    }
    proof {
        let r = reversed_digits(low@);
        assert(r.take(low.len() as int) =~= r);
        assert(s@ =~= sign + digits_of(size as nat));
    }
    s
}

/// Whether `c` is one of the digits `0` to `9`.
pub open spec fn is_digit(c: char) -> bool {
    '0' <= c <= '9'
}

/// The value of a digit character.
pub open spec fn digit_value(c: char) -> int {
    c as int - '0' as int
}

/// Whether `s` holds digits only.
pub open spec fn all_digits(s: Seq<char>) -> bool {
    forall|i: int| 0 <= i < s.len() ==> is_digit(#[trigger] s[i])
}

/// The number that a run of digits writes; leading zeros count for nothing.
pub open spec fn number_of(s: Seq<char>) -> nat
    decreases s.len(),
{
    if s.len() == 0 {
        0
    } else {
        (number_of(s.drop_last()) * 10 + digit_value(s.last())) as nat
    }
}

/// Whether `s` begins with a sign.
pub open spec fn has_sign(s: Seq<char>) -> bool {
    s.len() > 0 && (s[0] == '-' || s[0] == '+')
}

/// What follows the sign of `s`, or all of `s` where it has none.
pub open spec fn unsigned_part(s: Seq<char>) -> Seq<char> {
    if has_sign(s) {
        s.skip(1)
    } else {
        s
    }
}

/// The integer that `s` writes: an optional `+` or `-`, then one digit or
/// more and nothing else. Any other text writes no integer.
pub open spec fn integer_of(s: Seq<char>) -> Option<int> {
    let digits = unsigned_part(s);
    if digits.len() > 0 && all_digits(digits) {
        if s[0] == '-' {
            Some(-(number_of(digits) as int))
        } else {
            Some(number_of(digits) as int)
        }
    } else {
        None
    }
}

/// The `i32` that `s` writes, if it writes an integer and that integer fits.
pub open spec fn i32_of(s: Seq<char>) -> Option<i32> {
    match integer_of(s) {
        Some(v) => if i32::MIN <= v <= i32::MAX {
            Some(v as i32)
        } else {
            None
        },
        None => None,
    }
}

/// One more than the largest magnitude an `i32` can have: a running value
/// held at this cap has left the range for either sign.
pub open spec fn cap() -> nat {
    0x8000_0001
}

/// `n`, held at the cap.
pub open spec fn capped(n: nat) -> nat {
    if n < cap() {
        n
    } else {
        cap()
    }
}

/// Reads an `i32` from its decimal text, as `str::parse::<i32>` does: an
/// optional sign, then digits only; leading zeros are allowed, and a value
/// outside the `i32` range is refused.
pub fn parse(text: &str) -> (r: Option<i32>)
    ensures
        r == i32_of(text@),
{
    if !text.is_ascii() {
        proof {
            if integer_of(text@) is Some {
                lemma_integer_text_is_ascii(text@);
            }
        }
        return None;
    }
    let bytes = text.as_bytes();
    proof {
        vstd::string::is_ascii_spec_bytes(text);
    }
    let len: usize = bytes.len();
    if len == 0 {
        return None;
    }
    let negative = bytes[0] == 45u8;
    let start: usize = if bytes[0] == 45u8 || bytes[0] == 43u8 {
        1
    } else {
        0
    };
    assert(has_sign(text@) == (start == 1));
    assert(negative == (text@[0] == '-'));
    if start == len {
        return None;
    }
    let ghost digits = unsigned_part(text@);
    let ghost mut head = Seq::<char>::empty();
    let mut acc: u64 = 0;
    let mut i: usize = start;
    while i < len
        invariant
            start <= i <= len,
            len == bytes@.len(),
            len == text@.len(),
            vstd::string::is_ascii(text),
            forall|j: int| 0 <= j < len ==> bytes@[j] == text@[j] as u8,
            digits == unsigned_part(text@),
            digits == text@.skip(start as int),
            head == digits.take(i - start),
            all_digits(head),
            acc == capped(number_of(head)),
        decreases len - i,
    {
        let b: u8 = bytes[i];
        let ghost c = text@[i as int];
        assert(digits[i - start] == c);
        assert(c as int == b as int);
        if b < 48u8 || b > 57u8 {
            assert(!is_digit(digits[i - start]));
            return None;
        }
        let next: u64 = acc * 10 + (b - 48u8) as u64;
        proof {
            lemma_number_of_push(head, c);
            assert(digits.take(i - start + 1) =~= head.push(c));
            head = head.push(c);
        }
        acc = if next < 0x8000_0001u64 {
            next
        } else {
            0x8000_0001u64
        };
        i = i + 1;
    }
    assert(head =~= digits);
    if negative {
        if acc <= 0x8000_0000u64 {
            Some((-(acc as i64)) as i32)
        } else {
            None
        }
    } else {
        if acc <= 0x7fff_ffffu64 {
            Some(acc as i32)
        } else {
            None
        }
    }
}

/// One more digit at the end multiplies the number by ten and adds the digit.
pub proof fn lemma_number_of_push(s: Seq<char>, c: char)
    ensures
        number_of(s.push(c)) == (number_of(s) * 10 + digit_value(c)) as nat,
{
    assert(s.push(c).drop_last() =~= s);
}

/// The digits of a number are at least one, are digits, and write that number.
pub proof fn lemma_digits_write_their_number(n: nat)
    ensures
        digits_of(n).len() > 0,
        all_digits(digits_of(n)),
        number_of(digits_of(n)) == n,
    decreases n,
{
    if n < 10 {
        let s = seq![digit_char(n as int)];
        assert(s.drop_last() =~= Seq::<char>::empty());
        assert(number_of(s.drop_last()) == 0);
        assert(is_digit(s[0]));
    } else {
        let head = digits_of(n / 10);
        let c = digit_char((n % 10) as int);
        lemma_digits_write_their_number(n / 10);
        lemma_number_of_push(head, c);
        assert(is_digit(c));
        assert forall|i: int| 0 <= i < head.push(c).len() implies is_digit(
            #[trigger] head.push(c)[i],
        ) by {
            if i < head.len() {
                assert(is_digit(head[i]));
            }
        }
    }
}

/// Reading back what was written gives the integer that was written.
pub proof fn lemma_decimal_reads_back(v: int)
    ensures
        integer_of(decimal(v)) == Some(v),
{
    let s = decimal(v);
    if v < 0 {
        let digits = digits_of((-v) as nat);
        lemma_digits_write_their_number((-v) as nat);
        assert(s[0] == '-');
        assert(unsigned_part(s) =~= digits);
    } else {
        lemma_digits_write_their_number(v as nat);
        assert(is_digit(s[0]));
        assert(unsigned_part(s) == s);
    }
}

/// Two integers with the same decimal text are the same integer.
pub proof fn lemma_decimal_is_injective(v: int, w: int)
    requires
        decimal(v) == decimal(w),
    ensures
        v == w,
{
    lemma_decimal_reads_back(v);
    lemma_decimal_reads_back(w);
}

/// A text that writes an integer holds ASCII characters only.
proof fn lemma_integer_text_is_ascii(s: Seq<char>)
    requires
        integer_of(s) is Some,
    ensures
        vstd::utf8::is_ascii_chars(s),
{
    let digits = unsigned_part(s);
    assert forall|i: int| 0 <= i < s.len() implies '\0' <= #[trigger] s[i] <= '\u{7f}' by {
        if has_sign(s) {
            if i > 0 {
                assert(is_digit(digits[i - 1]));
            }
        } else {
            assert(is_digit(digits[i]));
        }
    }
}

} // verus!
