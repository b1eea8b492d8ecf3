//! Decimal numbers as texts: the grammar, and a recogniser proved against it.

use vstd::prelude::*;
use crate::text::{all_digits, chars_of, digit_run, digits_end, lemma_digit_run_ends_once};

verus! {

/// Whether `c` is a plus or a minus sign.
pub open spec fn is_sign_char(c: char) -> bool {
    c == '+' || c == '-'
}

/// Whether `c` opens an exponent.
pub open spec fn is_exponent_mark(c: char) -> bool {
    c == 'e' || c == 'E'
}

/// Digits with at most one decimal point among them, and at least one digit:
/// `12`, `12.`, `.5`, `12.5`.
pub open spec fn is_mantissa(s: Seq<char>) -> bool {
    ||| s.len() >= 1 && all_digits(s)
    ||| exists|dot: int|
        0 <= dot < s.len() && s.len() >= 2 && #[trigger] s[dot] == '.' && all_digits(s.take(dot))
            && all_digits(s.skip(dot + 1))
}

/// Nothing, or an exponent mark, an optional sign and at least one digit:
/// `e3`, `E-12`, `e+0`.
pub open spec fn is_exponent(s: Seq<char>) -> bool {
    ||| s.len() == 0
    ||| s.len() >= 2 && is_exponent_mark(s[0]) && all_digits(s.skip(1))
    ||| s.len() >= 3 && is_exponent_mark(s[0]) && is_sign_char(s[1]) && all_digits(s.skip(2))
}

/// A mantissa followed by an exponent.
pub open spec fn is_unsigned_decimal(s: Seq<char>) -> bool {
    exists|cut: int|
        0 <= cut <= s.len() && is_mantissa(#[trigger] s.take(cut)) && is_exponent(s.skip(cut))
}

/// The grammar of decimal numbers: an optional sign, then a mantissa, then an
/// optional exponent. No spaces, no digit separators, no names of special values.
pub open spec fn is_decimal(s: Seq<char>) -> bool {
    if s.len() > 0 && is_sign_char(s[0]) {
        is_unsigned_decimal(s.skip(1))
    } else {
        is_unsigned_decimal(s)
    }
}

/// Why a text is not a decimal number.
#[derive(Debug, Clone, Copy, PartialEq, Eq, Structural)]
pub enum NumberError {
    /// The text is empty.
    Empty,
    /// The text is not empty and does not follow the grammar.
    Invalid,
}

/// What reading a text as a decimal number gives: the text itself where it
/// follows the grammar, and otherwise the reason why it does not.
pub open spec fn read_decimal(s: Seq<char>) -> Result<Seq<char>, NumberError> {
    if s.len() == 0 {
        Err(NumberError::Empty)
    } else if is_decimal(s) {
        Ok(s)
    } else {
        Err(NumberError::Invalid)
    }
}

/// A decimal number, held as the text that was checked. The text is kept
/// character for character, so a sign, leading zeros or an exponent come back
/// out as they went in.
#[derive(Debug, PartialEq, Eq)]
pub struct Decimal {
    text: String,
}

impl View for Decimal {
    type V = Seq<char>;

    closed spec fn view(&self) -> Seq<char> {
        self.text@
    }
}

impl Clone for Decimal {
    fn clone(&self) -> (copy: Self)
        ensures
            copy@ == self@,
    {
        proof {
            use_type_invariant(self);
        }
        Decimal { text: self.text.clone() }
    }
}

impl Decimal {
    #[verifier::type_invariant]
    spec fn follows_grammar(self) -> bool {
        is_decimal(self.text@)
    }

    /// Reads a text as a decimal number.
    pub fn parse(text: &str) -> (parsed: Result<Decimal, NumberError>)
        ensures
            match parsed {
                Ok(number) => read_decimal(text@) == Ok::<Seq<char>, NumberError>(number@),
                Err(reason) => read_decimal(text@) == Err::<Seq<char>, NumberError>(reason),
            },
    {
        let chars = chars_of(text);
        if chars.len() == 0 {
            return Err(NumberError::Empty);
        }
        let start: usize = if chars[0] == '+' || chars[0] == '-' {
            1
        } else {
            0
        };
        proof {
            assert(chars@.skip(0) =~= chars@);
        }
        if scan_unsigned(&chars, start) {
            Ok(Decimal { text: text.to_owned() })
        } else {
            Err(NumberError::Invalid)
        }
    }

    /// The number zero, written `0`.
    pub fn zero() -> (number: Decimal)
        ensures
            number@ == "0"@,
    {
        proof {
            reveal_strlit("0");
            let s = "0"@;
            assert(all_digits(s.take(1)));
            assert(is_mantissa(s.take(1)));
            assert(is_exponent(s.skip(1)));
        }
        Decimal { text: "0".to_owned() }
    }

    /// The text of the number, as it was read.
    pub fn as_str(&self) -> (text: &str)
        ensures
            text@ == self@,
            is_decimal(text@),
    {
        proof {
            use_type_invariant(self);
        }
        self.text.as_str()
    }
}

/// A decimal number has at least one character.
pub proof fn lemma_decimal_is_not_empty(s: Seq<char>)
    requires
        is_decimal(s),
    ensures
        s.len() >= 1,
{
    if s.len() == 0 {
        let cut = choose|cut: int|
            0 <= cut <= s.len() && is_mantissa(#[trigger] s.take(cut)) && is_exponent(s.skip(cut));
        assert(s.take(cut).len() == 0);
    }
}

/// Recognises an exponent that begins at `at` and runs to the end.
fn scan_exponent(chars: &Vec<char>, at: usize) -> (found: bool)
    requires
        at <= chars.len(),
    ensures
        found == is_exponent(chars@.skip(at as int)),
{
    let ghost tail = chars@.skip(at as int);
    let n = chars.len();
    if at == n {
        return true;
    }
    if !(chars[at] == 'e' || chars[at] == 'E') {
        return false;
    }
    let signed = at + 1 < n && (chars[at + 1] == '+' || chars[at + 1] == '-');
    let digits_start = if signed {
        at + 2
    } else {
        at + 1
    };
    let end = digits_end(chars, digits_start);
    proof {
        let skipped = digits_start - at;
        assert(tail.skip(skipped) =~= chars@.subrange(digits_start as int, n as int));
        if all_digits(tail.skip(skipped)) {
            lemma_digit_run_ends_once(chars@, digits_start as int, end as int, n as int);
        }
        if end == n {
            assert(chars@.subrange(digits_start as int, end as int) =~= tail.skip(skipped));
        }
        if !signed && tail.len() >= 3 && all_digits(tail.skip(2)) && is_sign_char(tail[1]) {
            assert(false);
        }
        if signed && all_digits(tail.skip(1)) {
            assert(tail.skip(1)[0] == tail[1]);
        }
    }
    end > digits_start && end == n
}

/// Recognises an unsigned decimal that begins at `start` and runs to the end.
fn scan_unsigned(chars: &Vec<char>, start: usize) -> (found: bool)
    requires
        start <= chars.len(),
    ensures
        found == is_unsigned_decimal(chars@.skip(start as int)),
{
    let ghost body = chars@.skip(start as int);
    let n = chars.len();
    let whole_end = digits_end(chars, start);
    let pointed = whole_end < n && chars[whole_end] == '.';
    let mantissa_end = if pointed {
        digits_end(chars, whole_end + 1)
    } else {
        whole_end
    };
    let digit_count = if pointed {
        mantissa_end - start - 1
    } else {
        mantissa_end - start
    };
    let exponent_found = scan_exponent(chars, mantissa_end);
    proof {
        let cut = mantissa_end - start;
        assert(body.skip(cut) =~= chars@.skip(mantissa_end as int));
        if digit_count >= 1 {
            lemma_scanned_mantissa(chars@, start as int, whole_end as int, mantissa_end as int);
        }
        assert forall|other: int|
            0 <= other <= body.len() && is_mantissa(#[trigger] body.take(other)) && is_exponent(
                body.skip(other),
            ) implies other == cut && digit_count >= 1 by {
            lemma_mantissa_ends_once(
                chars@,
                start as int,
                whole_end as int,
                mantissa_end as int,
                other,
            );
        }
    }
    digit_count >= 1 && exponent_found
}

/// What the scan read is a mantissa, when it holds a digit.
proof fn lemma_scanned_mantissa(s: Seq<char>, start: int, whole_end: int, mantissa_end: int)
    requires
        digit_run(s, start, whole_end),
        whole_end < s.len() && s[whole_end] == '.' ==> digit_run(s, whole_end + 1, mantissa_end)
            && mantissa_end - start >= 2,
        !(whole_end < s.len() && s[whole_end] == '.') ==> mantissa_end == whole_end
            && mantissa_end - start >= 1,
    ensures
        is_mantissa(s.skip(start).take(mantissa_end - start)),
{
    let mantissa = s.skip(start).take(mantissa_end - start);
    assert(mantissa =~= s.subrange(start, mantissa_end));
    if whole_end < s.len() && s[whole_end] == '.' {
        let dot = whole_end - start;
        assert(mantissa[dot] == '.');
        assert(mantissa.take(dot) =~= s.subrange(start, whole_end));
        assert(mantissa.skip(dot + 1) =~= s.subrange(whole_end + 1, mantissa_end));
    }
}

/// A mantissa that an exponent follows to the end of the text can only end
/// where the scan stopped, and the scan has counted a digit in it.
proof fn lemma_mantissa_ends_once(
    s: Seq<char>,
    start: int,
    whole_end: int,
    mantissa_end: int,
    cut: int,
)
    requires
        digit_run(s, start, whole_end),
        whole_end < s.len() && s[whole_end] == '.' ==> digit_run(s, whole_end + 1, mantissa_end),
        !(whole_end < s.len() && s[whole_end] == '.') ==> mantissa_end == whole_end,
        0 <= cut <= s.len() - start,
        is_mantissa(s.skip(start).take(cut)),
        is_exponent(s.skip(start).skip(cut)),
    ensures
        mantissa_end == start + cut,
        whole_end < s.len() && s[whole_end] == '.' ==> mantissa_end - start >= 2,
        !(whole_end < s.len() && s[whole_end] == '.') ==> mantissa_end - start >= 1,
{
    let body = s.skip(start);
    let mantissa = body.take(cut);
    let tail = body.skip(cut);
    let end = start + cut;
    assert(mantissa =~= s.subrange(start, end));
    // The exponent, if any, begins with a mark: no digit and no point.
    if end < s.len() {
        assert(tail[0] == s[end]);
        assert(is_exponent_mark(s[end]));
    }
    if mantissa.len() >= 1 && all_digits(mantissa) {
        assert(digit_run(s, start, end));
        lemma_digit_run_ends_once(s, start, whole_end, end);
    } else {
        let dot = choose|dot: int|
            0 <= dot < mantissa.len() && mantissa.len() >= 2 && #[trigger] mantissa[dot] == '.'
                && all_digits(mantissa.take(dot)) && all_digits(mantissa.skip(dot + 1));
        let point = start + dot;
        assert(mantissa[dot] == s[point]);
        assert(mantissa.take(dot) =~= s.subrange(start, point));
        assert(mantissa.skip(dot + 1) =~= s.subrange(point + 1, end));
        assert(digit_run(s, start, point));
        lemma_digit_run_ends_once(s, start, whole_end, point);
        assert(digit_run(s, point + 1, end));
        lemma_digit_run_ends_once(s, point + 1, mantissa_end, end);
    }
}

/// A text reads as a decimal number exactly when it follows the grammar, and
/// then it is read as itself.
pub proof fn lemma_read_decimal_by_grammar(s: Seq<char>)
    ensures
        read_decimal(s) is Ok <==> is_decimal(s),
        is_decimal(s) ==> read_decimal(s) == Ok::<Seq<char>, NumberError>(s),
{
    if is_decimal(s) {
        lemma_decimal_is_not_empty(s);
    }
}

/// A sign in front of an unsigned decimal number gives a decimal number:
/// negative numbers are read like positive ones.
pub proof fn lemma_sign_is_read(sign: char, s: Seq<char>)
    requires
        is_sign_char(sign),
        is_unsigned_decimal(s),
    ensures
        is_decimal(seq![sign] + s),
{
    assert((seq![sign] + s).skip(1) =~= s);
}

} // verus!
