//! Numerals: the decimal text of one measured value.
//!
//! Verified code does no arithmetic on measurements; it carries them from the
//! sensor to the exporter's output. A measurement therefore travels as the text
//! it is printed with, and the only thing checked of it is that it is a numeral:
//! a value that a scraper can read back as a number.

use vstd::prelude::*;
use vstd::string::*;

verus! {

/// An ASCII decimal digit.
pub open spec fn is_digit(c: char) -> bool {
    '0' <= c && c <= '9'
}

/// The positions `from..to` of `s` hold at least one character, and only digits.
pub open spec fn digits_between(s: Seq<char>, from: int, to: int) -> bool {
    &&& 0 <= from < to <= s.len()
    &&& forall|i: int| from <= i < to ==> is_digit(#[trigger] s[i])
}

/// Where the digits of `s` begin: behind a leading minus sign, if there is one.
pub open spec fn digits_start(s: Seq<char>) -> int {
    if s.len() > 0 && s[0] == '-' {
        1
    } else {
        0
    }
}

/// A decimal number: an optional minus sign, one or more digits and, optionally,
/// a point followed by one or more digits.
pub open spec fn is_decimal(s: Seq<char>) -> bool {
    ||| digits_between(s, digits_start(s), s.len() as int)
    ||| exists|dot: int|
        {
            &&& digits_between(s, digits_start(s), dot)
            &&& dot < s.len()
            &&& #[trigger] s[dot] == '.'
            &&& digits_between(s, dot + 1, s.len() as int)
        }
}

/// A numeral: a decimal number, or one of the three names a double has for
/// what is not a finite number.
pub open spec fn is_numeral(s: Seq<char>) -> bool {
    is_decimal(s) || s == "NaN"@ || s == "inf"@ || s == "-inf"@
}

/// The text of one measured value. Every `Sample` is a numeral.
#[derive(Debug, PartialEq, Eq)]
pub struct Sample {
    text: String,
}

impl View for Sample {
    type V = Seq<char>;

    closed spec fn view(&self) -> Seq<char> {
        self.text@
    }
}

fn digit(c: char) -> (yes: bool)
    ensures
        yes == is_digit(c),
{
    '0' <= c && c <= '9'
}

/// Walks over the digits of `text` from `from` on and returns where they end.
fn digits_end(text: &str, from: usize, len: usize) -> (end: usize)
    requires
        len == text@.len(),
        from <= len,
    ensures
        from <= end <= len,
        forall|i: int| from <= i < end ==> is_digit(#[trigger] text@[i]),
        end < len ==> !is_digit(text@[end as int]),
{
    let mut end: usize = from;
    while end < len && digit(text.get_char(end))
        invariant
            len == text@.len(),
            from <= end <= len,
            forall|i: int| from <= i < end ==> is_digit(#[trigger] text@[i]),
        decreases len - end,
    {
        end = end + 1;
    }
    end
}

/// Whether `text` is a decimal number.
fn decimal(text: &str) -> (yes: bool)
    ensures
        yes == is_decimal(text@),
{
    let len: usize = text.unicode_len();
    let start: usize = if len > 0 && text.get_char(0) == '-' {
        1
    } else {
        0
    };
    let whole_end: usize = digits_end(text, start, len);
    if whole_end == start {
        return false;
    }
    if whole_end == len {
        return true;
    }
    // The digits stop before the end: if this is a decimal number, its point
    // stands where they stop.
    assert forall|dot: int|
        digits_between(text@, start as int, dot) && dot < len && text@[dot]
            == '.' implies dot == whole_end by {
        assert(!is_digit(text@[whole_end as int]));
        if dot < whole_end {
            assert(is_digit(text@[dot]));
        }
    }
    if text.get_char(whole_end) != '.' {
        return false;
    }
    let fraction_start: usize = whole_end + 1;
    let fraction_end: usize = digits_end(text, fraction_start, len);
    if fraction_end == fraction_start || fraction_end != len {
        return false;
    }
    assert(digits_between(text@, start as int, whole_end as int));
    true
}

/// Whether `text` reads `NaN`, `inf` or `-inf`.
fn not_finite(text: &str) -> (yes: bool)
    ensures
        yes == (text@ == "NaN"@ || text@ == "inf"@ || text@ == "-inf"@),
{
    proof {
        reveal_strlit("NaN");
        reveal_strlit("inf");
        reveal_strlit("-inf");
    }
    let len: usize = text.unicode_len();
    if len == 3 {
        let a = text.get_char(0);
        let b = text.get_char(1);
        let c = text.get_char(2);
        let yes = (a == 'N' && b == 'a' && c == 'N') || (a == 'i' && b == 'n' && c == 'f');
        assert(yes ==> text@ =~= "NaN"@ || text@ =~= "inf"@);
        yes
    } else if len == 4 {
        let yes = text.get_char(0) == '-' && text.get_char(1) == 'i' && text.get_char(2) == 'n'
            && text.get_char(3) == 'f';
        assert(yes ==> text@ =~= "-inf"@);
        yes
    } else {
        false
    }
}

impl Sample {
    /// What holds of every sample: its text is a numeral.
    #[verifier::type_invariant]
    pub open spec fn holds_numeral(&self) -> bool {
        is_numeral(self@)
    }

    /// Takes `text` as a sample if it is a numeral, and refuses it otherwise.
    pub fn parse(text: &str) -> (sample: Option<Sample>)
        ensures
            sample is Some <==> is_numeral(text@),
            sample is Some ==> sample.unwrap()@ == text@,
    {
        if decimal(text) || not_finite(text) {
            Some(Sample { text: String::from_str(text) })
        } else {
            None
        }
    }

    /// The numeral, as text.
    pub fn as_str(&self) -> (text: &str)
        ensures
            text@ == self@,
            is_numeral(text@),
    {
        proof {
            use_type_invariant(self);
        }
        self.text.as_str()
    }
}

impl Clone for Sample {
    /// A second sample of the same value.
    fn clone(&self) -> (copy: Sample)
        ensures
            copy@ == self@,
    {
        proof {
            use_type_invariant(self);
        }
        Sample { text: self.text.clone() }
    }
}

} // verus!
