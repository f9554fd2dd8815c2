//! Parsing and rendering of values as text.
//!
//! [`FromText`] is the string-parsing capability a target type supplies to
//! resolution: its spec function pins down exactly which texts parse and to
//! what. [`ToText`] is the formatting capability documentation rendering
//! consumes. Both are implemented here for the common primitive targets.

use vstd::prelude::*;
use vstd::string::StrSliceExecFns;
use vstd::string::StringExecFns;

verus! {

/// Whether `c` is a decimal digit (`'0'` through `'9'`).
pub open spec fn is_dec_digit(c: char) -> bool {
    48 <= c as u32 && c as u32 <= 57
}

/// The numeric value of the digit `c`; 0 for a non-digit.
pub open spec fn digit_val(c: char) -> nat {
    if is_dec_digit(c) {
        (c as u32 - 48) as nat
    } else {
        0
    }
}

/// The number denoted by the digit sequence `s`, most significant first.
pub open spec fn digits_val(s: Seq<char>) -> nat
    decreases s.len(),
{
    if s.len() == 0 {
        0
    } else {
        digits_val(s.drop_last()) * 10 + digit_val(s.last())
    }
}

/// Whether every character of `s` is a decimal digit.
pub open spec fn all_dec_digits(s: Seq<char>) -> bool {
    forall|i: int| 0 <= i < s.len() ==> is_dec_digit(#[trigger] s[i])
}

/// `s` without its optional leading plus sign: the part that must be digits.
pub open spec fn unsigned_digits(s: Seq<char>) -> Seq<char> {
    if s.len() > 0 && s[0] == '+' {
        s.drop_first()
    } else {
        s
    }
}

/// Whether `s` parses as an unsigned integer no greater than `max`, by the
/// canonical rule for Rust's unsigned integer types: an optional leading
/// `'+'`, then one or more decimal digits, denoting a value within range.
pub open spec fn parses_as_uint(s: Seq<char>, max: nat) -> bool {
    let d = unsigned_digits(s);
    d.len() > 0 && all_dec_digits(d) && digits_val(d) <= max
}

/// The number denoted by `s` (sign stripped), when `parses_as_uint` holds.
pub open spec fn uint_val(s: Seq<char>) -> nat {
    digits_val(unsigned_digits(s))
}

/// A digit sequence never denotes less than any of its prefixes.
proof fn lemma_digits_val_prefix(s: Seq<char>, k: int)
    requires
        0 <= k <= s.len(),
    ensures
        digits_val(s.take(k)) <= digits_val(s),
    decreases s.len(),
{
    if k < s.len() {
        assert(s.drop_last().take(k) =~= s.take(k));
        lemma_digits_val_prefix(s.drop_last(), k);
    } else {
        assert(s.take(k) =~= s);
    }
}

/// Parses `s` as an unsigned integer no greater than `max`, by the canonical
/// rule for Rust's unsigned integer types.
pub fn parse_uint(s: &str, max: u64) -> (r: Option<u64>)
    ensures
        match r {
            Some(v) => parses_as_uint(s@, max as nat) && v as nat == uint_val(s@) && v <= max,
            None => !parses_as_uint(s@, max as nat),
        },
{
    let n = s.unicode_len();
    let start: usize = if n > 0 && s.get_char(0) == '+' {
        1
    } else {
        0
    };
    let ghost d = unsigned_digits(s@);
    proof {
        assert(d =~= s@.skip(start as int));
    }
    if start == n {
        return None;
    }
    let mut acc: u64 = 0;
    let mut i: usize = start;
    while i < n
        invariant
            start <= i <= n,
            n == s@.len(),
            start <= 1,
            d == unsigned_digits(s@),
            d =~= s@.skip(start as int),
            all_dec_digits(d.take(i - start)),
            acc as nat == digits_val(d.take(i - start)),
            acc <= max,
        decreases n - i,
    {
        let c = s.get_char(i);
        proof {
            assert(d[i - start] == s@[i as int]);
        }
        let cu: u32 = c as u32;
        if cu < 48 || cu > 57 {
            proof {
                assert(!is_dec_digit(d[i - start]));
                assert(!all_dec_digits(d));
            }
            return None;
        }
        let dv: u64 = (cu - 48) as u64;
        proof {
            assert(dv as nat == digit_val(d[i - start]));
            assert(d.take(i - start + 1).drop_last() =~= d.take(i - start));
            assert(d.take(i - start + 1).last() == d[i - start]);
        }
        let ghost grew = digits_val(d.take(i - start + 1));
        proof {
            assert(grew == acc as nat * 10 + dv as nat);
        }
        if acc > max / 10 || dv > max - (acc * 10) {
            proof {
                assert(grew > max as nat);
                lemma_digits_val_prefix(d, i - start + 1);
                assert(digits_val(d) > max as nat);
            }
            return None;
        }
        let ghost prior = d.take(i - start);
        acc = acc * 10 + dv;
        proof {
            assert(acc as nat == digits_val(d.take(i - start + 1)));
            assert forall|j: int| 0 <= j < i - start + 1 implies is_dec_digit(
                #[trigger] d.take(i - start + 1)[j],
            ) by {
                if j < i - start {
                    assert(is_dec_digit(prior[j]));
                }
            }
        }
        i += 1;
    }
    proof {
        assert(d.take(n - start) =~= d);
        assert(parses_as_uint(s@, max as nat));
    }
    Some(acc)
}

/// Relies on `String::push`: appends the given character to the end of the
/// string.
#[verifier::external_body]
pub(crate) fn push_char(s: &mut String, c: char)
    ensures
        final(s)@ == old(s)@.push(c),
{
    s.push(c);
}

/// The character for the digit `d` (`d < 10`).
pub open spec fn dec_digit_char(d: nat) -> char {
    if d == 0 {
        '0'
    } else if d == 1 {
        '1'
    } else if d == 2 {
        '2'
    } else if d == 3 {
        '3'
    } else if d == 4 {
        '4'
    } else if d == 5 {
        '5'
    } else if d == 6 {
        '6'
    } else if d == 7 {
        '7'
    } else if d == 8 {
        '8'
    } else {
        '9'
    }
}

/// The decimal rendering of `n`, most significant digit first, no sign and
/// no leading zeros (except for `n == 0` itself).
pub open spec fn dec_str(n: nat) -> Seq<char>
    decreases n,
{
    if n < 10 {
        seq![dec_digit_char(n)]
    } else {
        dec_str(n / 10) + seq![dec_digit_char(n % 10)]
    }
}

/// The character for the digit `d`.
fn digit_char(d: u64) -> (r: char)
    requires
        d < 10,
    ensures
        r == dec_digit_char(d as nat),
{
    match d {
        0 => '0',
        1 => '1',
        2 => '2',
        3 => '3',
        4 => '4',
        5 => '5',
        6 => '6',
        7 => '7',
        8 => '8',
        _ => '9',
    }
}

/// Renders `n` in decimal.
pub fn u64_to_text(n: u64) -> (r: String)
    ensures
        r@ == dec_str(n as nat),
    decreases n,
{
    if n < 10 {
        let mut s = String::new();
        push_char(&mut s, digit_char(n));
        proof {
            assert(s@ =~= dec_str(n as nat));
        }
        s
    } else {
        let mut s = u64_to_text(n / 10);
        push_char(&mut s, digit_char(n % 10));
        proof {
            assert(s@ =~= dec_str(n as nat));
        }
        s
    }
}

/// The string-parsing capability of a target type: `from_text_spec` is the
/// type's canonical string-parsing rule stated over character sequences, and
/// `from_text` is the parser, exact with respect to that rule.
pub trait FromText: Sized + DeepView {
    /// What the type's canonical string-parsing rule yields on `s`, if
    /// anything, as a view of the parsed value.
    spec fn from_text_spec(s: Seq<char>) -> Option<Self::V>;

    /// Parses `s` by the type's canonical string-parsing rule. Returns a
    /// value exactly when `from_text_spec` does, and that value.
    fn from_text(s: &str) -> (r: Option<Self>)
        ensures
            match r {
                Some(v) => Self::from_text_spec(s@) == Some(v.deep_view()),
                None => Self::from_text_spec(s@) is None,
            },
    ;
}

impl FromText for u8 {
    open spec fn from_text_spec(s: Seq<char>) -> Option<u8> {
        if parses_as_uint(s, u8::MAX as nat) {
            Some(uint_val(s) as u8)
        } else {
            None
        }
    }

    fn from_text(s: &str) -> (r: Option<u8>) {
        match parse_uint(s, 255) {
            Some(v) => Some(v as u8),
            None => None,
        }
    }
}

impl FromText for u16 {
    open spec fn from_text_spec(s: Seq<char>) -> Option<u16> {
        if parses_as_uint(s, u16::MAX as nat) {
            Some(uint_val(s) as u16)
        } else {
            None
        }
    }

    fn from_text(s: &str) -> (r: Option<u16>) {
        match parse_uint(s, 65535) {
            Some(v) => Some(v as u16),
            None => None,
        }
    }
}

impl FromText for u32 {
    open spec fn from_text_spec(s: Seq<char>) -> Option<u32> {
        if parses_as_uint(s, u32::MAX as nat) {
            Some(uint_val(s) as u32)
        } else {
            None
        }
    }

    fn from_text(s: &str) -> (r: Option<u32>) {
        match parse_uint(s, 4294967295) {
            Some(v) => Some(v as u32),
            None => None,
        }
    }
}

impl FromText for u64 {
    open spec fn from_text_spec(s: Seq<char>) -> Option<u64> {
        if parses_as_uint(s, u64::MAX as nat) {
            Some(uint_val(s) as u64)
        } else {
            None
        }
    }

    fn from_text(s: &str) -> (r: Option<u64>) {
        parse_uint(s, u64::MAX)
    }
}

impl FromText for bool {
    open spec fn from_text_spec(s: Seq<char>) -> Option<bool> {
        if s == "true"@ {
            Some(true)
        } else if s == "false"@ {
            Some(false)
        } else {
            None
        }
    }

    fn from_text(s: &str) -> (r: Option<bool>) {
        let v = String::from_str(s);
        if v == String::from_str("true") {
            Some(true)
        } else if v == String::from_str("false") {
            Some(false)
        } else {
            None
        }
    }
}

impl FromText for String {
    open spec fn from_text_spec(s: Seq<char>) -> Option<Seq<char>> {
        Some(s)
    }

    fn from_text(s: &str) -> (r: Option<String>) {
        Some(String::from_str(s))
    }
}

/// The formatting capability documentation rendering consumes:
/// `to_text_spec` is the canonical text rendering of a value, and `to_text`
/// produces exactly it.
pub trait ToText {
    /// The canonical text rendering of the value.
    spec fn to_text_spec(&self) -> Seq<char>;

    /// Renders the value as text.
    fn to_text(&self) -> (r: String)
        ensures
            r@ == self.to_text_spec(),
    ;
}

impl ToText for u8 {
    open spec fn to_text_spec(&self) -> Seq<char> {
        dec_str(*self as nat)
    }

    fn to_text(&self) -> (r: String) {
        u64_to_text(*self as u64)
    }
}

impl ToText for u16 {
    open spec fn to_text_spec(&self) -> Seq<char> {
        dec_str(*self as nat)
    }

    fn to_text(&self) -> (r: String) {
        u64_to_text(*self as u64)
    }
}

impl ToText for u32 {
    open spec fn to_text_spec(&self) -> Seq<char> {
        dec_str(*self as nat)
    }

    fn to_text(&self) -> (r: String) {
        u64_to_text(*self as u64)
    }
}

impl ToText for u64 {
    open spec fn to_text_spec(&self) -> Seq<char> {
        dec_str(*self as nat)
    }

    fn to_text(&self) -> (r: String) {
        u64_to_text(*self)
    }
}

impl ToText for bool {
    open spec fn to_text_spec(&self) -> Seq<char> {
        if *self {
            "true"@
        } else {
            "false"@
        }
    }

    fn to_text(&self) -> (r: String) {
        if *self {
            String::from_str("true")
        } else {
            String::from_str("false")
        }
    }
}

impl ToText for String {
    open spec fn to_text_spec(&self) -> Seq<char> {
        self@
    }

    fn to_text(&self) -> (r: String) {
        self.clone()
    }
}

} // verus!
