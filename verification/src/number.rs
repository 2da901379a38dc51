//! Real numbers as the wire carries them.
//!
//! A record's prices and balances are real numbers. On the wire such a number
//! is the text of a JSON number, and that text is what a `Number` holds: the
//! backend passes these values on and never calculates with them.

use crate::json::null_text;
use vstd::prelude::*;

verus! {

/// One of the ten decimal digits.
pub open spec fn is_digit(c: char) -> bool {
    '0' <= c <= '9'
}

/// Every character of `s` from `from` up to `to` is a digit.
pub open spec fn digits_in(s: Seq<char>, from: int, to: int) -> bool {
    forall|i: int| from <= i < to ==> is_digit(#[trigger] s[i])
}

/// Where the digits of an exponent that begins at `c` begin: behind the `e`
/// and behind a sign, if there is one.
pub open spec fn exponent_digits_at(s: Seq<char>, c: int) -> int {
    if c + 1 < s.len() && (s[c + 1] == '+' || s[c + 1] == '-') {
        c + 2
    } else {
        c + 1
    }
}

/// `s` is a JSON number whose integer part runs from `a` to `b`, whose
/// fraction runs from `b` to `c` and whose exponent runs from `c` to the end.
///
/// Before the integer part stands nothing or a minus sign. The integer part is
/// `0` or begins with another digit. A fraction is a point and at least one
/// digit. An exponent is `e` or `E`, then a sign or none, then at least one
/// digit.
pub open spec fn number_parts(s: Seq<char>, a: int, b: int, c: int) -> bool {
    &&& 0 <= a < b <= c <= s.len()
    &&& a == 0 || (a == 1 && s[0] == '-')
    &&& digits_in(s, a, b)
    &&& s[a] == '0' ==> b == a + 1
    &&& b == c || (s[b] == '.' && b + 1 < c && digits_in(s, b + 1, c))
    &&& c == s.len() || {
        &&& s[c] == 'e' || s[c] == 'E'
        &&& exponent_digits_at(s, c) < s.len()
        &&& digits_in(s, exponent_digits_at(s, c), s.len() as int)
    }
}

/// `s` is the text of a JSON number.
pub open spec fn is_number_text(s: Seq<char>) -> bool {
    exists|a: int, b: int, c: int| number_parts(s, a, b, c)
}

/// `s` is what the wire carries for a real number: a JSON number, or `null`
/// for a value that is not finite, since JSON has no notation for those.
pub open spec fn is_wire_number(s: Seq<char>) -> bool {
    is_number_text(s) || s == null_text()
}

/// A number is written in ASCII.
proof fn lemma_number_is_ascii(s: Seq<char>)
    requires
        is_number_text(s),
    ensures
        vstd::utf8::is_ascii_chars(s),
{
    let (a, b, c) = choose|a: int, b: int, c: int| number_parts(s, a, b, c);
    let d = exponent_digits_at(s, c);
    assert forall|i: int| 0 <= i < s.len() implies '\0' <= #[trigger] s[i] <= '\u{7f}' by {
        if i < a {
        } else if i < b {
            assert(is_digit(s[i]));
        } else if i < c {
            if i > b {
                assert(is_digit(s[i]));
            }
        } else if i < d {
        } else {
            assert(is_digit(s[i]));
        }
    }
}

/// Where the integer part begins: behind the minus sign, if there is one.
pub open spec fn sign_end(s: Seq<char>) -> int {
    if s.len() > 0 && s[0] == '-' {
        1
    } else {
        0
    }
}

/// The integer part of a number begins behind its sign, with a digit.
proof fn lemma_sign_end(s: Seq<char>, a: int, b: int, c: int)
    requires
        number_parts(s, a, b, c),
    ensures
        a == sign_end(s),
        is_digit(s[a]),
{
    assert(is_digit(s[a]));
}

/// The integer part of a number is a single `0`, or else it ends where the run
/// of digits ends.
proof fn lemma_integer_end(s: Seq<char>, run: int, a: int, b: int, c: int)
    requires
        number_parts(s, a, b, c),
        a <= run <= s.len(),
        digits_in(s, a, run),
        run == s.len() || !is_digit(s[run]),
    ensures
        b == if s[a] == '0' { a + 1 } else { run },
{
    if s[a] != '0' {
        if b > run {
            assert(is_digit(s[run]));
        }
        if b < run {
            assert(is_digit(s[b]));
        }
    }
}

/// Behind a point stands a fraction, which ends where the run of digits
/// behind the point ends.
proof fn lemma_fraction_end(s: Seq<char>, run: int, a: int, b: int, c: int)
    requires
        number_parts(s, a, b, c),
        b < s.len(),
        s[b] == '.',
        b + 1 <= run <= s.len(),
        digits_in(s, b + 1, run),
        run == s.len() || !is_digit(s[run]),
    ensures
        c == run,
        b + 1 < run,
{
    if c > run {
        assert(is_digit(s[run]));
    }
    if c < run {
        assert(is_digit(s[c]));
    }
}

/// `bytes` holds the characters of `s`, one byte for each: `s` is ASCII.
spec fn ascii_bytes(bytes: Seq<u8>, s: Seq<char>) -> bool {
    &&& bytes.len() == s.len()
    &&& forall|i: int| 0 <= i < s.len() ==> (#[trigger] bytes[i]) as char == s[i]
}

/// The end of the run of digits that begins at `from`.
fn digits_end(bytes: &[u8], from: usize, Ghost(s): Ghost<Seq<char>>) -> (end: usize)
    requires
        from <= s.len(),
        ascii_bytes(bytes@, s),
    ensures
        from <= end <= s.len(),
        digits_in(s, from as int, end as int),
        end == s.len() || !is_digit(s[end as int]),
{
    let mut i: usize = from;
    while i < bytes.len() && 48 <= bytes[i] && bytes[i] <= 57
        invariant
            from <= i <= s.len(),
            ascii_bytes(bytes@, s),
            digits_in(s, from as int, i as int),
        decreases s.len() - i,
    {
        i = i + 1;
    }
    i
}

/// Whether `text` is a JSON number.
pub fn is_number(text: &str) -> (r: bool)
    ensures
        r == is_number_text(text@),
{
    let ghost s = text@;
    if !text.is_ascii() {
        proof {
            if is_number_text(s) {
                lemma_number_is_ascii(s);
            }
        }
        return false;
    }
    let bytes = text.as_bytes();
    proof {
        vstd::string::is_ascii_spec_bytes(text);
        assert(ascii_bytes(bytes@, s));
    }
    let n = bytes.len();
    let a: usize = if n > 0 && bytes[0] == 45 { 1 } else { 0 };
    let run = digits_end(bytes, a, Ghost(s));
    if run == a {
        proof {
            assert forall|a2: int, b2: int, c2: int| !number_parts(s, a2, b2, c2) by {
                if number_parts(s, a2, b2, c2) {
                    lemma_sign_end(s, a2, b2, c2);
                }
            }
        }
        return false;
    }
    let b: usize = if bytes[a] == 48 { a + 1 } else { run };
    let mut c: usize = b;
    if b < n && bytes[b] == 46 {
        c = digits_end(bytes, b + 1, Ghost(s));
        if c == b + 1 {
            proof {
                assert forall|a2: int, b2: int, c2: int| !number_parts(s, a2, b2, c2) by {
                    if number_parts(s, a2, b2, c2) {
                        lemma_sign_end(s, a2, b2, c2);
                        lemma_integer_end(s, run as int, a2, b2, c2);
                        lemma_fraction_end(s, c as int, a2, b2, c2);
                    }
                }
            }
            return false;
        }
    }
    proof {
        assert forall|a2: int, b2: int, c2: int| number_parts(s, a2, b2, c2) implies a2 == a && b2
            == b && c2 == c by {
            lemma_sign_end(s, a2, b2, c2);
            lemma_integer_end(s, run as int, a2, b2, c2);
            if b < n && s[b as int] == '.' {
                lemma_fraction_end(s, c as int, a2, b2, c2);
            }
        }
    }
    if c == n {
        assert(number_parts(s, a as int, b as int, c as int));
        return true;
    }
    if bytes[c] != 101 && bytes[c] != 69 {
        return false;
    }
    let d: usize = if c + 1 < n && (bytes[c + 1] == 43 || bytes[c + 1] == 45) {
        c + 2
    } else {
        c + 1
    };
    assert(d == exponent_digits_at(s, c as int));
    if d >= n {
        return false;
    }
    let end = digits_end(bytes, d, Ghost(s));
    if end == n {
        assert(number_parts(s, a as int, b as int, c as int));
        true
    } else {
        proof {
            assert forall|a2: int, b2: int, c2: int| !number_parts(s, a2, b2, c2) by {
                if number_parts(s, a2, b2, c2) {
                    assert(is_digit(s[end as int]));
                }
            }
        }
        false
    }
}

/// Whether `text` is `null`.
fn is_null(text: &str) -> (r: bool)
    ensures
        r == (text@ == null_text()),
{
    if !text.is_ascii() {
        return false;
    }
    let bytes = text.as_bytes();
    proof {
        vstd::string::is_ascii_spec_bytes(text);
        assert(ascii_bytes(bytes@, text@));
    }
    let r = bytes.len() == 4 && bytes[0] == 110 && bytes[1] == 117 && bytes[2] == 108 && bytes[3]
        == 108;
    proof {
        if r {
            assert(text@ =~= null_text());
        }
    }
    r
}

/// A real number as the wire carries it.
#[derive(Debug)]
pub struct Number {
    text: String,
}

impl View for Number {
    type V = Seq<char>;

    closed spec fn view(&self) -> Seq<char> {
        self.text@
    }
}

impl Number {
    #[verifier::type_invariant]
    spec fn holds_wire_number(self) -> bool {
        is_wire_number(self.text@)
    }

    /// The text is a JSON number or `null`. This holds of every number that a
    /// program can have.
    pub open spec fn wf(&self) -> bool {
        is_wire_number(self@)
    }

    /// The number that the wire carries as `text`, if it can carry one so.
    pub fn from_text(text: String) -> (r: Option<Number>)
        ensures
            r is Some <==> is_wire_number(text@),
            r matches Some(number) ==> number@ == text@ && number.wf(),
    {
        if is_number(text.as_str()) || is_null(text.as_str()) {
            Some(Number { text })
        } else {
            None
        }
    }

    /// The text that the wire carries.
    pub fn as_str(&self) -> (text: &str)
        ensures
            text@ == self@,
            self.wf(),
    {
        proof {
            use_type_invariant(self);
        }
        self.text.as_str()
    }
}

} // verus!
