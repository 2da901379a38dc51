//! The JSON text of a record determines the record.
//!
//! A string between its quotes ends at the first quote that no reverse
//! solidus escapes, and every other value ends before the comma or the brace
//! that follows it. So a text can be read in one way only, and two records
//! with the same text are the same record.

use crate::json::{
    decimal, decimal_option, digit, digits, escape, escaped, hex_digit, members_text, null_text,
    object_text, optional_text, quoted, quoted_option, Member,
};
use crate::number::{
    digits_in, exponent_digits_at, is_digit, is_number_text, is_wire_number, number_parts,
};
use crate::records::{AccountView, ProfileView, TradeView};
use vstd::prelude::*;

verus! {

/// Two different numbers below sixteen have different hexadecimal digits.
proof fn lemma_hex_digit_unique(a: int, b: int)
    requires
        0 <= a < 16,
        0 <= b < 16,
        hex_digit(a) == hex_digit(b),
    ensures
        a == b,
{
}

/// What stands for a character begins with a reverse solidus, or else it is
/// the character itself, which then is no quote.
proof fn lemma_escape_shape(c: char)
    ensures
        escape(c).len() == 1 || escape(c).len() == 2 || escape(c).len() == 6,
        escape(c)[0] != '"',
        escape(c).len() == 1 <==> escape(c)[0] != '\\',
        escape(c).len() == 1 ==> escape(c)[0] == c,
        escape(c).len() == 6 <==> escape(c).len() > 1 && escape(c)[1] == 'u',
{
}

/// A text begins with what stands for one character only.
pub proof fn lemma_escape_unique(c1: char, c2: char, x: Seq<char>, y: Seq<char>)
    requires
        escape(c1) + x == escape(c2) + y,
    ensures
        c1 == c2,
        x == y,
{
    let e1 = escape(c1);
    let e2 = escape(c2);
    let t = e1 + x;
    lemma_escape_shape(c1);
    lemma_escape_shape(c2);
    assert(t[0] == e1[0] && t[0] == e2[0]);
    if e1.len() > 1 {
        assert(t[1] == e1[1] && t[1] == e2[1]);
        if e1.len() == 6 {
            assert(t[4] == e1[4] && t[4] == e2[4]);
            assert(t[5] == e1[5] && t[5] == e2[5]);
            let n1 = (c1 as u32) as int;
            let n2 = (c2 as u32) as int;
            lemma_hex_digit_unique(n1 / 16, n2 / 16);
            lemma_hex_digit_unique(n1 % 16, n2 % 16);
            assert(n1 == n2);
        }
    }
    assert(c1 == c2);
    assert(x =~= t.skip(e1.len() as int));
    assert(y =~= t.skip(e2.len() as int));
}

/// A text begins with the inside of one string only, where a quote follows
/// the inside.
pub proof fn lemma_escaped_unique(s1: Seq<char>, s2: Seq<char>, x: Seq<char>, y: Seq<char>)
    requires
        escaped(s1) + (seq!['"'] + x) == escaped(s2) + (seq!['"'] + y),
    ensures
        s1 == s2,
        x == y,
    decreases s1.len(),
{
    let t = escaped(s1) + (seq!['"'] + x);
    if s1.len() == 0 || s2.len() == 0 {
        if s1.len() > 0 {
            lemma_escape_shape(s1[0]);
            assert(t[0] == escape(s1[0])[0]);
            assert(t[0] == '"');
        }
        if s2.len() > 0 {
            lemma_escape_shape(s2[0]);
            assert(t[0] == escape(s2[0])[0]);
            assert(t[0] == '"');
        }
        assert(s1 =~= s2);
        assert(x =~= t.skip(1));
        assert(y =~= t.skip(1));
    } else {
        let r1 = escaped(s1.skip(1)) + (seq!['"'] + x);
        let r2 = escaped(s2.skip(1)) + (seq!['"'] + y);
        assert(t =~= escape(s1[0]) + r1);
        assert(t =~= escape(s2[0]) + r2);
        lemma_escape_unique(s1[0], s2[0], r1, r2);
        lemma_escaped_unique(s1.skip(1), s2.skip(1), x, y);
        assert(s1 =~= seq![s1[0]] + s1.skip(1));
        assert(s2 =~= seq![s2[0]] + s2.skip(1));
    }
}

/// A text begins with one JSON string only.
pub proof fn lemma_quoted_unique(s1: Seq<char>, s2: Seq<char>, x: Seq<char>, y: Seq<char>)
    requires
        quoted(s1) + x == quoted(s2) + y,
    ensures
        s1 == s2,
        x == y,
{
    let t = quoted(s1) + x;
    let r1 = escaped(s1) + (seq!['"'] + x);
    let r2 = escaped(s2) + (seq!['"'] + y);
    assert(t =~= seq!['"'] + r1);
    assert(t =~= seq!['"'] + r2);
    assert(r1 =~= t.skip(1));
    assert(r2 =~= t.skip(1));
    lemma_escaped_unique(s1, s2, x, y);
}

/// The two characters of which one follows every value of an object.
pub open spec fn is_delimiter(c: char) -> bool {
    c == ',' || c == '}'
}

/// A value that is no string: it does not begin with a quote, and neither a
/// comma nor a closing brace is in it.
pub open spec fn is_plain(v: Seq<char>) -> bool {
    &&& v.len() > 0
    &&& v[0] != '"'
    &&& forall|i: int| 0 <= i < v.len() ==> !is_delimiter(#[trigger] v[i])
}

/// A value as the records have them: a string, or a value that is plain.
pub open spec fn is_value(v: Seq<char>) -> bool {
    is_plain(v) || exists|s: Seq<char>| v == quoted(s)
}

/// A text begins with one value only, where a comma or a closing brace
/// follows the value.
pub proof fn lemma_value_unique(v1: Seq<char>, v2: Seq<char>, x: Seq<char>, y: Seq<char>)
    requires
        is_value(v1),
        is_value(v2),
        x.len() > 0 && is_delimiter(x[0]),
        y.len() > 0 && is_delimiter(y[0]),
        v1 + x == v2 + y,
    ensures
        v1 == v2,
        x == y,
{
    let t = v1 + x;
    assert(t[0] == v1[0] && t[0] == v2[0]) by {
        assert(quoted(Seq::<char>::empty()).len() > 0);
        assert(forall|s: Seq<char>| #[trigger] quoted(s).len() > 0);
    }
    if is_plain(v1) {
        assert(is_plain(v2)) by {
            if !is_plain(v2) {
                let s = choose|s: Seq<char>| v2 == quoted(s);
                assert(v2[0] == '"');
            }
        }
        if v1.len() < v2.len() {
            assert(t[v1.len() as int] == x[0]);
            assert(t[v1.len() as int] == v2[v1.len() as int]);
        }
        if v2.len() < v1.len() {
            assert(t[v2.len() as int] == y[0]);
            assert(t[v2.len() as int] == v1[v2.len() as int]);
        }
        assert(v1 =~= t.take(v1.len() as int));
        assert(v2 =~= t.take(v2.len() as int));
        assert(x =~= t.skip(v1.len() as int));
        assert(y =~= t.skip(v2.len() as int));
    } else {
        let s1 = choose|s: Seq<char>| v1 == quoted(s);
        assert(v1[0] == '"');
        let s2 = choose|s: Seq<char>| v2 == quoted(s);
        lemma_quoted_unique(s1, s2, x, y);
    }
}

/// Two lists of members with the same keys, whose values are values, have the
/// same text and the same follower only if they are the same list.
pub proof fn lemma_members_unique(ms1: Seq<Member>, ms2: Seq<Member>, x: Seq<char>, y: Seq<char>)
    requires
        ms1.len() == ms2.len(),
        forall|i: int| 0 <= i < ms1.len() ==> (#[trigger] ms1[i]).key == ms2[i].key,
        forall|i: int| 0 <= i < ms1.len() ==> is_value((#[trigger] ms1[i]).value),
        forall|i: int| 0 <= i < ms2.len() ==> is_value((#[trigger] ms2[i]).value),
        members_text(ms1) + (seq!['}'] + x) == members_text(ms2) + (seq!['}'] + y),
    ensures
        ms1 == ms2,
        x == y,
    decreases ms1.len(),
{
    let t = members_text(ms1) + (seq!['}'] + x);
    if ms1.len() == 0 {
        assert(ms1 =~= ms2);
        assert(x =~= t.skip(1));
        assert(y =~= t.skip(1));
    } else {
        let head = quoted(ms1[0].key) + seq![':'];
        let v1 = ms1[0].value;
        let v2 = ms2[0].value;
        let r1 = if ms1.len() == 1 {
            seq!['}'] + x
        } else {
            seq![','] + (members_text(ms1.skip(1)) + (seq!['}'] + x))
        };
        let r2 = if ms2.len() == 1 {
            seq!['}'] + y
        } else {
            seq![','] + (members_text(ms2.skip(1)) + (seq!['}'] + y))
        };
        assert(ms1[0].key == ms2[0].key);
        assert(t =~= head + (v1 + r1));
        assert(t =~= head + (v2 + r2));
        assert(v1 + r1 =~= t.skip(head.len() as int));
        assert(v2 + r2 =~= t.skip(head.len() as int));
        lemma_value_unique(v1, v2, r1, r2);
        assert(ms1[0] == ms2[0]);
        if ms1.len() == 1 {
            assert(ms1 =~= ms2);
            assert(x =~= r1.skip(1));
            assert(y =~= r2.skip(1));
        } else {
            let m1 = ms1.skip(1);
            let m2 = ms2.skip(1);
            assert(members_text(m1) + (seq!['}'] + x) =~= r1.skip(1));
            assert(members_text(m2) + (seq!['}'] + y) =~= r2.skip(1));
            assert forall|i: int| 0 <= i < m1.len() implies (#[trigger] m1[i]).key == m2[i].key by {
                assert(m1[i] == ms1[i + 1]);
                assert(m2[i] == ms2[i + 1]);
            }
            assert forall|i: int| 0 <= i < m1.len() implies is_value((#[trigger] m1[i]).value) by {
                assert(m1[i] == ms1[i + 1]);
            }
            assert forall|i: int| 0 <= i < m2.len() implies is_value((#[trigger] m2[i]).value) by {
                assert(m2[i] == ms2[i + 1]);
            }
            lemma_members_unique(m1, m2, x, y);
            assert(ms1 =~= seq![ms1[0]] + m1);
            assert(ms2 =~= seq![ms2[0]] + m2);
        }
    }
}

/// Two objects with the same keys, whose values are values, have the same
/// text only if they have the same members.
pub proof fn lemma_object_unique(ms1: Seq<Member>, ms2: Seq<Member>)
    requires
        ms1.len() == ms2.len(),
        forall|i: int| 0 <= i < ms1.len() ==> (#[trigger] ms1[i]).key == ms2[i].key,
        forall|i: int| 0 <= i < ms1.len() ==> is_value((#[trigger] ms1[i]).value),
        forall|i: int| 0 <= i < ms2.len() ==> is_value((#[trigger] ms2[i]).value),
        object_text(ms1) == object_text(ms2),
    ensures
        ms1 == ms2,
{
    let t = object_text(ms1);
    let e = Seq::<char>::empty();
    assert(members_text(ms1) + (seq!['}'] + e) =~= t.skip(1));
    assert(members_text(ms2) + (seq!['}'] + e) =~= t.skip(1));
    lemma_members_unique(ms1, ms2, e, e);
}

/// Two different numbers below ten have different digits.
proof fn lemma_digit_unique(a: int, b: int)
    requires
        0 <= a < 10,
        0 <= b < 10,
        digit(a) == digit(b),
    ensures
        a == b,
{
}

/// The decimal notation of a natural number is made of digits: one for a
/// number below ten, more for another.
proof fn lemma_digits_shape(n: nat)
    ensures
        digits(n).len() >= 1,
        n < 10 <==> digits(n).len() == 1,
        digits_in(digits(n), 0, digits(n).len() as int),
    decreases n,
{
    if n >= 10 {
        lemma_digits_shape(n / 10);
    }
}

/// Two natural numbers with the same decimal notation are the same number.
proof fn lemma_digits_unique(n: nat, m: nat)
    requires
        digits(n) == digits(m),
    ensures
        n == m,
    decreases n,
{
    lemma_digits_shape(n);
    lemma_digits_shape(m);
    if n >= 10 {
        let a = digits(n / 10);
        let b = digits(m / 10);
        assert(a =~= digits(n).drop_last());
        assert(b =~= digits(m).drop_last());
        assert(digits(n).last() == digit((n % 10) as int));
        assert(digits(m).last() == digit((m % 10) as int));
        lemma_digits_unique(n / 10, m / 10);
        lemma_digit_unique((n % 10) as int, (m % 10) as int);
    } else {
        assert(digits(n)[0] == digit(n as int));
        assert(digits(m)[0] == digit(m as int));
        lemma_digit_unique(n as int, m as int);
    }
}

/// Two integers with the same decimal notation are the same integer.
pub proof fn lemma_decimal_unique(i: int, j: int)
    requires
        decimal(i) == decimal(j),
    ensures
        i == j,
{
    let ni = (if i < 0 { -i } else { i }) as nat;
    let nj = (if j < 0 { -j } else { j }) as nat;
    lemma_digits_shape(ni);
    lemma_digits_shape(nj);
    assert(is_digit(digits(ni)[0]) && is_digit(digits(nj)[0]));
    assert(decimal(i)[0] == decimal(j)[0]);
    if i < 0 {
        assert(decimal(i)[0] == '-');
        assert(j < 0);
        assert(digits(ni) =~= decimal(i).skip(1));
        assert(digits(nj) =~= decimal(j).skip(1));
    } else {
        assert(decimal(i)[0] == digits(ni)[0]);
        assert(j >= 0);
    }
    lemma_digits_unique(ni, nj);
}

/// A JSON string is a value.
pub proof fn lemma_quoted_is_value(s: Seq<char>)
    ensures
        is_value(quoted(s)),
        quoted(s)[0] == '"',
{
}

/// `null` is a plain value.
pub proof fn lemma_null_is_plain()
    ensures
        is_plain(null_text()),
        null_text()[0] == 'n',
{
}

/// The decimal notation of an integer is a plain value, and no `null`.
pub proof fn lemma_decimal_is_plain(i: int)
    ensures
        is_plain(decimal(i)),
        decimal(i)[0] != 'n',
{
    let n = (if i < 0 { -i } else { i }) as nat;
    let d = decimal(i);
    lemma_digits_shape(n);
    assert(is_digit(digits(n)[0]));
    assert forall|k: int| 0 <= k < d.len() implies !is_delimiter(#[trigger] d[k]) by {
        if i < 0 {
            if k > 0 {
                assert(d[k] == digits(n)[k - 1]);
                assert(is_digit(digits(n)[k - 1]));
            }
        } else {
            assert(is_digit(digits(n)[k]));
        }
    }
}

/// What the wire carries for a real number is a plain value.
pub proof fn lemma_number_is_plain(s: Seq<char>)
    requires
        is_wire_number(s),
    ensures
        is_plain(s),
        is_number_text(s) ==> s[0] != 'n',
{
    if is_number_text(s) {
        let (a, b, c) = choose|a: int, b: int, c: int| number_parts(s, a, b, c);
        let d = exponent_digits_at(s, c);
        assert(is_digit(s[a]));
        assert forall|i: int| 0 <= i < s.len() implies !is_delimiter(#[trigger] s[i]) && (i == 0
            ==> s[i] != '"' && s[i] != 'n') by {
            if i < a {
            } else if i < b {
                assert(is_digit(s[i]));
            } else if i < c {
                if i > b {
                    assert(is_digit(s[i]));
                }
            } else if i < d {
            } else {
                assert(is_digit(s[i]));
            }
        }
    }
}

/// Two strings with the same JSON string are the same string.
pub proof fn lemma_quoted_injective(s1: Seq<char>, s2: Seq<char>)
    requires
        quoted(s1) == quoted(s2),
    ensures
        s1 == s2,
{
    let e = Seq::<char>::empty();
    assert(quoted(s1) + e =~= quoted(s1));
    assert(quoted(s2) + e =~= quoted(s2));
    lemma_quoted_unique(s1, s2, e, e);
}

/// A string that may be absent is a value, and its text tells whether it is
/// absent and which string it is.
pub proof fn lemma_optional_string(o1: Option<Seq<char>>, o2: Option<Seq<char>>)
    ensures
        is_value(optional_text(quoted_option(o1))),
        optional_text(quoted_option(o1)) == optional_text(quoted_option(o2)) ==> o1 == o2,
{
    lemma_null_is_plain();
    if o1 is Some {
        lemma_quoted_is_value(o1->Some_0);
    }
    if o2 is Some {
        lemma_quoted_is_value(o2->Some_0);
    }
    if optional_text(quoted_option(o1)) == optional_text(quoted_option(o2)) {
        if o1 is Some && o2 is Some {
            lemma_quoted_injective(o1->Some_0, o2->Some_0);
        }
    }
}

/// An integer that may be absent is a value, and its text tells whether it is
/// absent and which integer it is.
pub proof fn lemma_optional_integer(o1: Option<i64>, o2: Option<i64>)
    ensures
        is_value(optional_text(decimal_option(o1))),
        optional_text(decimal_option(o1)) == optional_text(decimal_option(o2)) ==> o1 == o2,
{
    lemma_null_is_plain();
    if o1 is Some {
        lemma_decimal_is_plain(o1->Some_0 as int);
    }
    if o2 is Some {
        lemma_decimal_is_plain(o2->Some_0 as int);
    }
    if optional_text(decimal_option(o1)) == optional_text(decimal_option(o2)) {
        if o1 is Some && o2 is Some {
            lemma_decimal_unique(o1->Some_0 as int, o2->Some_0 as int);
        }
    }
}

/// A real number that may be absent is a value, and its text tells whether it
/// is absent, unless the number is one that travels as `null`.
pub proof fn lemma_optional_number(o1: Option<Seq<char>>, o2: Option<Seq<char>>)
    requires
        o1 matches Some(text) ==> is_wire_number(text),
        o2 matches Some(text) ==> is_wire_number(text),
    ensures
        is_value(optional_text(o1)),
        o1 != Some(null_text()) && o2 != Some(null_text()) && optional_text(o1) == optional_text(
            o2,
        ) ==> o1 == o2,
{
    lemma_null_is_plain();
    if o1 is Some {
        lemma_number_is_plain(o1->Some_0);
    }
    if o2 is Some {
        lemma_number_is_plain(o2->Some_0);
    }
}

/// Two profiles with the same JSON text are the same profile.
pub proof fn lemma_profile_json_unique(one: ProfileView, other: ProfileView)
    requires
        one.json() == other.json(),
    ensures
        one == other,
{
    let ms1 = one.members();
    let ms2 = other.members();
    lemma_quoted_is_value(one.name);
    lemma_quoted_is_value(other.name);
    lemma_optional_string(one.email, other.email);
    lemma_optional_string(other.email, one.email);
    lemma_quoted_is_value(one.experience);
    lemma_quoted_is_value(other.experience);
    lemma_quoted_is_value(one.currency);
    lemma_quoted_is_value(other.currency);
    lemma_quoted_is_value(one.timezone);
    lemma_quoted_is_value(other.timezone);
    lemma_object_unique(ms1, ms2);
    assert(ms1[0] == ms2[0] && ms1[1] == ms2[1] && ms1[2] == ms2[2] && ms1[3] == ms2[3] && ms1[4]
        == ms2[4]);
    lemma_quoted_injective(one.name, other.name);
    lemma_quoted_injective(one.experience, other.experience);
    lemma_quoted_injective(one.currency, other.currency);
    lemma_quoted_injective(one.timezone, other.timezone);
}

/// Two accounts with the same JSON text are the same account.
pub proof fn lemma_account_json_unique(a1: AccountView, a2: AccountView)
    requires
        a1.wf(),
        a2.wf(),
        a1.json() == a2.json(),
    ensures
        a1 == a2,
{
    let ms1 = a1.members();
    let ms2 = a2.members();
    lemma_optional_integer(a1.id, a2.id);
    lemma_optional_integer(a2.id, a1.id);
    lemma_quoted_is_value(a1.name);
    lemma_quoted_is_value(a2.name);
    lemma_quoted_is_value(a1.account_type);
    lemma_quoted_is_value(a2.account_type);
    lemma_number_is_plain(a1.initial_balance);
    lemma_number_is_plain(a2.initial_balance);
    lemma_number_is_plain(a1.current_balance);
    lemma_number_is_plain(a2.current_balance);
    lemma_quoted_is_value(a1.broker);
    lemma_quoted_is_value(a2.broker);
    lemma_quoted_is_value(a1.leverage);
    lemma_quoted_is_value(a2.leverage);
    lemma_optional_string(a1.instruments, a2.instruments);
    lemma_optional_string(a2.instruments, a1.instruments);
    lemma_object_unique(ms1, ms2);
    assert(ms1[0] == ms2[0] && ms1[1] == ms2[1] && ms1[2] == ms2[2] && ms1[3] == ms2[3] && ms1[4]
        == ms2[4] && ms1[5] == ms2[5] && ms1[6] == ms2[6] && ms1[7] == ms2[7]);
    lemma_quoted_injective(a1.name, a2.name);
    lemma_quoted_injective(a1.account_type, a2.account_type);
    lemma_quoted_injective(a1.broker, a2.broker);
    lemma_quoted_injective(a1.leverage, a2.leverage);
}

/// Two trades with the same JSON text are the same trade, unless the exit
/// price of one is a number that travels as `null`: such a trade has the text
/// of the trade without an exit price.
pub proof fn lemma_trade_json_unique(t1: TradeView, t2: TradeView)
    requires
        t1.wf(),
        t2.wf(),
        t1.exit_price != Some(null_text()),
        t2.exit_price != Some(null_text()),
        t1.json() == t2.json(),
    ensures
        t1 == t2,
{
    let ms1 = t1.members();
    let ms2 = t2.members();
    lemma_optional_integer(t1.id, t2.id);
    lemma_optional_integer(t2.id, t1.id);
    lemma_decimal_is_plain(t1.account_id as int);
    lemma_decimal_is_plain(t2.account_id as int);
    lemma_quoted_is_value(t1.symbol);
    lemma_quoted_is_value(t2.symbol);
    lemma_quoted_is_value(t1.trade_type);
    lemma_quoted_is_value(t2.trade_type);
    lemma_number_is_plain(t1.entry_price);
    lemma_number_is_plain(t2.entry_price);
    lemma_optional_number(t1.exit_price, t2.exit_price);
    lemma_optional_number(t2.exit_price, t1.exit_price);
    lemma_number_is_plain(t1.take_profit);
    lemma_number_is_plain(t2.take_profit);
    lemma_number_is_plain(t1.stop_loss);
    lemma_number_is_plain(t2.stop_loss);
    lemma_number_is_plain(t1.lot_size);
    lemma_number_is_plain(t2.lot_size);
    lemma_number_is_plain(t1.volume);
    lemma_number_is_plain(t2.volume);
    lemma_number_is_plain(t1.profit);
    lemma_number_is_plain(t2.profit);
    lemma_number_is_plain(t1.commission);
    lemma_number_is_plain(t2.commission);
    lemma_optional_string(t1.rr_ratio, t2.rr_ratio);
    lemma_optional_string(t2.rr_ratio, t1.rr_ratio);
    lemma_optional_string(t1.strategy, t2.strategy);
    lemma_optional_string(t2.strategy, t1.strategy);
    lemma_optional_string(t1.session, t2.session);
    lemma_optional_string(t2.session, t1.session);
    lemma_optional_string(t1.duration, t2.duration);
    lemma_optional_string(t2.duration, t1.duration);
    lemma_quoted_is_value(t1.date);
    lemma_quoted_is_value(t2.date);
    lemma_object_unique(ms1, ms2);
    assert(ms1[0] == ms2[0] && ms1[1] == ms2[1] && ms1[2] == ms2[2] && ms1[3] == ms2[3] && ms1[4]
        == ms2[4] && ms1[5] == ms2[5] && ms1[6] == ms2[6] && ms1[7] == ms2[7] && ms1[8] == ms2[8]
        && ms1[9] == ms2[9] && ms1[10] == ms2[10] && ms1[11] == ms2[11] && ms1[12] == ms2[12]
        && ms1[13] == ms2[13] && ms1[14] == ms2[14] && ms1[15] == ms2[15] && ms1[16] == ms2[16]);
    lemma_decimal_unique(t1.account_id as int, t2.account_id as int);
    lemma_quoted_injective(t1.symbol, t2.symbol);
    lemma_quoted_injective(t1.trade_type, t2.trade_type);
    lemma_quoted_injective(t1.date, t2.date);
}

} // verus!
