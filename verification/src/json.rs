//! JSON text of the values that a record is made of.
//!
//! `serde_json` writes the leaves, a string or an integer. The object around
//! them is written here, in compact form: the members in the order in which
//! they are given, a comma between each two, no white space.

use crate::number::Number;
use vstd::prelude::*;

verus! {

/// The sixteen digits of lower-case hexadecimal notation.
pub open spec fn hex_digit(n: int) -> char
    recommends
        0 <= n < 16,
{
    seq!['0', '1', '2', '3', '4', '5', '6', '7', '8', '9', 'a', 'b', 'c', 'd', 'e', 'f'][n]
}

/// What one character of a string becomes between the quotes of a JSON string:
/// the quote and the reverse solidus get a reverse solidus in front, the control
/// characters below U+0020 their short form where JSON has one and `\u00xx`
/// otherwise, and every other character stands for itself.
pub open spec fn escape(c: char) -> Seq<char> {
    if c == '"' {
        seq!['\\', '"']
    } else if c == '\\' {
        seq!['\\', '\\']
    } else if c == '\u{8}' {
        seq!['\\', 'b']
    } else if c == '\t' {
        seq!['\\', 't']
    } else if c == '\n' {
        seq!['\\', 'n']
    } else if c == '\u{c}' {
        seq!['\\', 'f']
    } else if c == '\r' {
        seq!['\\', 'r']
    } else if (c as u32) < 0x20 {
        seq![
            '\\',
            'u',
            '0',
            '0',
            hex_digit((c as u32) as int / 16),
            hex_digit((c as u32) as int % 16),
        ]
    } else {
        seq![c]
    }
}

/// The characters of `s`, each escaped, in order.
pub open spec fn escaped(s: Seq<char>) -> Seq<char>
    decreases s.len(),
{
    if s.len() == 0 {
        Seq::empty()
    } else {
        escape(s[0]) + escaped(s.skip(1))
    }
}

/// The JSON string that holds `s`.
pub open spec fn quoted(s: Seq<char>) -> Seq<char> {
    seq!['"'] + escaped(s) + seq!['"']
}

/// The ten decimal digits.
pub open spec fn digit(n: int) -> char
    recommends
        0 <= n < 10,
{
    seq!['0', '1', '2', '3', '4', '5', '6', '7', '8', '9'][n]
}

/// The decimal notation of a natural number, without leading zeros.
pub open spec fn digits(n: nat) -> Seq<char>
    decreases n,
{
    if n < 10 {
        seq![digit(n as int)]
    } else {
        digits(n / 10).push(digit((n % 10) as int))
    }
}

/// The decimal notation of an integer: a minus sign before a negative one.
pub open spec fn decimal(i: int) -> Seq<char> {
    if i < 0 {
        seq!['-'] + digits((-i) as nat)
    } else {
        digits(i as nat)
    }
}

/// The error of `serde_json`. Nothing is known of a value of it.
#[verifier::external_type_specification]
#[verifier::external_body]
pub struct ExJsonError(serde_json::Error);

/// `serde_json::to_string` on a string slice.
///
/// Trusted, not proved: the call succeeds, and its text is the slice between
/// two quotes, each character written as `escape` says. It succeeds because
/// the text is written to a vector of bytes, which takes every write, and
/// nothing else in the serialization of a string slice can fail.
#[verifier::external_body]
fn string_to_json(s: &str) -> (r: Result<String, serde_json::Error>)
    ensures
        r is Ok,
        r->Ok_0@ == quoted(s@),
{
    serde_json::to_string(s)
}

/// `serde_json::to_string` on a 64-bit integer.
///
/// Trusted, not proved: the call succeeds, and its text is the integer in
/// decimal notation, with a minus sign before a negative one. It succeeds for
/// the reason given for a string slice.
#[verifier::external_body]
fn integer_to_json(i: i64) -> (r: Result<String, serde_json::Error>)
    ensures
        r is Ok,
        r->Ok_0@ == decimal(i as int),
{
    serde_json::to_string(&i)
}

/// The message of an error of `serde_json`, as its `to_string` gives it.
/// Nothing is claimed of the text.
#[verifier::external_body]
fn error_message(e: &serde_json::Error) -> String {
    e.to_string()
}

/// One member of a JSON object: its key as it is, and its value as JSON text.
pub struct Member {
    pub key: Seq<char>,
    pub value: Seq<char>,
}

/// The text `null`.
pub open spec fn null_text() -> Seq<char> {
    seq!['n', 'u', 'l', 'l']
}

/// The text of a value that may be absent: `null` stands for an absent one.
pub open spec fn optional_text(value: Option<Seq<char>>) -> Seq<char> {
    match value {
        Some(text) => text,
        None => null_text(),
    }
}

/// The characters of a string that may be absent.
pub open spec fn option_text(value: Option<String>) -> Option<Seq<char>> {
    match value {
        Some(s) => Some(s@),
        None => None,
    }
}

/// The text of a real number that may be absent.
pub open spec fn option_number(value: Option<Number>) -> Option<Seq<char>> {
    match value {
        Some(number) => Some(number@),
        None => None,
    }
}

/// The JSON string of a string that may be absent.
pub open spec fn quoted_option(value: Option<Seq<char>>) -> Option<Seq<char>> {
    match value {
        Some(s) => Some(quoted(s)),
        None => None,
    }
}

/// The decimal notation of an integer that may be absent.
pub open spec fn decimal_option(value: Option<i64>) -> Option<Seq<char>> {
    match value {
        Some(i) => Some(decimal(i as int)),
        None => None,
    }
}

/// A member on the wire: the key as a JSON string, a colon, the value.
pub open spec fn member_text(m: Member) -> Seq<char> {
    quoted(m.key) + seq![':'] + m.value
}

/// The members in order, with a comma between each two.
pub open spec fn members_text(ms: Seq<Member>) -> Seq<char>
    decreases ms.len(),
{
    if ms.len() == 0 {
        Seq::empty()
    } else if ms.len() == 1 {
        member_text(ms[0])
    } else {
        member_text(ms[0]) + seq![','] + members_text(ms.skip(1))
    }
}

/// The compact JSON object with these members: no white space anywhere.
pub open spec fn object_text(ms: Seq<Member>) -> Seq<char> {
    seq!['{'] + members_text(ms) + seq!['}']
}

/// Adding a member at the end adds its text at the end, after a comma unless
/// it is the first.
pub proof fn lemma_members_text_push(ms: Seq<Member>, m: Member)
    ensures
        members_text(ms.push(m)) == if ms.len() == 0 {
            member_text(m)
        } else {
            members_text(ms) + seq![','] + member_text(m)
        },
    decreases ms.len(),
{
    let all = ms.push(m);
    if ms.len() == 0 {
        assert(all[0] == m);
    } else {
        assert(all[0] == ms[0]);
        assert(all.skip(1) =~= ms.skip(1).push(m));
        lemma_members_text_push(ms.skip(1), m);
        if ms.len() == 1 {
            assert(members_text(ms.skip(1)) =~= Seq::<char>::empty());
            assert(members_text(all) =~= members_text(ms) + seq![','] + member_text(m));
        } else {
            assert(members_text(all) =~= members_text(ms) + seq![','] + member_text(m));
        }
    }
}

/// Writes a JSON object member by member.
pub struct ObjectWriter {
    text: String,
    first: bool,
    members: Ghost<Seq<Member>>,
}

impl ObjectWriter {
    /// The text so far is the opening brace and the members written.
    #[verifier::type_invariant]
    spec fn wf(self) -> bool {
        &&& self.text@ == seq!['{'] + members_text(self.members@)
        &&& self.first <==> self.members@.len() == 0
    }

    /// The members written so far.
    pub closed spec fn members(&self) -> Seq<Member> {
        self.members@
    }

    /// A writer that has written no member yet.
    pub fn new() -> (w: ObjectWriter)
        ensures
            w.members() == Seq::<Member>::empty(),
    {
        let mut text = String::new();
        text.append("{");
        proof {
            reveal_strlit("{");
            assert(text@ =~= seq!['{'] + members_text(Seq::<Member>::empty()));
        }
        ObjectWriter { text, first: true, members: Ghost(Seq::empty()) }
    }

    /// Writes a member whose value is already JSON text.
    fn member(self, key: &str, value: &str) -> (r: Result<ObjectWriter, String>)
        ensures
            r is Ok,
            r->Ok_0.members() == self.members().push(Member { key: key@, value: value@ }),
    {
        let key_text = match string_to_json(key) {
            Ok(text) => text,
            Err(e) => {
                return Err(error_message(&e));
            },
        };
        proof {
            use_type_invariant(&self);
        }
        let ghost m = Member { key: key@, value: value@ };
        let ghost members = self.members@.push(m);
        let mut text = self.text;
        if !self.first {
            text.append(",");
        }
        text.append(key_text.as_str());
        text.append(":");
        text.append(value);
        proof {
            reveal_strlit(",");
            reveal_strlit(":");
            lemma_members_text_push(self.members@, m);
            assert(text@ =~= seq!['{'] + members_text(members));
        }
        Ok(ObjectWriter { text, first: false, members: Ghost(members) })
    }

    /// Writes a member whose value is a string.
    pub fn string(self, key: &str, value: &str) -> (r: Result<ObjectWriter, String>)
        ensures
            r is Ok,
            r->Ok_0.members() == self.members().push(Member { key: key@, value: quoted(value@) }),
    {
        match string_to_json(value) {
            Ok(text) => self.member(key, text.as_str()),
            Err(e) => Err(error_message(&e)),
        }
    }

    /// Writes a member whose value is a string or absent.
    pub fn optional_string(self, key: &str, value: &Option<String>) -> (r: Result<
        ObjectWriter,
        String,
    >)
        ensures
            r is Ok,
            r->Ok_0.members() == self.members().push(
                Member { key: key@, value: optional_text(quoted_option(option_text(*value))) },
            ),
    {
        match value {
            Some(s) => self.string(key, s.as_str()),
            None => {
                proof {
                    reveal_strlit("null");
                    assert("null"@ =~= null_text());
                }
                self.member(key, "null")
            },
        }
    }

    /// Writes a member whose value is an integer.
    pub fn integer(self, key: &str, value: i64) -> (r: Result<ObjectWriter, String>)
        ensures
            r is Ok,
            r->Ok_0.members() == self.members().push(
                Member { key: key@, value: decimal(value as int) },
            ),
    {
        match integer_to_json(value) {
            Ok(text) => self.member(key, text.as_str()),
            Err(e) => Err(error_message(&e)),
        }
    }

    /// Writes a member whose value is an integer or absent.
    pub fn optional_integer(self, key: &str, value: Option<i64>) -> (r: Result<
        ObjectWriter,
        String,
    >)
        ensures
            r is Ok,
            r->Ok_0.members() == self.members().push(
                Member { key: key@, value: optional_text(decimal_option(value)) },
            ),
    {
        match value {
            Some(i) => self.integer(key, i),
            None => {
                proof {
                    reveal_strlit("null");
                    assert("null"@ =~= null_text());
                }
                self.member(key, "null")
            },
        }
    }

    /// Writes a member whose value is a real number.
    pub fn number(self, key: &str, value: &Number) -> (r: Result<ObjectWriter, String>)
        ensures
            r is Ok,
            r->Ok_0.members() == self.members().push(Member { key: key@, value: value@ }),
            value.wf(),
    {
        self.member(key, value.as_str())
    }

    /// Writes a member whose value is a real number or absent.
    pub fn optional_number(self, key: &str, value: &Option<Number>) -> (r: Result<
        ObjectWriter,
        String,
    >)
        ensures
            r is Ok,
            r->Ok_0.members() == self.members().push(
                Member { key: key@, value: optional_text(option_number(*value)) },
            ),
            *value matches Some(number) ==> number.wf(),
    {
        match value {
            Some(number) => self.number(key, number),
            None => {
                proof {
                    reveal_strlit("null");
                    assert("null"@ =~= null_text());
                }
                self.member(key, "null")
            },
        }
    }

    /// Closes the object and hands out its text.
    pub fn finish(self) -> (text: String)
        ensures
            text@ == object_text(self.members()),
    {
        proof {
            use_type_invariant(&self);
        }
        let mut text = self.text;
        text.append("}");
        proof {
            reveal_strlit("}");
            assert(text@ =~= object_text(self.members@));
        }
        text
    }
}

} // verus!
