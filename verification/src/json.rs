//! JSON documents as plain trees, and the reading of loosely typed fields.
//!
//! Parsing is serde_json's; everything that reads a parsed tree is verified.

use vstd::prelude::*;
use vstd::string::*;
use vstd::utf8::is_ascii_chars;

verus! {

/// serde_json's value type, as it comes out of its parser.
#[verifier::external_type_specification]
#[verifier::external_body]
pub struct ExValue(serde_json::Value);

/// One named member of a JSON object.
#[derive(Debug)]
pub struct Member {
    pub name: String,
    pub value: Json,
}

/// A JSON document.
#[derive(Debug)]
pub enum Json {
    Null,
    Bool(bool),
    /// A number that is a whole number within `i64`.
    Integer(i64),
    /// Any other number; its value is not kept.
    Fraction,
    Text(String),
    List(Vec<Json>),
    Record(Vec<Member>),
}

/// serde_json's error type.
#[verifier::external_type_specification]
#[verifier::external_body]
pub struct ExParseError(serde_json::Error);

/// What a `serde_json::Value` holds, as a `Json`: each variant stands for the
/// variant of the same kind, a number for `Integer` where `Number::as_i64`
/// gives a value and for `Fraction` where it gives none, and an object for
/// its members in the order in which the value walks them.
pub uninterp spec fn value_tree(value: serde_json::Value) -> Json;

/// The tree that serde_json reads from a text, or `None` where it rejects the text.
pub uninterp spec fn json_tree(text: Seq<char>) -> Option<Json>;

/// Carries a `serde_json::Value` over into a `Json`, variant by variant.
#[verifier::external_body]
pub(crate) fn lift(value: &serde_json::Value) -> (tree: Json)
    ensures
        tree == value_tree(*value),
{
    match value {
        serde_json::Value::Null => Json::Null,
        serde_json::Value::Bool(b) => Json::Bool(*b),
        serde_json::Value::Number(n) => n.as_i64().map_or(Json::Fraction, Json::Integer),
        serde_json::Value::String(s) => Json::Text(s.clone()),
        serde_json::Value::Array(items) => Json::List(items.iter().map(lift).collect()),
        serde_json::Value::Object(members) => Json::Record(
            members.iter().map(|(k, v)| Member { name: k.clone(), value: lift(v) }).collect(),
        ),
    }
}

/// `serde_json::from_str` at `serde_json::Value`: the parsed document, or an
/// error where the text is no JSON document. The result depends on the text
/// alone.
#[verifier::external_body]
fn parse_value(text: &str) -> (parsed: Result<serde_json::Value, serde_json::Error>)
    ensures
        match parsed {
            Ok(value) => json_tree(text@) == Some(value_tree(value)),
            Err(_) => json_tree(text@) is None,
        },
{
    serde_json::from_str::<serde_json::Value>(text)
}

/// The value of the first member named `key`, if any.
pub open spec fn lookup(members: Seq<Member>, key: Seq<char>) -> Option<Json>
    decreases members.len(),
{
    if members.len() == 0 {
        None
    } else if members[0].name@ == key {
        Some(members[0].value)
    } else {
        lookup(members.drop_first(), key)
    }
}

/// The value of a digit string read as a decimal number.
pub open spec fn digits_value(digits: Seq<char>) -> nat
    decreases digits.len(),
{
    if digits.len() == 0 {
        0
    } else {
        digits_value(digits.drop_last()) * 10 + ((digits.last() as u32 - '0' as u32) as nat)
    }
}

/// Every character is one of `0` to `9`.
pub open spec fn all_digits(digits: Seq<char>) -> bool {
    forall|i: int| 0 <= i < digits.len() ==> '0' <= #[trigger] digits[i] <= '9'
}

/// The whole number that a sign and a digit string spell: the digits must be
/// one or more, and the signed value must lie within `i64`.
pub open spec fn integer_of_digits(negative: bool, digits: Seq<char>) -> Option<int> {
    let value = if negative {
        -(digits_value(digits) as int)
    } else {
        digits_value(digits) as int
    };
    if digits.len() > 0 && all_digits(digits) && i64::MIN <= value <= i64::MAX {
        Some(value)
    } else {
        None
    }
}

/// The whole number that a text spells: an optional `+` or `-`, then one or
/// more decimal digits and nothing else, with a value within `i64`.
pub open spec fn integer_text(text: Seq<char>) -> Option<int> {
    if text.len() > 0 && (text[0] == '-' || text[0] == '+') {
        integer_of_digits(text[0] == '-', text.skip(1))
    } else {
        integer_of_digits(false, text)
    }
}

impl Json {
    /// The member `key` of an object; `None` for anything but an object and
    /// for a missing member.
    pub open spec fn field(self, key: Seq<char>) -> Option<Json> {
        match self {
            Json::Record(members) => lookup(members@, key),
            _ => None,
        }
    }

    /// The characters of a string value.
    pub open spec fn text(self) -> Option<Seq<char>> {
        match self {
            Json::Text(s) => Some(s@),
            _ => None,
        }
    }

    /// The elements of an array value.
    pub open spec fn elements(self) -> Option<Seq<Json>> {
        match self {
            Json::List(items) => Some(items@),
            _ => None,
        }
    }

    /// The whole number that a value stands for: a native whole number, or a
    /// string that spells one. Anything else stands for none.
    pub open spec fn loose_integer(self) -> Option<int> {
        match self {
            Json::Integer(n) => Some(n as int),
            Json::Text(s) => integer_text(s@),
            _ => None,
        }
    }

    /// The characters of the string member `key`.
    pub open spec fn text_at(self, key: Seq<char>) -> Option<Seq<char>> {
        match self.field(key) {
            Some(value) => value.text(),
            None => None,
        }
    }

    /// The member `key` where it is a native whole number.
    pub open spec fn integer_at(self, key: Seq<char>) -> Option<int> {
        match self.field(key) {
            Some(Json::Integer(n)) => Some(n as int),
            _ => None,
        }
    }

    /// The whole number that the member `key` stands for, written as a number
    /// or as a string of digits.
    pub open spec fn loose_integer_at(self, key: Seq<char>) -> Option<int> {
        match self.field(key) {
            Some(value) => value.loose_integer(),
            None => None,
        }
    }

    /// The member `key`, with a `null` member counted as missing.
    pub open spec fn present(self, key: Seq<char>) -> Option<Json> {
        match self.field(key) {
            Some(Json::Null) => None,
            found => found,
        }
    }

    /// The member `key` where it is `true` or `false`.
    pub open spec fn bool_at(self, key: Seq<char>) -> Option<bool> {
        match self.field(key) {
            Some(Json::Bool(b)) => Some(b),
            _ => None,
        }
    }

    /// The string member `key`, or the empty string where the member is
    /// missing. A member of another type gives `None`.
    pub open spec fn text_or_empty_at(self, key: Seq<char>) -> Option<Seq<char>> {
        match self.field(key) {
            None => Some(Seq::<char>::empty()),
            Some(value) => value.text(),
        }
    }

    /// The string member `key` where it may be missing or `null`: `Some(None)`
    /// where it is, `Some(Some(..))` for a string, `None` for another type.
    pub open spec fn optional_text_at(self, key: Seq<char>) -> Option<Option<Seq<char>>> {
        match self.present(key) {
            None => Some(None),
            Some(value) => match value.text() {
                Some(s) => Some(Some(s)),
                None => None,
            },
        }
    }

    /// The whole number that the member `key` stands for, where the member may
    /// be missing or `null`: `Some(None)` where it is, `None` where it is
    /// there and stands for no whole number.
    pub open spec fn optional_loose_integer_at(self, key: Seq<char>) -> Option<Option<int>> {
        match self.present(key) {
            None => Some(None),
            Some(value) => match value.loose_integer() {
                Some(n) => Some(Some(n)),
                None => None,
            },
        }
    }

    /// The whole number that the member `key` stands for, where it lies
    /// within `i32`.
    pub open spec fn loose_i32_at(self, key: Seq<char>) -> Option<int> {
        match self.loose_integer_at(key) {
            Some(n) => if i32::MIN <= n <= i32::MAX {
                Some(n)
            } else {
                None
            },
            None => None,
        }
    }

    /// Reads a JSON document from its text.
    pub fn parse(text: &str) -> (tree: Option<Json>)
        ensures
            tree == json_tree(text@),
    {
        match parse_value(text) {
            Ok(value) => Some(lift(&value)),
            Err(_) => None,
        }
    }

    /// The member `key` of an object.
    pub fn get(&self, key: &str) -> (found: Option<&Json>)
        ensures
            match found {
                Some(value) => self.field(key@) == Some(*value),
                None => self.field(key@) is None,
            },
    {
        match self {
            Json::Record(members) => {
                let wanted = key.to_owned();
                let mut i: usize = 0;
                proof {
                    assert(members@.skip(0) =~= members@);
                }
                while i < members.len()
                    invariant
                        i <= members@.len(),
                        wanted@ == key@,
                        self.field(key@) == lookup(members@, key@),
                        lookup(members@, key@) == lookup(members@.skip(i as int), key@),
                    decreases members@.len() - i,
                {
                    proof {
                        assert(members@.skip(i as int)[0] == members@[i as int]);
                    }
                    if members[i].name == wanted {
                        return Some(&members[i].value);
                    }
                    proof {
                        assert(members@.skip(i as int).drop_first() =~= members@.skip(i + 1));
                    }
                    i += 1;
                }
                None
            },
            _ => None,
        }
    }

    /// The string of a string value.
    pub fn as_text(&self) -> (found: Option<&String>)
        ensures
            match found {
                Some(s) => self.text() == Some(s@) && *self == Json::Text(*s),
                None => self.text() is None,
            },
    {
        match self {
            Json::Text(s) => Some(s),
            _ => None,
        }
    }

    /// The elements of an array value.
    pub fn as_list(&self) -> (found: Option<&Vec<Json>>)
        ensures
            match found {
                Some(items) => self.elements() == Some(items@) && *self == Json::List(*items),
                None => self.elements() is None,
            },
    {
        match self {
            Json::List(items) => Some(items),
            _ => None,
        }
    }

    /// The string member `key`.
    pub fn get_text(&self, key: &str) -> (found: Option<&String>)
        ensures
            match found {
                Some(s) => self.text_at(key@) == Some(s@),
                None => self.text_at(key@) is None,
            },
    {
        match self.get(key) {
            Some(value) => value.as_text(),
            None => None,
        }
    }

    /// The member `key` where it is a native whole number.
    pub fn get_integer(&self, key: &str) -> (found: Option<i64>)
        ensures
            match found {
                Some(n) => self.integer_at(key@) == Some(n as int),
                None => self.integer_at(key@) is None,
            },
    {
        match self.get(key) {
            Some(Json::Integer(n)) => Some(*n),
            _ => None,
        }
    }

    /// The whole number that the member `key` stands for.
    pub fn get_loose_integer(&self, key: &str) -> (found: Option<i64>)
        ensures
            match found {
                Some(n) => self.loose_integer_at(key@) == Some(n as int),
                None => self.loose_integer_at(key@) is None,
            },
    {
        match self.get(key) {
            Some(value) => value.as_integer(),
            None => None,
        }
    }

    /// The member `key`, with a `null` member counted as missing.
    pub fn get_present(&self, key: &str) -> (found: Option<&Json>)
        ensures
            match found {
                Some(value) => self.present(key@) == Some(*value),
                None => self.present(key@) is None,
            },
    {
        match self.get(key) {
            Some(Json::Null) => None,
            found => found,
        }
    }

    /// The member `key` where it is `true` or `false`.
    pub fn get_bool(&self, key: &str) -> (found: Option<bool>)
        ensures
            found == self.bool_at(key@),
    {
        match self.get(key) {
            Some(Json::Bool(b)) => Some(*b),
            _ => None,
        }
    }

    /// A copy of the string member `key`, or the empty string where the
    /// member is missing.
    pub fn get_text_or_empty(&self, key: &str) -> (found: Option<String>)
        ensures
            match found {
                Some(s) => self.text_or_empty_at(key@) == Some(s@),
                None => self.text_or_empty_at(key@) is None,
            },
    {
        match self.get(key) {
            None => Some(String::new()),
            Some(value) => match value.as_text() {
                Some(s) => Some(s.clone()),
                None => None,
            },
        }
    }

    /// A copy of the string member `key` where it may be missing or `null`.
    pub fn get_optional_text(&self, key: &str) -> (found: Option<Option<String>>)
        ensures
            match found {
                Some(Some(s)) => self.optional_text_at(key@) == Some(Some(s@)),
                Some(None) => self.optional_text_at(key@) == Some(None::<Seq<char>>),
                None => self.optional_text_at(key@) is None,
            },
    {
        match self.get_present(key) {
            None => Some(None),
            Some(value) => match value.as_text() {
                Some(s) => Some(Some(s.clone())),
                None => None,
            },
        }
    }

    /// The whole number that the member `key` stands for, where the member
    /// may be missing or `null`.
    pub fn get_optional_loose_integer(&self, key: &str) -> (found: Option<Option<i64>>)
        ensures
            match found {
                Some(Some(n)) => self.optional_loose_integer_at(key@) == Some(Some(n as int)),
                Some(None) => self.optional_loose_integer_at(key@) == Some(None::<int>),
                None => self.optional_loose_integer_at(key@) is None,
            },
    {
        match self.get_present(key) {
            None => Some(None),
            Some(value) => match value.as_integer() {
                Some(n) => Some(Some(n)),
                None => None,
            },
        }
    }

    /// The whole number that the member `key` stands for, where it lies
    /// within `i32`.
    pub fn get_loose_i32(&self, key: &str) -> (found: Option<i32>)
        ensures
            match found {
                Some(n) => self.loose_i32_at(key@) == Some(n as int),
                None => self.loose_i32_at(key@) is None,
            },
    {
        match self.get_loose_integer(key) {
            Some(n) => if -2147483648 <= n && n <= 2147483647 {
                Some(n as i32)
            } else {
                None
            },
            None => None,
        }
    }

    /// The whole number that a value stands for, whether it is written as a
    /// number or as a string of digits.
    pub fn as_integer(&self) -> (found: Option<i64>)
        ensures
            match found {
                Some(n) => self.loose_integer() == Some(n as int),
                None => self.loose_integer() is None,
            },
    {
        match self {
            Json::Integer(n) => Some(*n),
            Json::Text(s) => parse_integer(s.as_str()),
            _ => None,
        }
    }
}

/// A digit string's value does not shrink as digits are appended.
pub proof fn lemma_digits_value_grows(digits: Seq<char>, n: int)
    requires
        0 <= n <= digits.len(),
        all_digits(digits),
    ensures
        digits_value(digits.take(n)) <= digits_value(digits),
    decreases digits.len() - n,
{
    if n < digits.len() {
        lemma_digits_value_grows(digits, n + 1);
        assert(digits.take(n + 1).drop_last() =~= digits.take(n));
        assert(digits.take(n + 1).last() == digits[n]);
    } else {
        assert(digits.take(n) =~= digits);
    }
}

/// Reads a whole number from its decimal text.
pub fn parse_integer(text: &str) -> (found: Option<i64>)
    ensures
        match found {
            Some(n) => integer_text(text@) == Some(n as int),
            None => integer_text(text@) is None,
        },
{
    if !text.is_ascii() {
        proof {
            lemma_digits_are_ascii(text@);
        }
        return None;
    }
    let len: usize = text.unicode_len();
    if len == 0 {
        return None;
    }
    let first: u8 = text.get_ascii(0);
    let negative: bool = first == 45u8;
    let start: usize = if first == 45u8 || first == 43u8 { 1 } else { 0 };
    proof {
        lemma_ascii_code(text@[0]);
        assert(negative == (text@[0] == '-'));
        assert((start == 1) == (text@[0] == '-' || text@[0] == '+'));
    }
    if start == len {
        return None;
    }
    let ghost digits: Seq<char> = text@.skip(start as int);
    proof {
        assert(digits.take(0) =~= Seq::<char>::empty());
        assert(start == 0 ==> digits =~= text@);
        assert(integer_text(text@) == integer_of_digits(negative, digits));
    }
    // The magnitude may reach 2^63, the magnitude of the least `i64`.
    let mut magnitude: u64 = 0;
    let mut i: usize = start;
    while i < len
        invariant
            start <= i <= len,
            len == text@.len(),
            text.is_ascii(),
            digits == text@.skip(start as int),
            digits.len() == len - start,
            integer_text(text@) == integer_of_digits(negative, digits),
            all_digits(digits.take(i - start)),
            magnitude == digits_value(digits.take(i - start)),
            magnitude <= 9223372036854775808u64,
        decreases len - i,
    {
        let c: u8 = text.get_ascii(i);
        proof {
            lemma_ascii_code(text@[i as int]);
            assert(digits[i - start] == text@[i as int]);
            assert(digits.take(i - start + 1).drop_last() =~= digits.take(i - start));
            assert(digits.take(i - start + 1).last() == digits[i - start]);
        }
        if c < 48u8 || c > 57u8 {
            proof {
                assert(!('0' <= digits[i - start] <= '9'));
            }
            return None;
        }
        let d: u64 = (c - 48u8) as u64;
        proof {
            assert(d == (digits[i - start] as u32 - '0' as u32) as nat);
        }
        if magnitude > (9223372036854775808u64 - d) / 10 {
            proof {
                let longer = digits.take(i - start + 1);
                assert(digits_value(longer) > 9223372036854775808u64);
                if all_digits(digits) {
                    lemma_digits_value_grows(digits, i - start + 1);
                }
            }
            return None;
        }
        magnitude = magnitude * 10 + d;
        proof {
            assert forall|k: int| 0 <= k < digits.take(i - start + 1).len() implies '0'
                <= #[trigger] digits.take(i - start + 1)[k] <= '9' by {
                if k < i - start {
                    assert(digits.take(i - start)[k] == digits[k]);
                }
            }
        }
        i += 1;
    }
    proof {
        assert(digits.take(len - start) =~= digits);
    }
    if negative {
        if magnitude == 9223372036854775808u64 {
            Some(i64::MIN)
        } else {
            Some(-(magnitude as i64))
        }
    } else if magnitude > 9223372036854775807u64 {
        None
    } else {
        Some(magnitude as i64)
    }
}

/// An ASCII character and its code determine each other.
pub proof fn lemma_ascii_code(c: char)
    requires
        '\0' <= c <= '\u{7f}',
    ensures
        c as u8 as u32 == c as u32,
        (c as u8 == 45u8) == (c == '-'),
        (c as u8 == 43u8) == (c == '+'),
        (48u8 <= c as u8 <= 57u8) == ('0' <= c <= '9'),
        '0' as u32 == 48,
{
}

/// A text with a character beyond ASCII spells no whole number.
pub proof fn lemma_digits_are_ascii(text: Seq<char>)
    requires
        !is_ascii_chars(text),
    ensures
        integer_text(text) is None,
{
    let signed = text.len() > 0 && (text[0] == '-' || text[0] == '+');
    let digits = if signed {
        text.skip(1)
    } else {
        text
    };
    if all_digits(digits) {
        assert forall|i: int| 0 <= i < text.len() implies '\0' <= #[trigger] text[i]
            <= '\u{7f}' by {
            if signed {
                if i > 0 {
                    assert(digits[i - 1] == text[i]);
                }
            } else {
                assert(digits[i] == text[i]);
            }
        }
    }
}

} // verus!
