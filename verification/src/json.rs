//! JSON documents as the library reads them.
//!
//! Parsing is done by `serde_json`; the tree it builds is handed over as a
//! [`Json`] value, whose model is [`JsonValue`]. Everything the decoders ask of
//! a document (a member of an object, a text, an integer) is a spec function
//! on that model, and the executable accessors are proved against them.

use vstd::prelude::*;
use vstd::string::*;
use vstd::utf8::*;
use crate::text::str_eq;

verus! {

/// A JSON document. A number keeps its text; the members of an object stand
/// in the order in which the parser hands them out.
#[derive(Debug)]
pub enum Json {
    Null,
    Bool(bool),
    Number(String),
    String(String),
    Array(Vec<Json>),
    Object(Vec<JsonMember>),
}

/// One member of a JSON object.
#[derive(Debug)]
pub struct JsonMember {
    pub name: String,
    pub value: Json,
}

/// The mathematical value of a JSON document.
pub ghost enum JsonValue {
    Null,
    Bool(bool),
    Number(Seq<char>),
    String(Seq<char>),
    Array(Seq<JsonValue>),
    Object(Seq<(Seq<char>, JsonValue)>),
}

impl View for Json {
    type V = JsonValue;

    open spec fn view(&self) -> JsonValue
        decreases self,
    {
        match self {
            Json::Null => JsonValue::Null,
            Json::Bool(b) => JsonValue::Bool(*b),
            Json::Number(text) => JsonValue::Number(text@),
            Json::String(text) => JsonValue::String(text@),
            Json::Array(items) => JsonValue::Array(
                Seq::new(
                    items@.len(),
                    |i: int|
                        if 0 <= i < items@.len() {
                            items@[i]@
                        } else {
                            JsonValue::Null
                        },
                ),
            ),
            Json::Object(members) => JsonValue::Object(
                Seq::new(
                    members@.len(),
                    |i: int|
                        if 0 <= i < members@.len() {
                            (members@[i].name@, members@[i].value@)
                        } else {
                            (Seq::empty(), JsonValue::Null)
                        },
                ),
            ),
        }
    }
}

/// The value of a run of decimal digits, read as ASCII bytes.
pub open spec fn digits_value(bytes: Seq<u8>) -> nat
    decreases bytes.len(),
{
    if bytes.len() == 0 {
        0
    } else {
        (digits_value(bytes.drop_last()) * 10 + (bytes.last() - 48)) as nat
    }
}

/// Whether every byte is a decimal digit.
pub open spec fn all_digits(bytes: Seq<u8>) -> bool {
    forall|i: int| 0 <= i < bytes.len() ==> 48 <= #[trigger] bytes[i] <= 57
}

/// The natural number that a text spells in decimal digits, if it is one or
/// more digits and nothing else.
pub open spec fn unsigned_decimal(bytes: Seq<u8>) -> Option<nat> {
    if bytes.len() > 0 && all_digits(bytes) {
        Some(digits_value(bytes))
    } else {
        None
    }
}

/// The integer that a text spells: digits, with or without a minus sign in
/// front.
pub open spec fn signed_decimal(bytes: Seq<u8>) -> Option<int> {
    if bytes.len() > 0 && bytes[0] == 45 {
        match unsigned_decimal(bytes.subrange(1, bytes.len() as int)) {
            Some(n) => Some(-(n as int)),
            None => None,
        }
    } else {
        match unsigned_decimal(bytes) {
            Some(n) => Some(n as int),
            None => None,
        }
    }
}

/// The first member of that name among `members`, from index `start` on.
pub open spec fn member_from(
    members: Seq<(Seq<char>, JsonValue)>,
    key: Seq<char>,
    start: int,
) -> Option<JsonValue>
    decreases members.len() - start,
{
    if start < 0 || start >= members.len() {
        None
    } else if members[start].0 == key {
        Some(members[start].1)
    } else {
        member_from(members, key, start + 1)
    }
}

impl JsonValue {
    /// The member of that name, where this is an object that has one.
    pub open spec fn member(self, key: Seq<char>) -> Option<JsonValue> {
        match self {
            JsonValue::Object(members) => member_from(members, key, 0),
            _ => None,
        }
    }

    /// The characters of a string.
    pub open spec fn as_text(self) -> Option<Seq<char>> {
        match self {
            JsonValue::String(text) => Some(text),
            _ => None,
        }
    }

    /// The value of a boolean.
    pub open spec fn as_bool(self) -> Option<bool> {
        match self {
            JsonValue::Bool(b) => Some(b),
            _ => None,
        }
    }

    /// The value of a number written as an integer that fits 64 bits without
    /// sign.
    pub open spec fn as_u64(self) -> Option<u64> {
        match self {
            JsonValue::Number(text) => match unsigned_decimal(encode_utf8(text)) {
                Some(n) if n <= u64::MAX => Some(n as u64),
                _ => None,
            },
            _ => None,
        }
    }

    /// The value of a number written as an integer that fits 64 bits with
    /// sign.
    pub open spec fn as_i64(self) -> Option<i64> {
        match self {
            JsonValue::Number(text) => match signed_decimal(encode_utf8(text)) {
                Some(n) if i64::MIN <= n <= i64::MAX => Some(n as i64),
                _ => None,
            },
            _ => None,
        }
    }

    /// The elements of an array.
    pub open spec fn as_items(self) -> Option<Seq<JsonValue>> {
        match self {
            JsonValue::Array(items) => Some(items),
            _ => None,
        }
    }

    /// Whether this is `null`.
    pub open spec fn is_null(self) -> bool {
        self is Null
    }

    /// The text of the member `key`.
    pub open spec fn text_at(self, key: Seq<char>) -> Option<Seq<char>> {
        match self.member(key) {
            Some(v) => v.as_text(),
            None => None,
        }
    }

    /// The unsigned integer of the member `key`.
    pub open spec fn u64_at(self, key: Seq<char>) -> Option<u64> {
        match self.member(key) {
            Some(v) => v.as_u64(),
            None => None,
        }
    }

    /// The signed integer of the member `key`.
    pub open spec fn i64_at(self, key: Seq<char>) -> Option<i64> {
        match self.member(key) {
            Some(v) => v.as_i64(),
            None => None,
        }
    }

    /// The signed integer of the member `key`, where it fits 32 bits.
    pub open spec fn i32_at(self, key: Seq<char>) -> Option<i32> {
        match self.i64_at(key) {
            Some(n) if i32::MIN <= n <= i32::MAX => Some(n as i32),
            _ => None,
        }
    }

    /// The unsigned integer of the member `key`, where it fits 32 bits.
    pub open spec fn u32_at(self, key: Seq<char>) -> Option<u32> {
        match self.u64_at(key) {
            Some(n) if n <= u32::MAX => Some(n as u32),
            _ => None,
        }
    }

    /// The unsigned integer of the member `key`, where it fits 16 bits.
    pub open spec fn u16_at(self, key: Seq<char>) -> Option<u16> {
        match self.u64_at(key) {
            Some(n) if n <= u16::MAX => Some(n as u16),
            _ => None,
        }
    }

    /// The signed integer of an optional member: `Some(None)` where it is
    /// left out or `null`, `None` where it is there and no such integer.
    pub open spec fn optional_i64_at(self, key: Seq<char>) -> Option<Option<i64>> {
        if self.absent_at(key) {
            Some(None)
        } else {
            match self.i64_at(key) {
                Some(n) => Some(Some(n)),
                None => None,
            }
        }
    }

    /// The boolean of the member `key`.
    pub open spec fn bool_at(self, key: Seq<char>) -> Option<bool> {
        match self.member(key) {
            Some(v) => v.as_bool(),
            None => None,
        }
    }

    /// The elements of the member `key`.
    pub open spec fn items_at(self, key: Seq<char>) -> Option<Seq<JsonValue>> {
        match self.member(key) {
            Some(v) => v.as_items(),
            None => None,
        }
    }

    /// Whether the member `key` is left out or `null`.
    pub open spec fn absent_at(self, key: Seq<char>) -> bool {
        match self.member(key) {
            Some(v) => v.is_null(),
            None => true,
        }
    }

    /// The text of an optional member: `Some(None)` where it is left out or
    /// `null`, `Some(Some(..))` where it is a string, `None` where it is
    /// anything else.
    pub open spec fn optional_text_at(self, key: Seq<char>) -> Option<Option<Seq<char>>> {
        if self.absent_at(key) {
            Some(None)
        } else {
            match self.text_at(key) {
                Some(t) => Some(Some(t)),
                None => None,
            }
        }
    }
}

/// The characters of an optional string.
pub open spec fn string_view(s: Option<String>) -> Option<Seq<char>> {
    match s {
        Some(t) => Some(t@),
        None => None,
    }
}

/// The characters of an optional string inside an option.
pub open spec fn nested_string_view(s: Option<Option<String>>) -> Option<Option<Seq<char>>> {
    match s {
        Some(t) => Some(string_view(t)),
        None => None,
    }
}

/// The document that a text spells, where it spells one.
///
/// The text is parsed by `serde_json`; the outcome depends on the text alone.
pub uninterp spec fn json_document(text: Seq<char>) -> Option<JsonValue>;

#[verifier::external_type_specification]
#[verifier::external_body]
pub struct ExJsonError(serde_json::Error);

#[verifier::external_type_specification]
#[verifier::external_body]
pub struct ExJsonTree(serde_json::Value);

/// Hands a parsed tree over as a [`Json`] value.
///
/// Trusted: tells the six variants of `serde_json::Value` apart and moves
/// what each holds; a number is kept as the text that `Number`'s `Display`
/// writes, the members of an object in the order of `Map::into_iter`.
#[verifier::external_body]
fn json_from_tree(tree: serde_json::Value) -> Json {
    match tree {
        serde_json::Value::Null => Json::Null,
        serde_json::Value::Bool(b) => Json::Bool(b),
        serde_json::Value::Number(n) => Json::Number(n.to_string()),
        serde_json::Value::String(s) => Json::String(s),
        serde_json::Value::Array(items) => Json::Array(
            items.into_iter().map(json_from_tree).collect(),
        ),
        serde_json::Value::Object(members) => Json::Object(
            members.into_iter().map(|(k, v)| JsonMember { name: k, value: json_from_tree(v) }).collect(),
        ),
    }
}

/// Parses a text into a document.
///
/// Trusted: `serde_json::from_str` at the type `serde_json::Value`. It fails
/// on a text that is no JSON document and otherwise returns the tree of the
/// document, which is handed over unchanged.
#[verifier::external_body]
fn parse_document(text: &str) -> (r: Result<Json, serde_json::Error>)
    ensures
        r is Ok <==> json_document(text@) is Some,
        r matches Ok(j) ==> json_document(text@) == Some(j@),
{
    serde_json::from_str::<serde_json::Value>(text).map(json_from_tree)
}

/// The error of a document that has none of the shapes of a type.
///
/// Trusted: `serde::de::Error::custom` of `serde_json::Error`, which makes
/// an error with the given message. Nothing is claimed of the error.
#[verifier::external_body]
pub(crate) fn shape_error(message: &str) -> serde_json::Error {
    <serde_json::Error as serde::de::Error>::custom(message)
}

/// The value of the digits in `bytes[..end]` does not shrink as `end` grows.
proof fn lemma_digits_value_monotonic(bytes: Seq<u8>, shorter: int, longer: int)
    requires
        all_digits(bytes),
        0 <= shorter <= longer <= bytes.len(),
    ensures
        digits_value(bytes.subrange(0, shorter)) <= digits_value(bytes.subrange(0, longer)),
    decreases longer - shorter,
{
    if shorter < longer {
        lemma_digits_value_monotonic(bytes, shorter, longer - 1);
        let s = bytes.subrange(0, longer);
        assert(s.drop_last() =~= bytes.subrange(0, longer - 1));
        assert(s.last() == bytes[longer - 1]);
    }
}

/// Reads `bytes` as decimal digits.
fn parse_digits(bytes: &[u8], from: usize) -> (r: Option<u64>)
    requires
        from <= bytes@.len(),
    ensures
        r == match unsigned_decimal(bytes@.subrange(from as int, bytes@.len() as int)) {
            Some(n) if n <= u64::MAX => Some(n as u64),
            _ => None,
        },
{
    let n: usize = bytes.len();
    let ghost digits = bytes@.subrange(from as int, n as int);
    if from == n {
        return None;
    }
    let mut value: u64 = 0;
    let mut i: usize = from;
    assert(digits.subrange(0, 0) =~= Seq::<u8>::empty());
    while i < n
        invariant
            n == bytes@.len(),
            from <= i <= n,
            digits == bytes@.subrange(from as int, n as int),
            all_digits(digits.subrange(0, i - from)),
            value == digits_value(digits.subrange(0, i - from)),
        decreases n - i,
    {
        let b: u8 = bytes[i];
        if b < 48 || b > 57 {
            assert(digits[i - from] == b);
            return None;
        }
        let d: u64 = (b - 48) as u64;
        proof {
            let next = digits.subrange(0, i - from + 1);
            assert(next.drop_last() =~= digits.subrange(0, i - from));
            assert(next.last() == b);
            assert(all_digits(next)) by {
                assert forall|k: int| 0 <= k < next.len() implies 48 <= #[trigger] next[k]
                    <= 57 by {
                    if k < i - from {
                        assert(digits.subrange(0, i - from)[k] == next[k]);
                    }
                }
            }
            assert(digits_value(next) == value * 10 + d);
        }
        if value > (u64::MAX - d) / 10 {
            proof {
                let next = digits.subrange(0, i - from + 1);
                assert(digits_value(next) > u64::MAX);
                if all_digits(digits) {
                    lemma_digits_value_monotonic(digits, i - from + 1, digits.len() as int);
                    assert(digits.subrange(0, digits.len() as int) =~= digits);
                }
            }
            return None;
        }
        value = value * 10 + d;
        i = i + 1;
    }
    assert(digits.subrange(0, n - from) =~= digits);
    Some(value)
}

impl Json {
    /// Parses `text`; the error is the parser's own.
    pub fn parse(text: &str) -> (r: Result<Json, serde_json::Error>)
        ensures
            r is Ok <==> json_document(text@) is Some,
            r matches Ok(j) ==> json_document(text@) == Some(j@),
    {
        parse_document(text)
    }

    /// A copy of the document.
    pub fn duplicate(&self) -> (copy: Json)
        ensures
            copy@ == self@,
        decreases self,
    {
        match self {
            Json::Null => Json::Null,
            Json::Bool(b) => Json::Bool(*b),
            Json::Number(text) => Json::Number(text.clone()),
            Json::String(text) => Json::String(text.clone()),
            Json::Array(items) => {
                let mut copies: Vec<Json> = Vec::new();
                let n: usize = items.len();
                let mut i: usize = 0;
                while i < n
                    invariant
                        n == items@.len(),
                        i <= n,
                        *self is Array,
                        self->Array_0 == *items,
                        copies@.len() == i,
                        forall|k: int| 0 <= k < i ==> (#[trigger] copies@[k])@ == items@[k]@,
                    decreases n - i,
                {
                    assert(decreases_to!(*self => self->Array_0));
                    assert(decreases_to!(*items => items[i as int]));
                    let copy = items[i].duplicate();
                    copies.push(copy);
                    i = i + 1;
                }
                let copy = Json::Array(copies);
                proof {
                    reveal_with_fuel(<Json as View>::view, 2);
                    assert(copy@->Array_0 =~= self@->Array_0);
                }
                copy
            },
            Json::Object(members) => {
                let mut copies: Vec<JsonMember> = Vec::new();
                let n: usize = members.len();
                let mut i: usize = 0;
                while i < n
                    invariant
                        n == members@.len(),
                        i <= n,
                        *self is Object,
                        self->Object_0 == *members,
                        copies@.len() == i,
                        forall|k: int|
                            0 <= k < i ==> (#[trigger] copies@[k]).name@ == members@[k].name@
                                && copies@[k].value@ == members@[k].value@,
                    decreases n - i,
                {
                    assert(decreases_to!(*self => self->Object_0));
                    assert(decreases_to!(*members => members[i as int]));
                    assert(decreases_to!(members[i as int] => members[i as int].value));
                    let value = members[i].value.duplicate();
                    copies.push(JsonMember { name: members[i].name.clone(), value });
                    i = i + 1;
                }
                let copy = Json::Object(copies);
                proof {
                    reveal_with_fuel(<Json as View>::view, 2);
                    assert(copy@->Object_0 =~= self@->Object_0);
                }
                copy
            },
        }
    }

    /// The member of that name, where this is an object that has one.
    pub fn get(&self, key: &str) -> (r: Option<&Json>)
        ensures
            r is Some <==> self@.member(key@) is Some,
            r matches Some(v) ==> self@.member(key@) == Some(v@),
    {
        match self {
            Json::Object(members) => {
                let n: usize = members.len();
                let mut i: usize = 0;
                let ghost model = self@->Object_0;
                proof {
                    reveal_with_fuel(<Json as View>::view, 2);
                }
                while i < n
                    invariant
                        n == members@.len(),
                        i <= n,
                        model.len() == n,
                        self@ == JsonValue::Object(model),
                        forall|k: int|
                            0 <= k < n ==> #[trigger] model[k] == (
                                members@[k].name@,
                                members@[k].value@,
                            ),
                        member_from(model, key@, 0) == member_from(model, key@, i as int),
                    decreases n - i,
                {
                    if str_eq(members[i].name.as_str(), key) {
                        return Some(&members[i].value);
                    }
                    i = i + 1;
                }
                None
            },
            _ => None,
        }
    }

    /// The characters of a string.
    pub fn as_str(&self) -> (r: Option<&str>)
        ensures
            crate::signer::optional_text(r) == self@.as_text(),
    {
        match self {
            Json::String(text) => Some(text.as_str()),
            _ => None,
        }
    }

    /// The value of a boolean.
    pub fn as_bool(&self) -> (r: Option<bool>)
        ensures
            r == self@.as_bool(),
    {
        match self {
            Json::Bool(b) => Some(*b),
            _ => None,
        }
    }

    /// The value of a number written as an integer that fits `u64`.
    pub fn as_u64(&self) -> (r: Option<u64>)
        ensures
            r == self@.as_u64(),
    {
        match self {
            Json::Number(text) => {
                let bytes = text.as_str().as_bytes();
                assert(bytes@.subrange(0, bytes@.len() as int) =~= bytes@);
                parse_digits(bytes, 0)
            },
            _ => None,
        }
    }

    /// The value of a number written as an integer that fits `i64`.
    pub fn as_i64(&self) -> (r: Option<i64>)
        ensures
            r == self@.as_i64(),
    {
        match self {
            Json::Number(text) => {
                let bytes = text.as_str().as_bytes();
                if bytes.len() > 0 && bytes[0] == 45 {
                    match parse_digits(bytes, 1) {
                        Some(n) => {
                            if n <= 0x7fff_ffff_ffff_ffff {
                                Some(-(n as i64))
                            } else if n == 0x8000_0000_0000_0000 {
                                Some(i64::MIN)
                            } else {
                                None
                            }
                        },
                        None => None,
                    }
                } else {
                    assert(bytes@.subrange(0, bytes@.len() as int) =~= bytes@);
                    match parse_digits(bytes, 0) {
                        Some(n) => {
                            if n <= 0x7fff_ffff_ffff_ffff {
                                Some(n as i64)
                            } else {
                                None
                            }
                        },
                        None => None,
                    }
                }
            },
            _ => None,
        }
    }

    /// The elements of an array.
    pub fn as_array(&self) -> (r: Option<&Vec<Json>>)
        ensures
            r is Some <==> self@.as_items() is Some,
            r matches Some(items) ==> {
                &&& self@.as_items()->Some_0.len() == items@.len()
                &&& forall|i: int|
                    0 <= i < items@.len() ==> #[trigger] self@.as_items()->Some_0[i] == items@[i]@
            },
    {
        match self {
            Json::Array(items) => Some(items),
            _ => None,
        }
    }

    /// Whether this is `null`.
    pub fn is_null(&self) -> (r: bool)
        ensures
            r == self@.is_null(),
    {
        match self {
            Json::Null => true,
            _ => false,
        }
    }

    /// The text of the member `key`, in a string of its own.
    pub fn text_at(&self, key: &str) -> (r: Option<String>)
        ensures
            string_view(r) == self@.text_at(key@),
    {
        match self.get(key) {
            Some(v) => match v.as_str() {
                Some(t) => Some(String::from_str(t)),
                None => None,
            },
            None => None,
        }
    }

    /// The unsigned integer of the member `key`.
    pub fn u64_at(&self, key: &str) -> (r: Option<u64>)
        ensures
            r == self@.u64_at(key@),
    {
        match self.get(key) {
            Some(v) => v.as_u64(),
            None => None,
        }
    }

    /// The signed integer of the member `key`.
    pub fn i64_at(&self, key: &str) -> (r: Option<i64>)
        ensures
            r == self@.i64_at(key@),
    {
        match self.get(key) {
            Some(v) => v.as_i64(),
            None => None,
        }
    }

    /// The signed integer of the member `key`, where it fits `i32`.
    pub fn i32_at(&self, key: &str) -> (r: Option<i32>)
        ensures
            r == self@.i32_at(key@),
    {
        match self.i64_at(key) {
            Some(n) => if -0x8000_0000 <= n && n <= 0x7fff_ffff {
                Some(n as i32)
            } else {
                None
            },
            None => None,
        }
    }

    /// The unsigned integer of the member `key`, where it fits `u32`.
    pub fn u32_at(&self, key: &str) -> (r: Option<u32>)
        ensures
            r == self@.u32_at(key@),
    {
        match self.u64_at(key) {
            Some(n) => if n <= 0xffff_ffff {
                Some(n as u32)
            } else {
                None
            },
            None => None,
        }
    }

    /// The unsigned integer of the member `key`, where it fits `u16`.
    pub fn u16_at(&self, key: &str) -> (r: Option<u16>)
        ensures
            r == self@.u16_at(key@),
    {
        match self.u64_at(key) {
            Some(n) => if n <= 0xffff {
                Some(n as u16)
            } else {
                None
            },
            None => None,
        }
    }

    /// The signed integer of an optional member: `Some(None)` where it is
    /// left out or `null`, `None` where it is there and no such integer.
    pub fn optional_i64_at(&self, key: &str) -> (r: Option<Option<i64>>)
        ensures
            r == self@.optional_i64_at(key@),
    {
        match self.get(key) {
            Some(v) => {
                if v.is_null() {
                    Some(None)
                } else {
                    match v.as_i64() {
                        Some(n) => Some(Some(n)),
                        None => None,
                    }
                }
            },
            None => Some(None),
        }
    }

    /// The boolean of the member `key`.
    pub fn bool_at(&self, key: &str) -> (r: Option<bool>)
        ensures
            r == self@.bool_at(key@),
    {
        match self.get(key) {
            Some(v) => v.as_bool(),
            None => None,
        }
    }

    /// The text of an optional member: `Some(None)` where it is left out or
    /// `null`, `None` where it is there and no string.
    pub fn optional_text_at(&self, key: &str) -> (r: Option<Option<String>>)
        ensures
            nested_string_view(r) == self@.optional_text_at(key@),
    {
        match self.get(key) {
            Some(v) => {
                if v.is_null() {
                    Some(None)
                } else {
                    match v.as_str() {
                        Some(t) => Some(Some(String::from_str(t))),
                        None => None,
                    }
                }
            },
            None => Some(None),
        }
    }
}

} // verus!
