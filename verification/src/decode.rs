//! Typed values out of JSON documents.
//!
//! A type that can be read from a document says which documents have its
//! shape and what a value must hold to describe such a document. Reading
//! succeeds exactly on the documents of that shape, and the value that comes
//! out describes the document it was read from.

use vstd::prelude::*;
use crate::json::{Json, JsonValue};

verus! {

/// A type whose values are read from JSON documents.
pub trait FromJson: Sized {
    /// Whether the document has the shape of this type: every member that
    /// the type requires is there and has the kind that the type expects.
    /// Members that the type does not know are ignored.
    spec fn has_shape(document: JsonValue) -> bool;

    /// Whether this value holds what the document says.
    spec fn describes(&self, document: JsonValue) -> bool;

    fn from_json(document: &Json) -> (r: Option<Self>)
        ensures
            r is Some <==> Self::has_shape(document@),
            r matches Some(value) ==> value.describes(document@),
    ;
}

/// Whether a document is an array whose elements all have the shape of `T`.
pub open spec fn list_has_shape<T: FromJson>(document: JsonValue) -> bool {
    match document.as_items() {
        Some(items) => forall|i: int| 0 <= i < items.len() ==> T::has_shape(#[trigger] items[i]),
        None => false,
    }
}

/// Whether a list of values describes the elements of an array, one by one.
pub open spec fn list_describes<T: FromJson>(values: Seq<T>, document: JsonValue) -> bool {
    match document.as_items() {
        Some(items) => values.len() == items.len() && forall|i: int|
            0 <= i < items.len() ==> (#[trigger] values[i]).describes(items[i]),
        None => false,
    }
}

/// Whether the member `key` of a document has the shape of `T`.
pub open spec fn member_has_shape<T: FromJson>(document: JsonValue, key: Seq<char>) -> bool {
    match document.member(key) {
        Some(member) => T::has_shape(member),
        None => false,
    }
}

/// Whether a value describes the member `key` of a document.
pub open spec fn member_describes<T: FromJson>(
    value: T,
    document: JsonValue,
    key: Seq<char>,
) -> bool {
    match document.member(key) {
        Some(member) => value.describes(member),
        None => false,
    }
}

/// Whether the member `key` of a document is an array of `T`.
pub open spec fn member_list_has_shape<T: FromJson>(document: JsonValue, key: Seq<char>) -> bool {
    match document.member(key) {
        Some(member) => list_has_shape::<T>(member),
        None => false,
    }
}

/// Whether a list of values describes the array that is the member `key`.
pub open spec fn member_list_describes<T: FromJson>(
    values: Seq<T>,
    document: JsonValue,
    key: Seq<char>,
) -> bool {
    match document.member(key) {
        Some(member) => list_describes(values, member),
        None => false,
    }
}

/// Every element of an array of `T` has the shape of `T`.
proof fn lemma_list_shape_at<T: FromJson>(document: JsonValue, at: int)
    requires
        list_has_shape::<T>(document),
        0 <= at < document.as_items()->Some_0.len(),
    ensures
        T::has_shape(document.as_items()->Some_0[at]),
{
}

/// Reads an array of `T`.
pub fn list_from_json<T: FromJson>(document: &Json) -> (r: Option<Vec<T>>)
    ensures
        r is Some <==> list_has_shape::<T>(document@),
        r matches Some(values) ==> list_describes(values@, document@),
{
    match document.as_array() {
        Some(items) => {
            let ghost model = document@.as_items()->Some_0;
            let mut values: Vec<T> = Vec::new();
            let n: usize = items.len();
            let mut i: usize = 0;
            while i < n
                invariant
                    n == items@.len(),
                    i <= n,
                    model.len() == n,
                    document@.as_items() == Some(model),
                    forall|k: int| 0 <= k < n ==> #[trigger] model[k] == items@[k]@,
                    values@.len() == i,
                    forall|k: int| 0 <= k < i ==> T::has_shape(#[trigger] model[k]),
                    forall|k: int| 0 <= k < i ==> (#[trigger] values@[k]).describes(model[k]),
                decreases n - i,
            {
                match T::from_json(&items[i]) {
                    Some(value) => {
                        values.push(value);
                    },
                    None => {
                        proof {
                            let at = i as int;
                            assert(model[at] == items@[at]@);
                            assert(!T::has_shape(model[at]));
                            if list_has_shape::<T>(document@) {
                                lemma_list_shape_at::<T>(document@, at);
                            }
                        }
                        return None;
                    },
                }
                i = i + 1;
            }
            Some(values)
        },
        None => None,
    }
}

/// A list is read from an array whose elements all have the shape of `T`.
impl<T: FromJson> FromJson for Vec<T> {
    open spec fn has_shape(document: JsonValue) -> bool {
        list_has_shape::<T>(document)
    }

    open spec fn describes(&self, document: JsonValue) -> bool {
        list_describes(self@, document)
    }

    fn from_json(document: &Json) -> (r: Option<Self>) {
        list_from_json(document)
    }
}

/// Every document is read as itself.
impl FromJson for Json {
    open spec fn has_shape(document: JsonValue) -> bool {
        true
    }

    open spec fn describes(&self, document: JsonValue) -> bool {
        self@ == document
    }

    fn from_json(document: &Json) -> (r: Option<Self>) {
        Some(document.duplicate())
    }
}

/// Reads the member `key` as a `T`.
pub fn member_from_json<T: FromJson>(document: &Json, key: &str) -> (r: Option<T>)
    ensures
        r is Some <==> member_has_shape::<T>(document@, key@),
        r matches Some(value) ==> member_describes(value, document@, key@),
{
    match document.get(key) {
        Some(member) => T::from_json(member),
        None => None,
    }
}

/// Reads the member `key` as an array of `T`.
pub fn member_list_from_json<T: FromJson>(document: &Json, key: &str) -> (r: Option<Vec<T>>)
    ensures
        r is Some <==> member_list_has_shape::<T>(document@, key@),
        r matches Some(values) ==> member_list_describes(values@, document@, key@),
{
    match document.get(key) {
        Some(member) => list_from_json(member),
        None => None,
    }
}

} // verus!
