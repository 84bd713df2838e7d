//! Decoding typed models out of JSON documents.

use vstd::prelude::*;
use crate::error::DecodeError;
use crate::json::{member, Json, JsonV};

verus! {

/// A type that can be read out of a JSON value.
///
/// `spec_decode` says which values decode and into what; `from_json` does it.
pub trait FromJson: Sized + DeepView {
    spec fn spec_decode(v: JsonV) -> Option<Self::V>;

    /// The name that a decoding failure reports.
    spec fn spec_model_name() -> Seq<char>;

    /// The name of the model, for diagnostics.
    fn model_name() -> (r: &'static str)
        ensures
            r@ == Self::spec_model_name(),
    ;

    fn from_json(v: &Json) -> (r: Result<Self, DecodeError>)
        ensures
            r is Ok <==> Self::spec_decode(v@) is Some,
            r matches Ok(x) ==> Self::spec_decode(v@) == Some(x.deep_view()),
    ;
}

impl DeepView for Json {
    type V = JsonV;

    open spec fn deep_view(&self) -> JsonV {
        self@
    }
}

/// Any JSON value, kept as it is.
impl FromJson for Json {
    open spec fn spec_model_name() -> Seq<char> {
        "JSON value"@
    }

    fn model_name() -> (r: &'static str) {
        "JSON value"
    }

    open spec fn spec_decode(v: JsonV) -> Option<JsonV> {
        Some(v)
    }

    fn from_json(v: &Json) -> (r: Result<Json, DecodeError>) {
        Ok(v.deep_clone())
    }
}

/// `null`, which is what endpoints without a model answer with.
impl FromJson for () {
    open spec fn spec_model_name() -> Seq<char> {
        "()"@
    }

    fn model_name() -> (r: &'static str) {
        "()"
    }

    open spec fn spec_decode(v: JsonV) -> Option<()> {
        if v is Null {
            Some(())
        } else {
            None
        }
    }

    fn from_json(v: &Json) -> (r: Result<(), DecodeError>) {
        match v {
            Json::Null => Ok(()),
            _ => Err(DecodeError::InvalidType { expected: "null" }),
        }
    }
}

impl FromJson for bool {
    open spec fn spec_model_name() -> Seq<char> {
        "bool"@
    }

    fn model_name() -> (r: &'static str) {
        "bool"
    }

    open spec fn spec_decode(v: JsonV) -> Option<bool> {
        match v {
            JsonV::Bool(b) => Some(b),
            _ => None,
        }
    }

    fn from_json(v: &Json) -> (r: Result<bool, DecodeError>) {
        match v {
            Json::Bool(b) => Ok(*b),
            _ => Err(DecodeError::InvalidType { expected: "a boolean" }),
        }
    }
}

impl FromJson for String {
    open spec fn spec_model_name() -> Seq<char> {
        "String"@
    }

    fn model_name() -> (r: &'static str) {
        "String"
    }

    open spec fn spec_decode(v: JsonV) -> Option<Seq<char>> {
        match v {
            JsonV::Str(s) => Some(s),
            _ => None,
        }
    }

    fn from_json(v: &Json) -> (r: Result<String, DecodeError>) {
        match v {
            Json::Str(s) => Ok(s.clone()),
            _ => Err(DecodeError::InvalidType { expected: "a string" }),
        }
    }
}

pub open spec fn is_digit(c: char) -> bool {
    '0' <= c <= '9'
}

/// The number that the decimal digits `s` write.
pub open spec fn digits_value(s: Seq<char>) -> nat
    decreases s.len(),
{
    if s.len() == 0 {
        0
    } else {
        digits_value(s.drop_last()) * 10 + (s.last() as nat - '0' as nat) as nat
    }
}

/// The unsigned integer that the number text `s` writes, where it is one
/// that fits in 64 bits.
pub open spec fn unsigned_of(s: Seq<char>) -> Option<u64> {
    if s.len() > 0 && (forall|i: int| 0 <= i < s.len() ==> is_digit(#[trigger] s[i]))
        && digits_value(s) <= u64::MAX {
        Some(digits_value(s) as u64)
    } else {
        None
    }
}

/// A non-negative integer.
impl FromJson for u64 {
    open spec fn spec_model_name() -> Seq<char> {
        "u64"@
    }

    fn model_name() -> (r: &'static str) {
        "u64"
    }

    open spec fn spec_decode(v: JsonV) -> Option<u64> {
        match v {
            JsonV::Number(text) => unsigned_of(text),
            _ => None,
        }
    }

    fn from_json(v: &Json) -> (r: Result<u64, DecodeError>) {
        match v {
            Json::Number(text) => {
                let s = text.as_str();
                let n = s.unicode_len();
                if n == 0 {
                    return Err(DecodeError::InvalidType { expected: "an unsigned integer" });
                }
                let mut acc: u64 = 0;
                let mut i: usize = 0;
                while i < n
                    invariant
                        0 <= i <= n,
                        n == s@.len(),
                        s@ == text@,
                        *v == Json::Number(*text),
                        acc as nat == digits_value(s@.subrange(0, i as int)),
                        forall|j: int| 0 <= j < i ==> is_digit(#[trigger] s@[j]),
                    decreases n - i,
                {
                    let c = s.get_char(i);
                    assert(s@.subrange(0, i + 1).drop_last() =~= s@.subrange(0, i as int));
                    if !('0' <= c && c <= '9') {
                        assert(!is_digit(s@[i as int]));
                        return Err(DecodeError::InvalidType { expected: "an unsigned integer" });
                    }
                    let d = (c as u32 - '0' as u32) as u64;
                    if acc > (u64::MAX - d) / 10 {
                        proof {
                            let a = acc as int;
                            let dd = d as int;
                            assert(a * 10 + dd > u64::MAX) by (nonlinear_arith)
                                requires
                                    a > (u64::MAX - dd) / 10,
                                    0 <= dd <= 9,
                            ;
                            assert(digits_value(s@.subrange(0, i + 1)) == a * 10 + dd);
                            lemma_digits_grow(s@, i as int + 1);
                        }
                        return Err(DecodeError::InvalidType { expected: "an unsigned integer" });
                    }
                    acc = acc * 10 + d;
                    i = i + 1;
                }
                assert(s@.subrange(0, n as int) =~= s@);
                Ok(acc)
            },
            _ => Err(DecodeError::InvalidType { expected: "an unsigned integer" }),
        }
    }
}

/// A prefix of digits writes no more than the whole.
proof fn lemma_digits_grow(s: Seq<char>, k: int)
    requires
        0 <= k <= s.len(),
        forall|j: int| 0 <= j < k ==> is_digit(#[trigger] s[j]),
    ensures
        digits_value(s.subrange(0, k)) <= digits_value(s) || exists|j: int|
            k <= j < s.len() && !is_digit(#[trigger] s[j]),
    decreases s.len() - k,
{
    if k < s.len() {
        if is_digit(s[k]) {
            lemma_digits_grow(s, k + 1);
            assert(s.subrange(0, k + 1).drop_last() =~= s.subrange(0, k));
        }
    } else {
        assert(s.subrange(0, k) =~= s);
    }
}

/// `null` for nothing, or the inner model.
impl<T: FromJson> FromJson for Option<T> {
    open spec fn spec_model_name() -> Seq<char> {
        "Option"@
    }

    fn model_name() -> (r: &'static str) {
        "Option"
    }

    open spec fn spec_decode(v: JsonV) -> Option<Option<T::V>> {
        if v is Null {
            Some(None)
        } else {
            match T::spec_decode(v) {
                Some(x) => Some(Some(x)),
                None => None,
            }
        }
    }

    fn from_json(v: &Json) -> (r: Result<Option<T>, DecodeError>) {
        match v {
            Json::Null => Ok(None),
            _ => match T::from_json(v) {
                Ok(x) => Ok(Some(x)),
                Err(e) => Err(e),
            },
        }
    }
}

/// An array whose every item decodes.
impl<T: FromJson> FromJson for Vec<T> {
    open spec fn spec_model_name() -> Seq<char> {
        "Vec"@
    }

    fn model_name() -> (r: &'static str) {
        "Vec"
    }

    open spec fn spec_decode(v: JsonV) -> Option<Seq<T::V>> {
        match v {
            JsonV::Array(items) => if forall|i: int|
                0 <= i < items.len() ==> (#[trigger] T::spec_decode(items[i])) is Some {
                Some(Seq::new(items.len(), |i: int| T::spec_decode(items[i])->Some_0))
            } else {
                None
            },
            _ => None,
        }
    }

    fn from_json(v: &Json) -> (r: Result<Vec<T>, DecodeError>) {
        match v {
            Json::Array(items) => {
                let mut out: Vec<T> = Vec::new();
                let mut i: usize = 0;
                while i < items.len()
                    invariant
                        0 <= i <= items.len(),
                        out.len() == i,
                        *v == Json::Array(*items),
                        forall|j: int|
                            0 <= j < i ==> T::spec_decode(#[trigger] v@->Array_0[j]) == Some(
                                out[j].deep_view(),
                            ),
                    decreases items.len() - i,
                {
                    assert(v@->Array_0[i as int] == items[i as int]@);
                    match T::from_json(&items[i]) {
                        Ok(x) => out.push(x),
                        Err(e) => return Err(e),
                    }
                    i = i + 1;
                }
                assert(out.deep_view() =~= Seq::new(
                    v@->Array_0.len(),
                    |j: int| T::spec_decode(v@->Array_0[j])->Some_0,
                ));
                Ok(out)
            },
            _ => Err(DecodeError::InvalidType { expected: "an array" }),
        }
    }
}

/// The model read out of the member `key` of `v`.
pub open spec fn field_spec<T: FromJson>(v: JsonV, key: Seq<char>) -> Option<T::V> {
    match member(v, key) {
        Some(m) => T::spec_decode(m),
        None => None,
    }
}

/// The model read out of the member `key` of `v`, where a missing member
/// stands for `None`.
pub open spec fn optional_field_spec<T: FromJson>(v: JsonV, key: Seq<char>) -> Option<Option<T::V>> {
    match member(v, key) {
        Some(m) => Option::<T>::spec_decode(m),
        None => Some(None),
    }
}

/// Reads the member `key` of the object `v` as a `T`.
pub fn field<T: FromJson>(v: &Json, key: &'static str) -> (r: Result<T, DecodeError>)
    ensures
        r is Ok <==> field_spec::<T>(v@, key@) is Some,
        r matches Ok(x) ==> field_spec::<T>(v@, key@) == Some(x.deep_view()),
{
    match v.get(key) {
        Some(m) => T::from_json(m),
        None => Err(DecodeError::MissingField { field: key }),
    }
}

/// Reads the member `key` of the object `v`, if there is one, as a `T`.
pub fn optional_field<T: FromJson>(v: &Json, key: &'static str) -> (r: Result<Option<T>, DecodeError>)
    ensures
        r is Ok <==> optional_field_spec::<T>(v@, key@) is Some,
        r matches Ok(x) ==> optional_field_spec::<T>(v@, key@) == Some(x.deep_view()),
{
    match v.get(key) {
        Some(m) => Option::<T>::from_json(m),
        None => Ok(None),
    }
}

} // verus!
