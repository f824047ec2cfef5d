//! Reading typed values out of documents and building documents from them:
//! the part that both wire protocols share.

use crate::json::{lemma_array_view, lemma_object_view, DecodeError, JsonValue, JsonView, Number};
use vstd::prelude::*;

verus! {

impl JsonView {
    /// The member `key`, which the message requires.
    pub open spec fn required(self, key: Seq<char>) -> Result<JsonView, DecodeError> {
        match self.field(key) {
            Some(value) => Ok(value),
            None => Err(DecodeError::MissingField),
        }
    }

    pub open spec fn as_text(self) -> Result<Seq<char>, DecodeError> {
        match self {
            JsonView::Text(text) => Ok(text),
            _ => Err(DecodeError::TypeMismatch),
        }
    }

    pub open spec fn as_bool(self) -> Result<bool, DecodeError> {
        match self {
            JsonView::Bool(flag) => Ok(flag),
            _ => Err(DecodeError::TypeMismatch),
        }
    }

    pub open spec fn as_number(self) -> Result<Number, DecodeError> {
        match self {
            JsonView::Number(number) => Ok(number),
            _ => Err(DecodeError::TypeMismatch),
        }
    }

    /// The integer that the document is, if it is one.
    pub open spec fn as_integer(self) -> Option<int> {
        match self {
            JsonView::Number(Number::Unsigned(n)) => Some(n as int),
            JsonView::Number(Number::Negative(n)) => Some(n as int),
            _ => None,
        }
    }

    /// The integer that the document is, if it lies between `low` and
    /// `high`.
    pub open spec fn ranged(self, low: int, high: int) -> Result<int, DecodeError> {
        match self.as_integer() {
            Some(n) if low <= n <= high => Ok(n),
            _ => Err(DecodeError::TypeMismatch),
        }
    }

    /// The strings of an array of strings.
    pub open spec fn as_texts(self) -> Result<Seq<Seq<char>>, DecodeError> {
        match self {
            JsonView::Array(items) if forall|i: int|
                0 <= i < items.len() ==> (#[trigger] items[i]) is Text => Ok(
                Seq::new(items.len(), |i: int| items[i]->Text_0),
            ),
            _ => Err(DecodeError::TypeMismatch),
        }
    }

    /// The numbers of an array of integers between 0 and 2^32 - 1.
    pub open spec fn as_words(self) -> Result<Seq<u32>, DecodeError> {
        match self {
            JsonView::Array(items) if forall|i: int|
                0 <= i < items.len() ==> (#[trigger] items[i]).ranged(0, u32::MAX as int) is Ok
                => Ok(
                Seq::new(items.len(), |i: int| items[i].ranged(0, u32::MAX as int)->Ok_0 as u32),
            ),
            _ => Err(DecodeError::TypeMismatch),
        }
    }

    pub open spec fn required_text(self, key: Seq<char>) -> Result<Seq<char>, DecodeError> {
        match self.required(key) {
            Ok(value) => value.as_text(),
            Err(e) => Err(e),
        }
    }

    pub open spec fn required_bool(self, key: Seq<char>) -> Result<bool, DecodeError> {
        match self.required(key) {
            Ok(value) => value.as_bool(),
            Err(e) => Err(e),
        }
    }

    pub open spec fn required_integer(self, key: Seq<char>, low: int, high: int) -> Result<
        int,
        DecodeError,
    > {
        match self.required(key) {
            Ok(value) => value.ranged(low, high),
            Err(e) => Err(e),
        }
    }

    /// The member `key` as a string, where the message may leave it out or
    /// give `null` for it.
    pub open spec fn optional_text(self, key: Seq<char>) -> Result<Option<Seq<char>>, DecodeError> {
        match self.present(key) {
            None => Ok(None),
            Some(value) => match value.as_text() {
                Ok(text) => Ok(Some(text)),
                Err(e) => Err(e),
            },
        }
    }

    pub open spec fn optional_bool(self, key: Seq<char>) -> Result<Option<bool>, DecodeError> {
        match self.present(key) {
            None => Ok(None),
            Some(value) => match value.as_bool() {
                Ok(flag) => Ok(Some(flag)),
                Err(e) => Err(e),
            },
        }
    }

    pub open spec fn optional_integer(self, key: Seq<char>, low: int, high: int) -> Result<
        Option<int>,
        DecodeError,
    > {
        match self.present(key) {
            None => Ok(None),
            Some(value) => match value.ranged(low, high) {
                Ok(n) => Ok(Some(n)),
                Err(e) => Err(e),
            },
        }
    }
}

/// The members of an object that is being built.
pub open spec fn members_view(members: Vec<(String, JsonValue)>) -> Seq<(Seq<char>, JsonView)> {
    Seq::new(members@.len(), |i: int| (members@[i].0@, members@[i].1@))
}

/// The integer as a JSON number.
pub open spec fn number_of(n: int) -> Number {
    if n >= 0 {
        Number::Unsigned(n as u64)
    } else {
        Number::Negative(n as i64)
    }
}

/// The document of a list of strings.
pub open spec fn texts_json(items: Seq<Seq<char>>) -> JsonView {
    JsonView::Array(Seq::new(items.len(), |i: int| JsonView::Text(items[i])))
}

/// The document of a list of numbers.
pub open spec fn words_json(items: Seq<u32>) -> JsonView {
    JsonView::Array(Seq::new(items.len(), |i: int| JsonView::Number(Number::Unsigned(items[i] as u64))))
}

/// Whether `text` reads `literal`.
pub fn reads(text: &String, literal: &str) -> (r: bool)
    ensures
        r == (text@ == literal@),
{
    let wanted = literal.to_string();
    *text == wanted
}

pub fn read_text(value: &JsonValue) -> (r: Result<String, DecodeError>)
    ensures
        match r {
            Ok(text) => value@.as_text() == Ok::<Seq<char>, DecodeError>(text@),
            Err(e) => value@.as_text() == Err::<Seq<char>, DecodeError>(e),
        },
{
    match value {
        JsonValue::Text(text) => Ok(text.clone()),
        _ => Err(DecodeError::TypeMismatch),
    }
}

pub fn read_bool(value: &JsonValue) -> (r: Result<bool, DecodeError>)
    ensures
        r == value@.as_bool(),
{
    match value {
        JsonValue::Bool(flag) => Ok(*flag),
        _ => Err(DecodeError::TypeMismatch),
    }
}

pub fn read_number(value: &JsonValue) -> (r: Result<Number, DecodeError>)
    ensures
        r == value@.as_number(),
{
    match value {
        JsonValue::Number(number) => Ok(*number),
        _ => Err(DecodeError::TypeMismatch),
    }
}

/// Reads an integer between 0 and the largest `u64`.
pub fn read_u64(value: &JsonValue) -> (r: Result<u64, DecodeError>)
    ensures
        match r {
            Ok(n) => value@.ranged(0, u64::MAX as int) == Ok::<int, DecodeError>(n as int),
            Err(e) => value@.ranged(0, u64::MAX as int) == Err::<int, DecodeError>(e),
        },
{
    match value {
        JsonValue::Number(Number::Unsigned(n)) => Ok(*n),
        JsonValue::Number(Number::Negative(n)) => {
            if *n >= 0 {
                Ok(*n as u64)
            } else {
                Err(DecodeError::TypeMismatch)
            }
        },
        _ => Err(DecodeError::TypeMismatch),
    }
}

/// Reads an integer between `low` and `high`.
pub fn read_small(value: &JsonValue, low: i64, high: i64) -> (r: Result<i64, DecodeError>)
    ensures
        match r {
            Ok(n) => value@.ranged(low as int, high as int) == Ok::<int, DecodeError>(n as int),
            Err(e) => value@.ranged(low as int, high as int) == Err::<int, DecodeError>(e),
        },
{
    match value {
        JsonValue::Number(Number::Unsigned(n)) => {
            if *n <= 0x7fff_ffff_ffff_ffff && low <= *n as i64 && *n as i64 <= high {
                Ok(*n as i64)
            } else {
                Err(DecodeError::TypeMismatch)
            }
        },
        JsonValue::Number(Number::Negative(n)) => {
            if low <= *n && *n <= high {
                Ok(*n)
            } else {
                Err(DecodeError::TypeMismatch)
            }
        },
        _ => Err(DecodeError::TypeMismatch),
    }
}

pub fn read_texts(value: &JsonValue) -> (r: Result<Vec<String>, DecodeError>)
    ensures
        match r {
            Ok(items) => value@.as_texts() == Ok::<Seq<Seq<char>>, DecodeError>(
                items.deep_view(),
            ),
            Err(e) => value@.as_texts() == Err::<Seq<Seq<char>>, DecodeError>(e),
        },
{
    match value {
        JsonValue::Array(items) => {
            proof {
                lemma_array_view(*items);
            }
            let mut out: Vec<String> = Vec::new();
            let mut i: usize = 0;
            while i < items.len()
                invariant
                    i <= items.len(),
                    out.len() == i,
                    *value == JsonValue::Array(*items),
                    forall|j: int| 0 <= j < i ==> items@[j]@ == JsonView::Text(out@[j]@),
                decreases items.len() - i,
            {
                match read_text(&items[i]) {
                    Ok(text) => {
                        out.push(text);
                    },
                    Err(_) => {
                        proof {
                            lemma_array_view(*items);
                        }
                        assert(!(value@->Array_0[i as int] is Text));
                        return Err(DecodeError::TypeMismatch);
                    },
                }
                i += 1;
            }
            proof {
                lemma_array_view(*items);
                let got = value@->Array_0;
                assert forall|j: int| 0 <= j < got.len() implies (#[trigger] got[j]) is Text by {
                    assert(got[j] == items@[j]@);
                }
                assert(out.deep_view() =~= Seq::new(got.len(), |j: int| got[j]->Text_0));
            }
            Ok(out)
        },
        _ => Err(DecodeError::TypeMismatch),
    }
}

pub fn read_words(value: &JsonValue) -> (r: Result<Vec<u32>, DecodeError>)
    ensures
        match r {
            Ok(items) => value@.as_words() == Ok::<Seq<u32>, DecodeError>(items@),
            Err(e) => value@.as_words() == Err::<Seq<u32>, DecodeError>(e),
        },
{
    match value {
        JsonValue::Array(items) => {
            proof {
                lemma_array_view(*items);
            }
            let mut out: Vec<u32> = Vec::new();
            let mut i: usize = 0;
            while i < items.len()
                invariant
                    i <= items.len(),
                    out.len() == i,
                    forall|j: int|
                        0 <= j < i ==> items@[j]@.ranged(0, u32::MAX as int) == Ok::<
                            int,
                            DecodeError,
                        >(out@[j] as int),
                    *value == JsonValue::Array(*items),
                decreases items.len() - i,
            {
                match read_small(&items[i], 0, 0xffff_ffff) {
                    Ok(n) => {
                        out.push(n as u32);
                    },
                    Err(_) => {
                        proof {
                            lemma_array_view(*items);
                        }
                        assert(!(value@->Array_0[i as int].ranged(0, u32::MAX as int) is Ok));
                        return Err(DecodeError::TypeMismatch);
                    },
                }
                i += 1;
            }
            proof {
                lemma_array_view(*items);
                let got = value@->Array_0;
                assert forall|j: int| 0 <= j < got.len() implies (#[trigger] got[j]).ranged(
                    0,
                    u32::MAX as int,
                ) is Ok by {
                    assert(got[j] == items@[j]@);
                    assert(items@[j]@.ranged(0, u32::MAX as int) == Ok::<int, DecodeError>(
                        out@[j] as int,
                    ));
                }
                assert(out@ =~= Seq::new(
                    got.len(),
                    |j: int| got[j].ranged(0, u32::MAX as int)->Ok_0 as u32,
                ));
            }
            Ok(out)
        },
        _ => Err(DecodeError::TypeMismatch),
    }
}

/// The member `key`, which the message requires.
pub fn require<'a>(doc: &'a JsonValue, key: &str) -> (r: Result<&'a JsonValue, DecodeError>)
    ensures
        match r {
            Ok(value) => doc@.required(key@) == Ok::<JsonView, DecodeError>(value@),
            Err(e) => doc@.required(key@) == Err::<JsonView, DecodeError>(e),
        },
{
    match doc.get(key) {
        Some(value) => Ok(value),
        None => Err(DecodeError::MissingField),
    }
}

pub fn require_text(doc: &JsonValue, key: &str) -> (r: Result<String, DecodeError>)
    ensures
        match r {
            Ok(text) => doc@.required_text(key@) == Ok::<Seq<char>, DecodeError>(text@),
            Err(e) => doc@.required_text(key@) == Err::<Seq<char>, DecodeError>(e),
        },
{
    read_text(require(doc, key)?)
}

pub fn require_bool(doc: &JsonValue, key: &str) -> (r: Result<bool, DecodeError>)
    ensures
        r == doc@.required_bool(key@),
{
    read_bool(require(doc, key)?)
}

pub fn require_u64(doc: &JsonValue, key: &str) -> (r: Result<u64, DecodeError>)
    ensures
        match r {
            Ok(n) => doc@.required_integer(key@, 0, u64::MAX as int) == Ok::<int, DecodeError>(
                n as int,
            ),
            Err(e) => doc@.required_integer(key@, 0, u64::MAX as int) == Err::<int, DecodeError>(
                e,
            ),
        },
{
    read_u64(require(doc, key)?)
}

pub fn require_small(doc: &JsonValue, key: &str, low: i64, high: i64) -> (r: Result<
    i64,
    DecodeError,
>)
    ensures
        match r {
            Ok(n) => doc@.required_integer(key@, low as int, high as int) == Ok::<
                int,
                DecodeError,
            >(n as int),
            Err(e) => doc@.required_integer(key@, low as int, high as int) == Err::<
                int,
                DecodeError,
            >(e),
        },
{
    read_small(require(doc, key)?, low, high)
}

pub fn optional_text(doc: &JsonValue, key: &str) -> (r: Result<Option<String>, DecodeError>)
    ensures
        match r {
            Ok(text) => doc@.optional_text(key@) == Ok::<Option<Seq<char>>, DecodeError>(
                text.deep_view(),
            ),
            Err(e) => doc@.optional_text(key@) == Err::<Option<Seq<char>>, DecodeError>(e),
        },
{
    match doc.get_present(key) {
        None => Ok(None),
        Some(value) => Ok(Some(read_text(value)?)),
    }
}

pub fn optional_bool(doc: &JsonValue, key: &str) -> (r: Result<Option<bool>, DecodeError>)
    ensures
        r == doc@.optional_bool(key@),
{
    match doc.get_present(key) {
        None => Ok(None),
        Some(value) => Ok(Some(read_bool(value)?)),
    }
}

pub fn optional_u64(doc: &JsonValue, key: &str) -> (r: Result<Option<u64>, DecodeError>)
    ensures
        match r {
            Ok(Some(n)) => doc@.optional_integer(key@, 0, u64::MAX as int) == Ok::<
                Option<int>,
                DecodeError,
            >(Some(n as int)),
            Ok(None) => doc@.optional_integer(key@, 0, u64::MAX as int) == Ok::<
                Option<int>,
                DecodeError,
            >(None),
            Err(e) => doc@.optional_integer(key@, 0, u64::MAX as int) == Err::<
                Option<int>,
                DecodeError,
            >(e),
        },
{
    match doc.get_present(key) {
        None => Ok(None),
        Some(value) => Ok(Some(read_u64(value)?)),
    }
}

pub fn optional_small(doc: &JsonValue, key: &str, low: i64, high: i64) -> (r: Result<
    Option<i64>,
    DecodeError,
>)
    ensures
        match r {
            Ok(Some(n)) => doc@.optional_integer(key@, low as int, high as int) == Ok::<
                Option<int>,
                DecodeError,
            >(Some(n as int)),
            Ok(None) => doc@.optional_integer(key@, low as int, high as int) == Ok::<
                Option<int>,
                DecodeError,
            >(None),
            Err(e) => doc@.optional_integer(key@, low as int, high as int) == Err::<
                Option<int>,
                DecodeError,
            >(e),
        },
{
    match doc.get_present(key) {
        None => Ok(None),
        Some(value) => Ok(Some(read_small(value, low, high)?)),
    }
}

/// Adds a member at the end of an object that is being built.
pub fn put(members: &mut Vec<(String, JsonValue)>, key: &str, value: JsonValue)
    ensures
        members_view(*final(members)) == members_view(*old(members)).push((key@, value@)),
{
    members.push((key.to_string(), value));
    assert(members_view(*members) =~= members_view(*old(members)).push((key@, value@)));
}

/// The object with these members.
pub fn object(members: Vec<(String, JsonValue)>) -> (r: JsonValue)
    ensures
        r@ == JsonView::Object(members_view(members)),
{
    proof {
        lemma_object_view(members);
    }
    let r = JsonValue::Object(members);
    assert(r@->Object_0 =~= members_view(members));
    r
}

/// A string as a document.
pub fn text(literal: &str) -> (r: JsonValue)
    ensures
        r@ == JsonView::Text(literal@),
{
    JsonValue::Text(literal.to_string())
}

/// A non-negative integer as a document.
pub fn unsigned(n: u64) -> (r: JsonValue)
    ensures
        r@ == JsonView::Number(number_of(n as int)),
{
    JsonValue::Number(Number::Unsigned(n))
}

/// An integer as a document.
pub fn signed(n: i64) -> (r: JsonValue)
    ensures
        r@ == JsonView::Number(number_of(n as int)),
{
    if n >= 0 {
        JsonValue::Number(Number::Unsigned(n as u64))
    } else {
        JsonValue::Number(Number::Negative(n))
    }
}

/// A list of strings as a document.
pub fn texts(items: &Vec<String>) -> (r: JsonValue)
    ensures
        r@ == texts_json(items.deep_view()),
{
    let mut out: Vec<JsonValue> = Vec::new();
    let mut i: usize = 0;
    while i < items.len()
        invariant
            i <= items.len(),
            out.len() == i,
            forall|j: int| 0 <= j < i ==> out@[j]@ == JsonView::Text(items@[j]@),
        decreases items.len() - i,
    {
        out.push(JsonValue::Text(items[i].clone()));
        i += 1;
    }
    proof {
        lemma_array_view(out);
    }
    let r = JsonValue::Array(out);
    assert(r@->Array_0 =~= texts_json(items.deep_view())->Array_0);
    r
}

/// A list of numbers as a document.
pub fn words(items: &Vec<u32>) -> (r: JsonValue)
    ensures
        r@ == words_json(items@),
{
    let mut out: Vec<JsonValue> = Vec::new();
    let mut i: usize = 0;
    while i < items.len()
        invariant
            i <= items.len(),
            out.len() == i,
            forall|j: int|
                0 <= j < i ==> out@[j]@ == JsonView::Number(Number::Unsigned(items@[j] as u64)),
        decreases items.len() - i,
    {
        out.push(JsonValue::Number(Number::Unsigned(items[i] as u64)));
        i += 1;
    }
    proof {
        lemma_array_view(out);
    }
    let r = JsonValue::Array(out);
    assert(r@->Array_0 =~= words_json(items@)->Array_0);
    r
}

} // verus!
