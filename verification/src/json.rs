//! A self-contained model of a generic JSON value.
//!
//! The codec works on this type; the surrounding application converts between
//! it and whatever JSON library it uses. A number that the producer wrote with
//! a fractional part or an exponent is carried as its JSON text, so the model
//! holds it exactly without doing any floating-point arithmetic.

use vstd::prelude::*;

verus! {

/// Specification-level mirror of [`Json`].
#[verifier::ext_equal]
pub enum SpecJson {
    Null,
    Bool(bool),
    Int(i64),
    Float(Seq<char>),
    Str(Seq<char>),
    Arr(Seq<SpecJson>),
    Obj(Seq<(Seq<char>, SpecJson)>),
}

/// A generic JSON value.
///
/// `Int` holds a number the producer wrote as a plain integer; `Float` holds
/// the JSON text of any other number. An object keeps its key/value pairs in
/// source order.
#[derive(Debug, PartialEq)]
pub enum Json {
    Null,
    Bool(bool),
    Int(i64),
    Float(String),
    Str(String),
    Arr(Vec<Json>),
    Obj(Vec<(String, Json)>),
}

/// The [`SpecJson`] value that a [`Json`] value stands for.
pub open spec fn view_of_json(j: Json) -> SpecJson
    decreases j,
{
    match j {
        Json::Null => SpecJson::Null,
        Json::Bool(b) => SpecJson::Bool(b),
        Json::Int(i) => SpecJson::Int(i),
        Json::Float(t) => SpecJson::Float(t@),
        Json::Str(s) => SpecJson::Str(s@),
        Json::Arr(v) => SpecJson::Arr(view_of_arr(v@)),
        Json::Obj(v) => SpecJson::Obj(view_of_obj(v@)),
    }
}

/// Element-wise [`view_of_json`] over the elements of a JSON array.
pub open spec fn view_of_arr(s: Seq<Json>) -> Seq<SpecJson>
    decreases s,
{
    if s.len() == 0 {
        Seq::empty()
    } else {
        view_of_arr(s.subrange(0, s.len() - 1)).push(view_of_json(s[s.len() - 1]))
    }
}

/// Element-wise [`view_of_json`] over the pairs of a JSON object.
pub open spec fn view_of_obj(s: Seq<(String, Json)>) -> Seq<(Seq<char>, SpecJson)>
    decreases s,
{
    if s.len() == 0 {
        Seq::empty()
    } else {
        view_of_obj(s.subrange(0, s.len() - 1)).push(
            (s[s.len() - 1].0@, view_of_json(s[s.len() - 1].1)),
        )
    }
}

impl DeepView for Json {
    type V = SpecJson;

    open spec fn deep_view(&self) -> SpecJson {
        view_of_json(*self)
    }
}

/// The sequence view of a JSON array is pointwise [`view_of_json`].
pub broadcast proof fn lemma_view_of_arr(s: Seq<Json>)
    ensures
        (#[trigger] view_of_arr(s)).len() == s.len(),
        forall|i: int| 0 <= i < s.len() ==> view_of_arr(s)[i] == view_of_json(s[i]),
    decreases s,
{
    if s.len() > 0 {
        lemma_view_of_arr(s.subrange(0, s.len() - 1));
    }
}

/// The sequence view of a JSON object is pointwise a pair of views.
pub broadcast proof fn lemma_view_of_obj(s: Seq<(String, Json)>)
    ensures
        (#[trigger] view_of_obj(s)).len() == s.len(),
        forall|i: int|
            0 <= i < s.len() ==> view_of_obj(s)[i] == (s[i].0@, view_of_json(s[i].1)),
    decreases s,
{
    if s.len() > 0 {
        lemma_view_of_obj(s.subrange(0, s.len() - 1));
    }
}

} // verus!
