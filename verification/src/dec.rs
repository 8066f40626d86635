//! Decoding: from a generic JSON value to the typed block representation.
//!
//! Every decoder has a specification twin (`spec_decode_*`) over the JSON
//! view, and its contract states that it returns exactly what the twin says,
//! for every input.

use vstd::prelude::*;

use crate::error::DecodeError;
use crate::json::{Json, SpecJson, view_of_arr, view_of_json, view_of_obj};
use crate::model::{
    Block, BlockField, BlockInput, BlockInputValue, BlockMutation, BlockMutationEnum,
    BlockNormal, BlockVarListReporterTop, ListOrVariable, Number, ShadowInputType,
    SpecBlock, SpecBlockField, SpecBlockInput, SpecBlockInputValue, SpecBlockMutation,
    SpecBlockMutationEnum, SpecBlockNormal, SpecBlockVarListReporterTop, SpecNumber, SpecValue,
    SpecUidOrValue, Uid, UidOrValue, Value,
};
use crate::text::{
    json_parse_bool, json_parse_opt_bool, json_parse_scalar_array, json_parse_str_array,
    parse_bool_text, parse_opt_bool_text, parse_scalar_array, parse_str_array,
};

verus! {

broadcast use crate::json::lemma_view_of_arr, crate::json::lemma_view_of_obj;

/// The view of a decode result: `Ok` values are taken to their mirrors.
pub open spec fn res_view<T: DeepView>(r: Result<T, DecodeError>) -> Result<
    T::V,
    DecodeError,
> {
    match r {
        Ok(v) => Ok(v.deep_view()),
        Err(e) => Err(e),
    }
}

/// Whether a JSON value is a number of either kind.
pub open spec fn spec_is_number(j: SpecJson) -> bool {
    j is Int || j is Float
}

/// What decoding a scalar value returns: a number, text or boolean, and a
/// type mismatch on anything else.
pub open spec fn spec_decode_value(j: SpecJson) -> Result<SpecValue, DecodeError> {
    match j {
        SpecJson::Int(i) => Ok(SpecValue::Number(SpecNumber::Int(i))),
        SpecJson::Float(t) => Ok(SpecValue::Number(SpecNumber::Float(t))),
        SpecJson::Str(s) => Ok(SpecValue::Text(s)),
        SpecJson::Bool(b) => Ok(SpecValue::Bool(b)),
        _ => Err(DecodeError::TypeMismatch),
    }
}

/// Decode a scalar value.
pub fn decode_value(j: &Json) -> (r: Result<Value, DecodeError>)
    ensures
        res_view(r) == spec_decode_value(j.deep_view()),
{
    match j {
        Json::Int(i) => Ok(Value::Number(Number::Int(*i))),
        Json::Float(t) => Ok(Value::Number(Number::Float(t.clone()))),
        Json::Str(s) => Ok(Value::Text(s.clone())),
        Json::Bool(b) => Ok(Value::Bool(*b)),
        _ => Err(DecodeError::TypeMismatch),
    }
}

/// What decoding a nullable identifier returns.
pub open spec fn spec_decode_uid_opt(j: SpecJson) -> Result<Option<Seq<char>>, DecodeError> {
    match j {
        SpecJson::Null => Ok(None),
        SpecJson::Str(s) => Ok(Some(s)),
        _ => Err(DecodeError::TypeMismatch),
    }
}

/// Decode an identifier slot that may hold a null.
pub fn decode_uid_opt(j: &Json) -> (r: Result<Option<Uid>, DecodeError>)
    ensures
        res_view(r) == spec_decode_uid_opt(j.deep_view()),
{
    match j {
        Json::Null => Ok(None),
        Json::Str(s) => Ok(Some(s.clone())),
        _ => Err(DecodeError::TypeMismatch),
    }
}

/// What decoding a required number returns.
pub open spec fn spec_decode_number(j: SpecJson) -> Result<SpecNumber, DecodeError> {
    match j {
        SpecJson::Int(i) => Ok(SpecNumber::Int(i)),
        SpecJson::Float(t) => Ok(SpecNumber::Float(t)),
        _ => Err(DecodeError::TypeMismatch),
    }
}

/// Decode a required number.
pub fn decode_number(j: &Json) -> (r: Result<Number, DecodeError>)
    ensures
        res_view(r) == spec_decode_number(j.deep_view()),
{
    match j {
        Json::Int(i) => Ok(Number::Int(*i)),
        Json::Float(t) => Ok(Number::Float(t.clone())),
        _ => Err(DecodeError::TypeMismatch),
    }
}

/// What decoding a shadow state returns: only the integers 1, 2 and 3 are
/// valid; any other integer is an unexpected tag.
pub open spec fn spec_decode_shadow(j: SpecJson) -> Result<ShadowInputType, DecodeError> {
    match j {
        SpecJson::Int(t) => if t == 1 {
            Ok(ShadowInputType::Shadow)
        } else if t == 2 {
            Ok(ShadowInputType::NoShadow)
        } else if t == 3 {
            Ok(ShadowInputType::ShadowObscured)
        } else {
            Err(DecodeError::UnexpectedTag(t))
        },
        _ => Err(DecodeError::TypeMismatch),
    }
}

/// Decode a shadow state from its integer code.
pub fn decode_shadow(j: &Json) -> (r: Result<ShadowInputType, DecodeError>)
    ensures
        res_view(r) == spec_decode_shadow(j.deep_view()),
{
    match j {
        Json::Int(t) => if *t == 1 {
            Ok(ShadowInputType::Shadow)
        } else if *t == 2 {
            Ok(ShadowInputType::NoShadow)
        } else if *t == 3 {
            Ok(ShadowInputType::ShadowObscured)
        } else {
            Err(DecodeError::UnexpectedTag(*t))
        },
        _ => Err(DecodeError::TypeMismatch),
    }
}

/// What decoding a top-level reporter discriminant returns: only the
/// integers 12 and 13 are valid; any other integer is an unexpected tag.
pub open spec fn spec_decode_list_or_variable(j: SpecJson) -> Result<
    ListOrVariable,
    DecodeError,
> {
    match j {
        SpecJson::Int(t) => if t == 12 {
            Ok(ListOrVariable::Variable)
        } else if t == 13 {
            Ok(ListOrVariable::List)
        } else {
            Err(DecodeError::UnexpectedTag(t))
        },
        _ => Err(DecodeError::TypeMismatch),
    }
}

/// Decode a top-level reporter discriminant from its integer code.
pub fn decode_list_or_variable(j: &Json) -> (r: Result<ListOrVariable, DecodeError>)
    ensures
        res_view(r) == spec_decode_list_or_variable(j.deep_view()),
{
    match j {
        Json::Int(t) => if *t == 12 {
            Ok(ListOrVariable::Variable)
        } else if *t == 13 {
            Ok(ListOrVariable::List)
        } else {
            Err(DecodeError::UnexpectedTag(*t))
        },
        _ => Err(DecodeError::TypeMismatch),
    }
}

/// The scalar-carrying variant selected by a tag between 4 and 10.
pub open spec fn spec_scalar_variant(t: i64, v: SpecValue) -> SpecBlockInputValue {
    if t == 4 {
        SpecBlockInputValue::Number { value: v }
    } else if t == 5 {
        SpecBlockInputValue::PositiveNumber { value: v }
    } else if t == 6 {
        SpecBlockInputValue::PositiveInteger { value: v }
    } else if t == 7 {
        SpecBlockInputValue::Integer { value: v }
    } else if t == 8 {
        SpecBlockInputValue::Angle { value: v }
    } else if t == 9 {
        SpecBlockInputValue::Color { value: v }
    } else {
        SpecBlockInputValue::Str { value: v }
    }
}

/// Whether the optional trailing position pair of a variable or list input
/// holds nothing but numbers. The pair is read and discarded.
pub open spec fn spec_positions_ok(elems: Seq<SpecJson>) -> bool {
    (elems.len() < 4 || spec_is_number(elems[3])) && (elems.len() < 5 || spec_is_number(
        elems[4],
    ))
}

/// What decoding an input value array returns: the leading integer selects
/// the variant, a tag outside 4 to 13 is an unexpected tag, and each variant
/// consumes its fixed payload.
pub open spec fn spec_decode_input_value(elems: Seq<SpecJson>) -> Result<
    SpecBlockInputValue,
    DecodeError,
> {
    if elems.len() == 0 {
        Err(DecodeError::UnexpectedShape)
    } else {
        match elems[0] {
            SpecJson::Int(t) => if 4 <= t && t <= 10 {
                if elems.len() != 2 {
                    Err(DecodeError::UnexpectedShape)
                } else {
                    match spec_decode_value(elems[1]) {
                        Ok(v) => Ok(spec_scalar_variant(t, v)),
                        Err(e) => Err(e),
                    }
                }
            } else if t == 11 {
                if elems.len() != 3 {
                    Err(DecodeError::UnexpectedShape)
                } else {
                    match (elems[1], elems[2]) {
                        (SpecJson::Str(name), SpecJson::Str(id)) => Ok(
                            SpecBlockInputValue::Broadcast { name, id },
                        ),
                        _ => Err(DecodeError::TypeMismatch),
                    }
                }
            } else if t == 12 {
                if !(3 <= elems.len() && elems.len() <= 5) {
                    Err(DecodeError::UnexpectedShape)
                } else {
                    match (elems[1], spec_decode_uid_opt(elems[2])) {
                        (SpecJson::Str(name), Ok(id)) => if spec_positions_ok(elems) {
                            Ok(SpecBlockInputValue::Variable { name, id })
                        } else {
                            Err(DecodeError::TypeMismatch)
                        },
                        _ => Err(DecodeError::TypeMismatch),
                    }
                }
            } else if t == 13 {
                if !(3 <= elems.len() && elems.len() <= 5) {
                    Err(DecodeError::UnexpectedShape)
                } else {
                    match (elems[1], elems[2]) {
                        (SpecJson::Str(name), SpecJson::Str(id)) => if spec_positions_ok(
                            elems,
                        ) {
                            Ok(SpecBlockInputValue::List { name, id })
                        } else {
                            Err(DecodeError::TypeMismatch)
                        },
                        _ => Err(DecodeError::TypeMismatch),
                    }
                }
            } else {
                Err(DecodeError::UnexpectedTag(t))
            },
            _ => Err(DecodeError::TypeMismatch),
        }
    }
}

/// Decode an input value from its tag-led array.
pub fn decode_input_value(elems: &Vec<Json>) -> (r: Result<BlockInputValue, DecodeError>)
    ensures
        res_view(r) == spec_decode_input_value(view_of_arr(elems@)),
{
    let n = elems.len();
    if n == 0 {
        return Err(DecodeError::UnexpectedShape);
    }
    let t: i64 = match &elems[0] {
        Json::Int(t) => *t,
        _ => {
            return Err(DecodeError::TypeMismatch);
        },
    };
    if 4 <= t && t <= 10 {
        if n != 2 {
            return Err(DecodeError::UnexpectedShape);
        }
        let value = decode_value(&elems[1])?;
        Ok(
            if t == 4 {
                BlockInputValue::Number { value }
            } else if t == 5 {
                BlockInputValue::PositiveNumber { value }
            } else if t == 6 {
                BlockInputValue::PositiveInteger { value }
            } else if t == 7 {
                BlockInputValue::Integer { value }
            } else if t == 8 {
                BlockInputValue::Angle { value }
            } else if t == 9 {
                BlockInputValue::Color { value }
            } else {
                BlockInputValue::Str { value }
            },
        )
    } else if t == 11 {
        if n != 3 {
            return Err(DecodeError::UnexpectedShape);
        }
        let name = match &elems[1] {
            Json::Str(s) => s.clone(),
            _ => {
                return Err(DecodeError::TypeMismatch);
            },
        };
        let id = match &elems[2] {
            Json::Str(s) => s.clone(),
            _ => {
                return Err(DecodeError::TypeMismatch);
            },
        };
        Ok(BlockInputValue::Broadcast { name, id })
    } else if t == 12 || t == 13 {
        if !(3 <= n && n <= 5) {
            return Err(DecodeError::UnexpectedShape);
        }
        let name = match &elems[1] {
            Json::Str(s) => s.clone(),
            _ => {
                return Err(DecodeError::TypeMismatch);
            },
        };
        if t == 12 {
            let id = decode_uid_opt(&elems[2])?;
            if n >= 4 && !(matches!(&elems[3], Json::Int(_) | Json::Float(_))) {
                return Err(DecodeError::TypeMismatch);
            }
            if n == 5 && !(matches!(&elems[4], Json::Int(_) | Json::Float(_))) {
                return Err(DecodeError::TypeMismatch);
            }
            Ok(BlockInputValue::Variable { name, id })
        } else {
            let id = match &elems[2] {
                Json::Str(s) => s.clone(),
                _ => {
                    return Err(DecodeError::TypeMismatch);
                },
            };
            if n >= 4 && !(matches!(&elems[3], Json::Int(_) | Json::Float(_))) {
                return Err(DecodeError::TypeMismatch);
            }
            if n == 5 && !(matches!(&elems[4], Json::Int(_) | Json::Float(_))) {
                return Err(DecodeError::TypeMismatch);
            }
            Ok(BlockInputValue::List { name, id })
        }
    } else {
        Err(DecodeError::UnexpectedTag(t))
    }
}

/// What decoding one slot entry returns: null is an empty slot, a bare
/// string is an identifier reference, an array is an inline input value.
pub open spec fn spec_decode_slot(j: SpecJson) -> Result<Option<SpecUidOrValue>, DecodeError> {
    match j {
        SpecJson::Null => Ok(None),
        SpecJson::Str(s) => Ok(Some(SpecUidOrValue::Uid(s))),
        SpecJson::Arr(elems) => match spec_decode_input_value(elems) {
            Ok(v) => Ok(Some(SpecUidOrValue::Value(v))),
            Err(e) => Err(e),
        },
        _ => Err(DecodeError::TypeMismatch),
    }
}

/// Decode one slot entry of an input group.
pub fn decode_slot(j: &Json) -> (r: Result<Option<UidOrValue>, DecodeError>)
    ensures
        res_view(r) == spec_decode_slot(j.deep_view()),
{
    match j {
        Json::Null => Ok(None),
        Json::Str(s) => Ok(Some(UidOrValue::Uid(s.clone()))),
        Json::Arr(elems) => Ok(Some(UidOrValue::Value(decode_input_value(elems)?))),
        _ => Err(DecodeError::TypeMismatch),
    }
}

/// What decoding a sequence of slot entries returns: each entry in order, or
/// the first failure.
pub open spec fn spec_decode_slots(elems: Seq<SpecJson>) -> Result<
    Seq<Option<SpecUidOrValue>>,
    DecodeError,
>
    decreases elems.len(),
{
    if elems.len() == 0 {
        Ok(Seq::empty())
    } else {
        match spec_decode_slots(elems.subrange(0, elems.len() - 1)) {
            Err(e) => Err(e),
            Ok(pre) => match spec_decode_slot(elems[elems.len() - 1]) {
                Ok(v) => Ok(pre.push(v)),
                Err(e) => Err(e),
            },
        }
    }
}

/// A failing entry makes the whole slot sequence fail with its error.
proof fn lemma_decode_slots_err(elems: Seq<SpecJson>, i: int)
    requires
        0 <= i < elems.len(),
        spec_decode_slots(elems.subrange(0, i)) is Ok,
        spec_decode_slot(elems[i]) is Err,
    ensures
        spec_decode_slots(elems) == Err::<Seq<Option<SpecUidOrValue>>, DecodeError>(
            spec_decode_slot(elems[i])->Err_0,
        ),
    decreases elems.len(),
{
    if elems.len() - 1 == i {
        assert(elems.subrange(0, elems.len() - 1) == elems.subrange(0, i));
    } else {
        let pre = elems.subrange(0, elems.len() - 1);
        assert(pre.subrange(0, i) =~= elems.subrange(0, i));
        assert(pre[i] == elems[i]);
        lemma_decode_slots_err(pre, i);
    }
}

/// What decoding an input group array returns: the shadow state first, then
/// every remaining element as a slot entry.
pub open spec fn spec_decode_input(j: SpecJson) -> Result<SpecBlockInput, DecodeError> {
    match j {
        SpecJson::Arr(elems) => if elems.len() == 0 {
            Err(DecodeError::UnexpectedShape)
        } else {
            match spec_decode_shadow(elems[0]) {
                Err(e) => Err(e),
                Ok(sh) => match spec_decode_slots(elems.subrange(1, elems.len() as int)) {
                    Err(e) => Err(e),
                    Ok(slots) => Ok(SpecBlockInput { shadow: sh, inputs: slots }),
                },
            }
        },
        _ => Err(DecodeError::TypeMismatch),
    }
}

/// Decode an input group.
#[verifier::loop_isolation(false)]
pub fn decode_input(j: &Json) -> (r: Result<BlockInput, DecodeError>)
    ensures
        res_view(r) == spec_decode_input(j.deep_view()),
{
    match j {
        Json::Arr(elems) => {
            if elems.len() == 0 {
                return Err(DecodeError::UnexpectedShape);
            }
            let ghost va = view_of_arr(elems@);
            let shadow = decode_shadow(&elems[0])?;
            let mut inputs: Vec<Option<UidOrValue>> = Vec::new();
            let mut i: usize = 1;
            proof {
                assert(va.subrange(1, 1) =~= Seq::<SpecJson>::empty());
                assert(inputs.deep_view() =~= Seq::<Option<SpecUidOrValue>>::empty());
            }
            while i < elems.len()
                invariant
                    1 <= i <= elems.len(),
                    va == view_of_arr(elems@),
                    va.len() == elems.len(),
                    spec_decode_slots(va.subrange(1, i as int)) == Ok::<_, DecodeError>(
                        inputs.deep_view(),
                    ),
                decreases elems.len() - i,
            {
                let ghost pre = va.subrange(1, i as int);
                let ghost old_inputs = inputs.deep_view();
                match decode_slot(&elems[i]) {
                    Ok(v) => {
                        inputs.push(v);
                        proof {
                            let cur = va.subrange(1, i + 1);
                            assert(cur.subrange(0, cur.len() - 1) =~= pre);
                            assert(cur[cur.len() - 1] == va[i as int]);
                            assert(inputs.deep_view() =~= old_inputs.push(v.deep_view()));
                        }
                    },
                    Err(e) => {
                        proof {
                            assert(va[i as int] == view_of_json(elems@[i as int]));
                            assert(spec_decode_slot(va[i as int]) == Err::<
                                Option<SpecUidOrValue>,
                                DecodeError,
                            >(e));
                            let full = va.subrange(1, va.len() as int);
                            assert(full.subrange(0, i - 1) =~= pre);
                            assert(full[i - 1] == va[i as int]);
                            lemma_decode_slots_err(full, i - 1);
                        }
                        return Err(e);
                    },
                }
                i += 1;
            }
            proof {
                assert(va.subrange(1, elems.len() as int) == va.subrange(1, va.len() as int));
            }
            Ok(BlockInput { shadow, inputs })
        },
        _ => Err(DecodeError::TypeMismatch),
    }
}

/// What decoding a field array returns: the value, then an optional nullable
/// identifier whose mere presence selects the `WithId` variant.
pub open spec fn spec_decode_field(elems: Seq<SpecJson>) -> Result<SpecBlockField, DecodeError> {
    if elems.len() == 0 || elems.len() > 2 {
        Err(DecodeError::UnexpectedShape)
    } else {
        match spec_decode_value(elems[0]) {
            Err(e) => Err(e),
            Ok(v) => if elems.len() == 1 {
                Ok(SpecBlockField::NoId { value: v })
            } else {
                match spec_decode_uid_opt(elems[1]) {
                    Ok(id) => Ok(SpecBlockField::WithId { value: v, id }),
                    Err(e) => Err(e),
                }
            },
        }
    }
}

/// Decode a field from its 1- or 2-element array.
pub fn decode_field(elems: &Vec<Json>) -> (r: Result<BlockField, DecodeError>)
    ensures
        res_view(r) == spec_decode_field(view_of_arr(elems@)),
{
    let n = elems.len();
    if n == 0 || n > 2 {
        return Err(DecodeError::UnexpectedShape);
    }
    let value = decode_value(&elems[0])?;
    if n == 1 {
        Ok(BlockField::NoId { value })
    } else {
        let id = decode_uid_opt(&elems[1])?;
        Ok(BlockField::WithId { value, id })
    }
}

/// Compare two string slices by contents.
pub fn str_eq(a: &str, b: &str) -> (r: bool)
    ensures
        r == (a@ == b@),
{
    let sa = a.to_owned();
    let sb = b.to_owned();
    sa == sb
}

/// The value under a key in an object, later occurrences taking precedence,
/// as a JSON text parser would leave them.
pub open spec fn spec_lookup(pairs: Seq<(Seq<char>, SpecJson)>, key: Seq<char>) -> Option<
    SpecJson,
>
    decreases pairs.len(),
{
    if pairs.len() == 0 {
        None
    } else if pairs[pairs.len() - 1].0 == key {
        Some(pairs[pairs.len() - 1].1)
    } else {
        spec_lookup(pairs.subrange(0, pairs.len() - 1), key)
    }
}

/// A found slot takes precedence over what an earlier prefix would yield.
pub open spec fn slot_or(s: Option<Json>, rest: Option<SpecJson>) -> Option<SpecJson> {
    if s is Some {
        Some(view_of_json(s->0))
    } else {
        rest
    }
}

/// What decoding one named input-group pair returns.
pub open spec fn spec_decode_input_pair(p: (Seq<char>, SpecJson)) -> Result<
    (Seq<char>, SpecBlockInput),
    DecodeError,
> {
    match spec_decode_input(p.1) {
        Ok(v) => Ok((p.0, v)),
        Err(e) => Err(e),
    }
}

/// What decoding the pairs of an inputs object returns: each pair in order,
/// or the first failure.
pub open spec fn spec_decode_input_pairs(pairs: Seq<(Seq<char>, SpecJson)>) -> Result<
    Seq<(Seq<char>, SpecBlockInput)>,
    DecodeError,
>
    decreases pairs.len(),
{
    if pairs.len() == 0 {
        Ok(Seq::empty())
    } else {
        match spec_decode_input_pairs(pairs.subrange(0, pairs.len() - 1)) {
            Err(e) => Err(e),
            Ok(pre) => match spec_decode_input_pair(pairs[pairs.len() - 1]) {
                Ok(v) => Ok(pre.push(v)),
                Err(e) => Err(e),
            },
        }
    }
}

/// A failing pair makes the whole inputs object fail with its error.
proof fn lemma_decode_input_pairs_err(pairs: Seq<(Seq<char>, SpecJson)>, i: int)
    requires
        0 <= i < pairs.len(),
        spec_decode_input_pairs(pairs.subrange(0, i)) is Ok,
        spec_decode_input_pair(pairs[i]) is Err,
    ensures
        spec_decode_input_pairs(pairs) == Err::<Seq<(Seq<char>, SpecBlockInput)>, DecodeError>(
            spec_decode_input_pair(pairs[i])->Err_0,
        ),
    decreases pairs.len(),
{
    if pairs.len() - 1 == i {
        assert(pairs.subrange(0, pairs.len() - 1) == pairs.subrange(0, i));
    } else {
        let pre = pairs.subrange(0, pairs.len() - 1);
        assert(pre.subrange(0, i) =~= pairs.subrange(0, i));
        assert(pre[i] == pairs[i]);
        lemma_decode_input_pairs_err(pre, i);
    }
}

/// Decode the pairs of an inputs object, keeping their order.
#[verifier::loop_isolation(false)]
pub fn decode_input_pairs(pairs: &Vec<(String, Json)>) -> (r: Result<
    Vec<(String, BlockInput)>,
    DecodeError,
>)
    ensures
        res_view(r) == spec_decode_input_pairs(view_of_obj(pairs@)),
{
    let ghost vo = view_of_obj(pairs@);
    let mut out: Vec<(String, BlockInput)> = Vec::new();
    proof {
        assert(vo.subrange(0, 0) =~= Seq::<(Seq<char>, SpecJson)>::empty());
        assert(out.deep_view() =~= Seq::<(Seq<char>, SpecBlockInput)>::empty());
    }
    let mut i: usize = 0;
    while i < pairs.len()
        invariant
            0 <= i <= pairs.len(),
            spec_decode_input_pairs(vo.subrange(0, i as int)) == Ok::<_, DecodeError>(
                out.deep_view(),
            ),
        decreases pairs.len() - i,
    {
        let ghost pre = vo.subrange(0, i as int);
        let ghost old_out = out.deep_view();
        match decode_input(&pairs[i].1) {
            Ok(v) => {
                out.push((pairs[i].0.clone(), v));
                proof {
                    let cur = vo.subrange(0, i + 1);
                    assert(cur.subrange(0, cur.len() - 1) =~= pre);
                    assert(cur[cur.len() - 1] == vo[i as int]);
                    assert(out.deep_view() =~= old_out.push(
                        (pairs@[i as int].0@, v.deep_view()),
                    ));
                }
            },
            Err(e) => {
                proof {
                    assert(spec_decode_input_pair(vo[i as int]) == Err::<
                        (Seq<char>, SpecBlockInput),
                        DecodeError,
                    >(e));
                    lemma_decode_input_pairs_err(vo, i as int);
                    assert(vo.subrange(0, vo.len() as int) == vo);
                }
                return Err(e);
            },
        }
        i += 1;
    }
    proof {
        assert(vo.subrange(0, pairs.len() as int) == vo);
    }
    Ok(out)
}

/// What decoding one named field pair returns: the value must be an array.
pub open spec fn spec_decode_field_pair(p: (Seq<char>, SpecJson)) -> Result<
    (Seq<char>, SpecBlockField),
    DecodeError,
> {
    match p.1 {
        SpecJson::Arr(elems) => match spec_decode_field(elems) {
            Ok(v) => Ok((p.0, v)),
            Err(e) => Err(e),
        },
        _ => Err(DecodeError::TypeMismatch),
    }
}

/// What decoding the pairs of a fields object returns: each pair in order,
/// or the first failure.
pub open spec fn spec_decode_field_pairs(pairs: Seq<(Seq<char>, SpecJson)>) -> Result<
    Seq<(Seq<char>, SpecBlockField)>,
    DecodeError,
>
    decreases pairs.len(),
{
    if pairs.len() == 0 {
        Ok(Seq::empty())
    } else {
        match spec_decode_field_pairs(pairs.subrange(0, pairs.len() - 1)) {
            Err(e) => Err(e),
            Ok(pre) => match spec_decode_field_pair(pairs[pairs.len() - 1]) {
                Ok(v) => Ok(pre.push(v)),
                Err(e) => Err(e),
            },
        }
    }
}

/// A failing pair makes the whole fields object fail with its error.
proof fn lemma_decode_field_pairs_err(pairs: Seq<(Seq<char>, SpecJson)>, i: int)
    requires
        0 <= i < pairs.len(),
        spec_decode_field_pairs(pairs.subrange(0, i)) is Ok,
        spec_decode_field_pair(pairs[i]) is Err,
    ensures
        spec_decode_field_pairs(pairs) == Err::<Seq<(Seq<char>, SpecBlockField)>, DecodeError>(
            spec_decode_field_pair(pairs[i])->Err_0,
        ),
    decreases pairs.len(),
{
    if pairs.len() - 1 == i {
        assert(pairs.subrange(0, pairs.len() - 1) == pairs.subrange(0, i));
    } else {
        let pre = pairs.subrange(0, pairs.len() - 1);
        assert(pre.subrange(0, i) =~= pairs.subrange(0, i));
        assert(pre[i] == pairs[i]);
        lemma_decode_field_pairs_err(pre, i);
    }
}

/// Decode the pairs of a fields object, keeping their order.
#[verifier::loop_isolation(false)]
pub fn decode_field_pairs(pairs: &Vec<(String, Json)>) -> (r: Result<
    Vec<(String, BlockField)>,
    DecodeError,
>)
    ensures
        res_view(r) == spec_decode_field_pairs(view_of_obj(pairs@)),
{
    let ghost vo = view_of_obj(pairs@);
    let mut out: Vec<(String, BlockField)> = Vec::new();
    proof {
        assert(vo.subrange(0, 0) =~= Seq::<(Seq<char>, SpecJson)>::empty());
        assert(out.deep_view() =~= Seq::<(Seq<char>, SpecBlockField)>::empty());
    }
    let mut i: usize = 0;
    while i < pairs.len()
        invariant
            0 <= i <= pairs.len(),
            spec_decode_field_pairs(vo.subrange(0, i as int)) == Ok::<_, DecodeError>(
                out.deep_view(),
            ),
        decreases pairs.len() - i,
    {
        let ghost pre = vo.subrange(0, i as int);
        let ghost old_out = out.deep_view();
        let fr = match &pairs[i].1 {
            Json::Arr(elems) => decode_field(elems),
            _ => Err(DecodeError::TypeMismatch),
        };
        match fr {
            Ok(v) => {
                out.push((pairs[i].0.clone(), v));
                proof {
                    let cur = vo.subrange(0, i + 1);
                    assert(cur.subrange(0, cur.len() - 1) =~= pre);
                    assert(cur[cur.len() - 1] == vo[i as int]);
                    assert(out.deep_view() =~= old_out.push(
                        (pairs@[i as int].0@, v.deep_view()),
                    ));
                }
            },
            Err(e) => {
                proof {
                    assert(spec_decode_field_pair(vo[i as int]) == Err::<
                        (Seq<char>, SpecBlockField),
                        DecodeError,
                    >(e));
                    lemma_decode_field_pairs_err(vo, i as int);
                    assert(vo.subrange(0, vo.len() as int) == vo);
                }
                return Err(e);
            },
        }
        i += 1;
    }
    proof {
        assert(vo.subrange(0, pairs.len() as int) == vo);
    }
    Ok(out)
}

/// A required string-valued object field.
pub open spec fn spec_req_str(o: Option<SpecJson>) -> Result<Seq<char>, DecodeError> {
    match o {
        None => Err(DecodeError::MissingField),
        Some(SpecJson::Str(s)) => Ok(s),
        Some(_) => Err(DecodeError::TypeMismatch),
    }
}

/// A required array-valued object field.
pub open spec fn spec_req_arr(o: Option<SpecJson>) -> Result<Seq<SpecJson>, DecodeError> {
    match o {
        None => Err(DecodeError::MissingField),
        Some(SpecJson::Arr(a)) => Ok(a),
        Some(_) => Err(DecodeError::TypeMismatch),
    }
}

/// An optional string field: absent and null both mean `None`.
pub open spec fn spec_opt_str(o: Option<SpecJson>) -> Result<Option<Seq<char>>, DecodeError> {
    match o {
        None => Ok(None),
        Some(SpecJson::Null) => Ok(None),
        Some(SpecJson::Str(s)) => Ok(Some(s)),
        Some(_) => Err(DecodeError::TypeMismatch),
    }
}

/// A required but nullable identifier field.
pub open spec fn spec_req_uid_opt(o: Option<SpecJson>) -> Result<Option<Seq<char>>, DecodeError> {
    match o {
        None => Err(DecodeError::MissingField),
        Some(v) => spec_decode_uid_opt(v),
    }
}

/// A required boolean field.
pub open spec fn spec_req_bool(o: Option<SpecJson>) -> Result<bool, DecodeError> {
    match o {
        None => Err(DecodeError::MissingField),
        Some(SpecJson::Bool(b)) => Ok(b),
        Some(_) => Err(DecodeError::TypeMismatch),
    }
}

/// An optional number field: absent and null both mean `None`.
pub open spec fn spec_opt_number(o: Option<SpecJson>) -> Result<Option<SpecNumber>, DecodeError> {
    match o {
        None => Ok(None),
        Some(SpecJson::Null) => Ok(None),
        Some(SpecJson::Int(i)) => Ok(Some(SpecNumber::Int(i))),
        Some(SpecJson::Float(t)) => Ok(Some(SpecNumber::Float(t))),
        Some(_) => Err(DecodeError::TypeMismatch),
    }
}

/// The string a present string-valued field holds, `None` otherwise.
pub open spec fn spec_str_of(o: Option<SpecJson>) -> Option<Seq<char>> {
    match o {
        Some(SpecJson::Str(s)) => Some(s),
        _ => None,
    }
}

/// What decoding the mutation payload returns: the three candidates are
/// tried in a fixed priority order, a candidate succeeding exactly when all
/// its required fields are present, string-valued and hold well-formed inner
/// JSON text; if none fits, the whole mutation is rejected.
pub open spec fn spec_decode_mutation_enum(pairs: Seq<(Seq<char>, SpecJson)>) -> Result<
    SpecBlockMutationEnum,
    DecodeError,
> {
    let proc = spec_str_of(spec_lookup(pairs, "proccode"@));
    let ids = match spec_str_of(spec_lookup(pairs, "argumentids"@)) {
        Some(s) => json_parse_str_array(s),
        None => None,
    };
    let nms = match spec_str_of(spec_lookup(pairs, "argumentnames"@)) {
        Some(s) => json_parse_str_array(s),
        None => None,
    };
    let dfl = match spec_str_of(spec_lookup(pairs, "argumentdefaults"@)) {
        Some(s) => json_parse_scalar_array(s),
        None => None,
    };
    let wrp = match spec_str_of(spec_lookup(pairs, "warp"@)) {
        Some(s) => json_parse_opt_bool(s),
        None => None,
    };
    let hn = match spec_str_of(spec_lookup(pairs, "hasnext"@)) {
        Some(s) => json_parse_bool(s),
        None => None,
    };
    match (proc, ids, nms, dfl, wrp) {
        (Some(p), Some(a), Some(n), Some(d), Some(w)) => Ok(
            SpecBlockMutationEnum::ProceduresPrototype {
                proccode: p,
                argumentids: a,
                argumentnames: n,
                argumentdefaults: d,
                warp: w,
            },
        ),
        _ => match (proc, ids, wrp) {
            (Some(p), Some(a), Some(w)) => Ok(
                SpecBlockMutationEnum::ProceduresCall { proccode: p, argumentids: a, warp: w },
            ),
            _ => match hn {
                Some(h) => Ok(SpecBlockMutationEnum::ControlStop { hasnext: h }),
                None => Err(DecodeError::UnexpectedShape),
            },
        },
    }
}

/// What decoding a mutation object returns: its tag name, its children kept
/// verbatim, and the opcode-dependent payload.
pub open spec fn spec_decode_mutation(j: SpecJson) -> Result<SpecBlockMutation, DecodeError> {
    match j {
        SpecJson::Obj(pairs) => {
            let tag = spec_req_str(spec_lookup(pairs, "tagName"@));
            let ch = spec_req_arr(spec_lookup(pairs, "children"@));
            let me = spec_decode_mutation_enum(pairs);
            if tag is Err {
                Err(tag->Err_0)
            } else if ch is Err {
                Err(ch->Err_0)
            } else if me is Err {
                Err(me->Err_0)
            } else {
                Ok(
                    SpecBlockMutation {
                        tag_name: tag->Ok_0,
                        children: ch->Ok_0,
                        mutation_enum: me->Ok_0,
                    },
                )
            }
        },
        _ => Err(DecodeError::TypeMismatch),
    }
}

/// Decode a mutation object.
#[verifier::loop_isolation(false)]
pub fn decode_mutation(j: Json) -> (r: Result<BlockMutation, DecodeError>)
    ensures
        res_view(r) == spec_decode_mutation(view_of_json(j)),
{
    let pairs = match j {
        Json::Obj(pairs) => pairs,
        _ => {
            return Err(DecodeError::TypeMismatch);
        },
    };
    proof {
        reveal_strlit("tagName");
        reveal_strlit("children");
        reveal_strlit("proccode");
        reveal_strlit("argumentids");
        reveal_strlit("argumentnames");
        reveal_strlit("argumentdefaults");
        reveal_strlit("warp");
        reveal_strlit("hasnext");
        assert("tagName"@.len() == 7 && "children"@.len() == 8 && "proccode"@.len() == 8
            && "argumentids"@.len() == 11 && "argumentnames"@.len() == 13
            && "argumentdefaults"@.len() == 16 && "warp"@.len() == 4 && "hasnext"@.len() == 7);
        assert("tagName"@[0] != "hasnext"@[0]);
        assert("children"@[0] != "proccode"@[0]);
        assert("tagName"@ != "children"@ && "tagName"@ != "proccode"@ && "tagName"@
            != "argumentids"@ && "tagName"@ != "argumentnames"@ && "tagName"@
            != "argumentdefaults"@ && "tagName"@ != "warp"@ && "tagName"@ != "hasnext"@);
        assert("children"@ != "proccode"@ && "children"@ != "argumentids"@ && "children"@
            != "argumentnames"@ && "children"@ != "argumentdefaults"@ && "children"@ != "warp"@
            && "children"@ != "hasnext"@);
        assert("proccode"@ != "argumentids"@ && "proccode"@ != "argumentnames"@ && "proccode"@
            != "argumentdefaults"@ && "proccode"@ != "warp"@ && "proccode"@ != "hasnext"@);
        assert("argumentids"@ != "argumentnames"@ && "argumentids"@ != "argumentdefaults"@
            && "argumentids"@ != "warp"@ && "argumentids"@ != "hasnext"@);
        assert("argumentnames"@ != "argumentdefaults"@ && "argumentnames"@ != "warp"@
            && "argumentnames"@ != "hasnext"@);
        assert("argumentdefaults"@ != "warp"@ && "argumentdefaults"@ != "hasnext"@);
        assert("warp"@ != "hasnext"@);
    }
    let ghost vo = view_of_obj(pairs@);
    let mut rest = pairs;
    let mut s_tag: Option<Json> = None;
    let mut s_ch: Option<Json> = None;
    let mut s_proc: Option<Json> = None;
    let mut s_ids: Option<Json> = None;
    let mut s_nms: Option<Json> = None;
    let mut s_dfl: Option<Json> = None;
    let mut s_wrp: Option<Json> = None;
    let mut s_hn: Option<Json> = None;
    while rest.len() > 0
        invariant
            spec_lookup(vo, "tagName"@) == slot_or(s_tag, spec_lookup(view_of_obj(rest@), "tagName"@)),
            spec_lookup(vo, "children"@) == slot_or(s_ch, spec_lookup(view_of_obj(rest@), "children"@)),
            spec_lookup(vo, "proccode"@) == slot_or(s_proc, spec_lookup(view_of_obj(rest@), "proccode"@)),
            spec_lookup(vo, "argumentids"@) == slot_or(s_ids, spec_lookup(view_of_obj(rest@), "argumentids"@)),
            spec_lookup(vo, "argumentnames"@) == slot_or(s_nms, spec_lookup(view_of_obj(rest@), "argumentnames"@)),
            spec_lookup(vo, "argumentdefaults"@) == slot_or(s_dfl, spec_lookup(view_of_obj(rest@), "argumentdefaults"@)),
            spec_lookup(vo, "warp"@) == slot_or(s_wrp, spec_lookup(view_of_obj(rest@), "warp"@)),
            spec_lookup(vo, "hasnext"@) == slot_or(s_hn, spec_lookup(view_of_obj(rest@), "hasnext"@)),
        decreases rest.len(),
    {
        let ghost prev = rest@;
        let p = rest.pop().unwrap();
        proof {
            let pp = (p.0@, view_of_json(p.1));
            assert(prev.subrange(0, prev.len() - 1) =~= rest@);
            assert(view_of_obj(prev) == view_of_obj(rest@).push(pp));
            assert(view_of_obj(rest@).push(pp).subrange(
                0,
                view_of_obj(rest@).len() as int,
            ) =~= view_of_obj(rest@));
        }
        if str_eq(p.0.as_str(), "tagName") {
            if s_tag.is_none() {
                s_tag = Some(p.1);
            }
        } else if str_eq(p.0.as_str(), "children") {
            if s_ch.is_none() {
                s_ch = Some(p.1);
            }
        } else if str_eq(p.0.as_str(), "proccode") {
            if s_proc.is_none() {
                s_proc = Some(p.1);
            }
        } else if str_eq(p.0.as_str(), "argumentids") {
            if s_ids.is_none() {
                s_ids = Some(p.1);
            }
        } else if str_eq(p.0.as_str(), "argumentnames") {
            if s_nms.is_none() {
                s_nms = Some(p.1);
            }
        } else if str_eq(p.0.as_str(), "argumentdefaults") {
            if s_dfl.is_none() {
                s_dfl = Some(p.1);
            }
        } else if str_eq(p.0.as_str(), "warp") {
            if s_wrp.is_none() {
                s_wrp = Some(p.1);
            }
        } else if str_eq(p.0.as_str(), "hasnext") {
            if s_hn.is_none() {
                s_hn = Some(p.1);
            }
        }
    }
    proof {
        assert(view_of_obj(rest@) =~= Seq::<(Seq<char>, SpecJson)>::empty());
    }
    let tag_name = match s_tag {
        None => {
            return Err(DecodeError::MissingField);
        },
        Some(Json::Str(s)) => s,
        Some(_) => {
            return Err(DecodeError::TypeMismatch);
        },
    };
    let children = match s_ch {
        None => {
            return Err(DecodeError::MissingField);
        },
        Some(Json::Arr(v)) => v,
        Some(_) => {
            return Err(DecodeError::TypeMismatch);
        },
    };
    let proc: Option<String> = match &s_proc {
        Some(Json::Str(s)) => Some(s.clone()),
        _ => None,
    };
    let ids: Option<Vec<String>> = match &s_ids {
        Some(Json::Str(s)) => parse_str_array(s.as_str()),
        _ => None,
    };
    let nms: Option<Vec<String>> = match &s_nms {
        Some(Json::Str(s)) => parse_str_array(s.as_str()),
        _ => None,
    };
    let dfl: Option<Vec<Value>> = match &s_dfl {
        Some(Json::Str(s)) => parse_scalar_array(s.as_str()),
        _ => None,
    };
    let wrp: Option<Option<bool>> = match &s_wrp {
        Some(Json::Str(s)) => parse_opt_bool_text(s.as_str()),
        _ => None,
    };
    let hn: Option<bool> = match &s_hn {
        Some(Json::Str(s)) => parse_bool_text(s.as_str()),
        _ => None,
    };
    if proc.is_some() && ids.is_some() && nms.is_some() && dfl.is_some() && wrp.is_some() {
        let mutation_enum = BlockMutationEnum::ProceduresPrototype {
            proccode: proc.unwrap(),
            argumentids: ids.unwrap(),
            argumentnames: nms.unwrap(),
            argumentdefaults: dfl.unwrap(),
            warp: wrp.unwrap(),
        };
        Ok(BlockMutation { tag_name, children, mutation_enum })
    } else if proc.is_some() && ids.is_some() && wrp.is_some() {
        let mutation_enum = BlockMutationEnum::ProceduresCall {
            proccode: proc.unwrap(),
            argumentids: ids.unwrap(),
            warp: wrp.unwrap(),
        };
        Ok(BlockMutation { tag_name, children, mutation_enum })
    } else {
        match hn {
            Some(hasnext) => Ok(
                BlockMutation {
                    tag_name,
                    children,
                    mutation_enum: BlockMutationEnum::ControlStop { hasnext },
                },
            ),
            None => Err(DecodeError::UnexpectedShape),
        }
    }
}

/// An optional mutation field: absent and null both mean `None`.
pub open spec fn spec_opt_mutation(o: Option<SpecJson>) -> Result<
    Option<SpecBlockMutation>,
    DecodeError,
> {
    match o {
        None => Ok(None),
        Some(SpecJson::Null) => Ok(None),
        Some(v) => match spec_decode_mutation(v) {
            Ok(m) => Ok(Some(m)),
            Err(e) => Err(e),
        },
    }
}

/// A required inputs object.
pub open spec fn spec_req_inputs(o: Option<SpecJson>) -> Result<
    Seq<(Seq<char>, SpecBlockInput)>,
    DecodeError,
> {
    match o {
        None => Err(DecodeError::MissingField),
        Some(SpecJson::Obj(ps)) => spec_decode_input_pairs(ps),
        Some(_) => Err(DecodeError::TypeMismatch),
    }
}

/// A required fields object.
pub open spec fn spec_req_fields(o: Option<SpecJson>) -> Result<
    Seq<(Seq<char>, SpecBlockField)>,
    DecodeError,
> {
    match o {
        None => Err(DecodeError::MissingField),
        Some(SpecJson::Obj(ps)) => spec_decode_field_pairs(ps),
        Some(_) => Err(DecodeError::TypeMismatch),
    }
}

/// What decoding the object shape of a block returns. The required fields
/// are `opcode`, `next`, `parent`, `inputs`, `fields`, `shadow` and
/// `topLevel`; `comment`, `mutation`, `x` and `y` may be absent or null;
/// unknown keys are ignored.
pub open spec fn spec_decode_block_normal(pairs: Seq<(Seq<char>, SpecJson)>) -> Result<
    SpecBlockNormal,
    DecodeError,
> {
    let opcode = spec_req_str(spec_lookup(pairs, "opcode"@));
    let comment = spec_opt_str(spec_lookup(pairs, "comment"@));
    let next = spec_req_uid_opt(spec_lookup(pairs, "next"@));
    let parent = spec_req_uid_opt(spec_lookup(pairs, "parent"@));
    let inputs = spec_req_inputs(spec_lookup(pairs, "inputs"@));
    let fields = spec_req_fields(spec_lookup(pairs, "fields"@));
    let shadow = spec_req_bool(spec_lookup(pairs, "shadow"@));
    let top_level = spec_req_bool(spec_lookup(pairs, "topLevel"@));
    let mutation = spec_opt_mutation(spec_lookup(pairs, "mutation"@));
    let x = spec_opt_number(spec_lookup(pairs, "x"@));
    let y = spec_opt_number(spec_lookup(pairs, "y"@));
    if opcode is Err {
        Err(opcode->Err_0)
    } else if comment is Err {
        Err(comment->Err_0)
    } else if next is Err {
        Err(next->Err_0)
    } else if parent is Err {
        Err(parent->Err_0)
    } else if inputs is Err {
        Err(inputs->Err_0)
    } else if fields is Err {
        Err(fields->Err_0)
    } else if shadow is Err {
        Err(shadow->Err_0)
    } else if top_level is Err {
        Err(top_level->Err_0)
    } else if mutation is Err {
        Err(mutation->Err_0)
    } else if x is Err {
        Err(x->Err_0)
    } else if y is Err {
        Err(y->Err_0)
    } else {
        Ok(
            SpecBlockNormal {
                opcode: opcode->Ok_0,
                comment: comment->Ok_0,
                next: next->Ok_0,
                parent: parent->Ok_0,
                inputs: inputs->Ok_0,
                fields: fields->Ok_0,
                shadow: shadow->Ok_0,
                top_level: top_level->Ok_0,
                mutation: mutation->Ok_0,
                x: x->Ok_0,
                y: y->Ok_0,
            },
        )
    }
}

/// Decode the object shape of a block.
#[verifier::loop_isolation(false)]
pub fn decode_block_normal(pairs: Vec<(String, Json)>) -> (r: Result<BlockNormal, DecodeError>)
    ensures
        res_view(r) == spec_decode_block_normal(view_of_obj(pairs@)),
{
    proof {
        reveal_strlit("opcode");
        reveal_strlit("comment");
        reveal_strlit("next");
        reveal_strlit("parent");
        reveal_strlit("inputs");
        reveal_strlit("fields");
        reveal_strlit("shadow");
        reveal_strlit("topLevel");
        reveal_strlit("mutation");
        reveal_strlit("x");
        reveal_strlit("y");
        assert("opcode"@.len() == 6 && "comment"@.len() == 7 && "next"@.len() == 4
            && "parent"@.len() == 6 && "inputs"@.len() == 6 && "fields"@.len() == 6
            && "shadow"@.len() == 6 && "topLevel"@.len() == 8 && "mutation"@.len() == 8
            && "x"@.len() == 1 && "y"@.len() == 1);
        assert("opcode"@[0] != "parent"@[0] && "opcode"@[0] != "inputs"@[0] && "opcode"@[0]
            != "fields"@[0] && "opcode"@[0] != "shadow"@[0]);
        assert("parent"@[0] != "inputs"@[0] && "parent"@[0] != "fields"@[0] && "parent"@[0]
            != "shadow"@[0]);
        assert("inputs"@[0] != "fields"@[0] && "inputs"@[0] != "shadow"@[0]);
        assert("fields"@[0] != "shadow"@[0]);
        assert("topLevel"@[0] != "mutation"@[0]);
        assert("x"@[0] != "y"@[0]);
    }
    let ghost vo = view_of_obj(pairs@);
    let mut rest = pairs;
    let mut s_opcode: Option<Json> = None;
    let mut s_comment: Option<Json> = None;
    let mut s_next: Option<Json> = None;
    let mut s_parent: Option<Json> = None;
    let mut s_inputs: Option<Json> = None;
    let mut s_fields: Option<Json> = None;
    let mut s_shadow: Option<Json> = None;
    let mut s_top: Option<Json> = None;
    let mut s_mut: Option<Json> = None;
    let mut s_x: Option<Json> = None;
    let mut s_y: Option<Json> = None;
    while rest.len() > 0
        invariant
            spec_lookup(vo, "opcode"@) == slot_or(s_opcode, spec_lookup(view_of_obj(rest@), "opcode"@)),
            spec_lookup(vo, "comment"@) == slot_or(s_comment, spec_lookup(view_of_obj(rest@), "comment"@)),
            spec_lookup(vo, "next"@) == slot_or(s_next, spec_lookup(view_of_obj(rest@), "next"@)),
            spec_lookup(vo, "parent"@) == slot_or(s_parent, spec_lookup(view_of_obj(rest@), "parent"@)),
            spec_lookup(vo, "inputs"@) == slot_or(s_inputs, spec_lookup(view_of_obj(rest@), "inputs"@)),
            spec_lookup(vo, "fields"@) == slot_or(s_fields, spec_lookup(view_of_obj(rest@), "fields"@)),
            spec_lookup(vo, "shadow"@) == slot_or(s_shadow, spec_lookup(view_of_obj(rest@), "shadow"@)),
            spec_lookup(vo, "topLevel"@) == slot_or(s_top, spec_lookup(view_of_obj(rest@), "topLevel"@)),
            spec_lookup(vo, "mutation"@) == slot_or(s_mut, spec_lookup(view_of_obj(rest@), "mutation"@)),
            spec_lookup(vo, "x"@) == slot_or(s_x, spec_lookup(view_of_obj(rest@), "x"@)),
            spec_lookup(vo, "y"@) == slot_or(s_y, spec_lookup(view_of_obj(rest@), "y"@)),
        decreases rest.len(),
    {
        let ghost prev = rest@;
        let p = rest.pop().unwrap();
        proof {
            let pp = (p.0@, view_of_json(p.1));
            assert(prev.subrange(0, prev.len() - 1) =~= rest@);
            assert(view_of_obj(prev) == view_of_obj(rest@).push(pp));
            assert(view_of_obj(rest@).push(pp).subrange(
                0,
                view_of_obj(rest@).len() as int,
            ) =~= view_of_obj(rest@));
        }
        if str_eq(p.0.as_str(), "opcode") {
            if s_opcode.is_none() {
                s_opcode = Some(p.1);
            }
        } else if str_eq(p.0.as_str(), "comment") {
            if s_comment.is_none() {
                s_comment = Some(p.1);
            }
        } else if str_eq(p.0.as_str(), "next") {
            if s_next.is_none() {
                s_next = Some(p.1);
            }
        } else if str_eq(p.0.as_str(), "parent") {
            if s_parent.is_none() {
                s_parent = Some(p.1);
            }
        } else if str_eq(p.0.as_str(), "inputs") {
            if s_inputs.is_none() {
                s_inputs = Some(p.1);
            }
        } else if str_eq(p.0.as_str(), "fields") {
            if s_fields.is_none() {
                s_fields = Some(p.1);
            }
        } else if str_eq(p.0.as_str(), "shadow") {
            if s_shadow.is_none() {
                s_shadow = Some(p.1);
            }
        } else if str_eq(p.0.as_str(), "topLevel") {
            if s_top.is_none() {
                s_top = Some(p.1);
            }
        } else if str_eq(p.0.as_str(), "mutation") {
            if s_mut.is_none() {
                s_mut = Some(p.1);
            }
        } else if str_eq(p.0.as_str(), "x") {
            if s_x.is_none() {
                s_x = Some(p.1);
            }
        } else if str_eq(p.0.as_str(), "y") {
            if s_y.is_none() {
                s_y = Some(p.1);
            }
        }
    }
    proof {
        assert(view_of_obj(rest@) =~= Seq::<(Seq<char>, SpecJson)>::empty());
    }
    let opcode = match s_opcode {
        None => {
            return Err(DecodeError::MissingField);
        },
        Some(Json::Str(s)) => s,
        Some(_) => {
            return Err(DecodeError::TypeMismatch);
        },
    };
    let comment = match s_comment {
        None => None,
        Some(Json::Null) => None,
        Some(Json::Str(s)) => Some(s),
        Some(_) => {
            return Err(DecodeError::TypeMismatch);
        },
    };
    let next = match s_next {
        None => {
            return Err(DecodeError::MissingField);
        },
        Some(v) => decode_uid_opt(&v)?,
    };
    let parent = match s_parent {
        None => {
            return Err(DecodeError::MissingField);
        },
        Some(v) => decode_uid_opt(&v)?,
    };
    let inputs = match s_inputs {
        None => {
            return Err(DecodeError::MissingField);
        },
        Some(Json::Obj(ps)) => decode_input_pairs(&ps)?,
        Some(_) => {
            return Err(DecodeError::TypeMismatch);
        },
    };
    let fields = match s_fields {
        None => {
            return Err(DecodeError::MissingField);
        },
        Some(Json::Obj(ps)) => decode_field_pairs(&ps)?,
        Some(_) => {
            return Err(DecodeError::TypeMismatch);
        },
    };
    let shadow = match s_shadow {
        None => {
            return Err(DecodeError::MissingField);
        },
        Some(Json::Bool(b)) => b,
        Some(_) => {
            return Err(DecodeError::TypeMismatch);
        },
    };
    let top_level = match s_top {
        None => {
            return Err(DecodeError::MissingField);
        },
        Some(Json::Bool(b)) => b,
        Some(_) => {
            return Err(DecodeError::TypeMismatch);
        },
    };
    let mutation = match s_mut {
        None => None,
        Some(Json::Null) => None,
        Some(v) => Some(decode_mutation(v)?),
    };
    let x = match s_x {
        None => None,
        Some(Json::Null) => None,
        Some(Json::Int(i)) => Some(Number::Int(i)),
        Some(Json::Float(t)) => Some(Number::Float(t)),
        Some(_) => {
            return Err(DecodeError::TypeMismatch);
        },
    };
    let y = match s_y {
        None => None,
        Some(Json::Null) => None,
        Some(Json::Int(i)) => Some(Number::Int(i)),
        Some(Json::Float(t)) => Some(Number::Float(t)),
        Some(_) => {
            return Err(DecodeError::TypeMismatch);
        },
    };
    Ok(
        BlockNormal {
            opcode,
            comment,
            next,
            parent,
            inputs,
            fields,
            shadow,
            top_level,
            mutation,
            x,
            y,
        },
    )
}

/// What decoding the 5-element array of a bare top-level reporter returns.
pub open spec fn spec_decode_var_list(elems: Seq<SpecJson>) -> Result<
    SpecBlockVarListReporterTop,
    DecodeError,
> {
    if elems.len() != 5 {
        Err(DecodeError::UnexpectedShape)
    } else {
        match spec_decode_list_or_variable(elems[0]) {
            Err(e) => Err(e),
            Ok(kind) => match (elems[1], elems[2]) {
                (SpecJson::Str(name), SpecJson::Str(id)) => match (
                    spec_decode_number(elems[3]),
                    spec_decode_number(elems[4]),
                ) {
                    (Ok(x), Ok(y)) => Ok(
                        SpecBlockVarListReporterTop { kind, name, id, x, y },
                    ),
                    (Err(e), _) => Err(e),
                    (Ok(_), Err(e)) => Err(e),
                },
                _ => Err(DecodeError::TypeMismatch),
            },
        }
    }
}

/// Decode a bare top-level variable or list reporter.
pub fn decode_var_list(elems: &Vec<Json>) -> (r: Result<BlockVarListReporterTop, DecodeError>)
    ensures
        res_view(r) == spec_decode_var_list(view_of_arr(elems@)),
{
    if elems.len() != 5 {
        return Err(DecodeError::UnexpectedShape);
    }
    let kind = decode_list_or_variable(&elems[0])?;
    let name = match &elems[1] {
        Json::Str(s) => s.clone(),
        _ => {
            return Err(DecodeError::TypeMismatch);
        },
    };
    let id = match &elems[2] {
        Json::Str(s) => s.clone(),
        _ => {
            return Err(DecodeError::TypeMismatch);
        },
    };
    let x = decode_number(&elems[3])?;
    let y = decode_number(&elems[4])?;
    Ok(BlockVarListReporterTop { kind, name, id, x, y })
}

/// What decoding one block-collection entry returns: an object is the
/// canonical record, an array is a bare top-level reporter, anything else is
/// rejected. The dispatch looks at nothing but the value's own shape.
pub open spec fn spec_decode_block(j: SpecJson) -> Result<SpecBlock, DecodeError> {
    match j {
        SpecJson::Obj(pairs) => match spec_decode_block_normal(pairs) {
            Ok(n) => Ok(SpecBlock::Normal(n)),
            Err(e) => Err(e),
        },
        SpecJson::Arr(elems) => match spec_decode_var_list(elems) {
            Ok(v) => Ok(SpecBlock::VarList(v)),
            Err(e) => Err(e),
        },
        _ => Err(DecodeError::TypeMismatch),
    }
}

/// Decode one block from its generic JSON value.
pub fn decode_block(j: Json) -> (r: Result<Block, DecodeError>)
    ensures
        res_view(r) == spec_decode_block(view_of_json(j)),
{
    match j {
        Json::Obj(pairs) => match decode_block_normal(pairs) {
            Ok(n) => Ok(Block::Normal(n)),
            Err(e) => Err(e),
        },
        Json::Arr(elems) => match decode_var_list(&elems) {
            Ok(v) => Ok(Block::VarList(v)),
            Err(e) => Err(e),
        },
        _ => Err(DecodeError::TypeMismatch),
    }
}

} // verus!
