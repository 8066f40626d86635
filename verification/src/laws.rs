//! Laws the codec obeys, stated over the same specification functions that
//! the executable functions' contracts use.

use vstd::prelude::*;

use crate::dec::{
    spec_decode_block, spec_decode_block_normal, spec_decode_field, spec_decode_field_pairs,
    spec_decode_input, spec_decode_input_pairs, spec_decode_input_value,
    spec_decode_list_or_variable, spec_decode_number, spec_decode_shadow, spec_decode_slot,
    spec_decode_slots, spec_decode_uid_opt, spec_decode_value, spec_lookup,
};
use crate::enc::{
    spec_comment_seg, spec_encode_block, spec_encode_block_normal, spec_encode_field,
    spec_encode_field_pairs, spec_encode_input, spec_encode_input_pairs,
    spec_encode_input_value, spec_encode_number, spec_encode_shadow, spec_encode_slot,
    spec_encode_slots, spec_encode_uid_opt, spec_encode_value, spec_mutation_seg, spec_num_seg,
};
use crate::error::DecodeError;
use crate::json::SpecJson;
use crate::model::{
    SpecBlock, SpecBlockField, SpecBlockInput, SpecBlockInputValue, SpecBlockNormal,
    SpecUidOrValue, SpecValue, SpecNumber, ShadowInputType, ListOrVariable,
};

verus! {

proof fn lemma_rt_value(v: SpecValue)
    ensures
        spec_decode_value(spec_encode_value(v)) == Ok::<SpecValue, DecodeError>(v),
{
}

proof fn lemma_rt_uid_opt(o: Option<Seq<char>>)
    ensures
        spec_decode_uid_opt(spec_encode_uid_opt(o)) == Ok::<Option<Seq<char>>, DecodeError>(o),
{
}

proof fn lemma_rt_number(n: SpecNumber)
    ensures
        spec_decode_number(spec_encode_number(n)) == Ok::<SpecNumber, DecodeError>(n),
{
}

proof fn lemma_rt_input_value(v: SpecBlockInputValue)
    ensures
        spec_encode_input_value(v) matches SpecJson::Arr(elems) && spec_decode_input_value(
            elems,
        ) == Ok::<SpecBlockInputValue, DecodeError>(v),
{
    match v {
        SpecBlockInputValue::Number { value } => lemma_rt_value(value),
        SpecBlockInputValue::PositiveNumber { value } => lemma_rt_value(value),
        SpecBlockInputValue::PositiveInteger { value } => lemma_rt_value(value),
        SpecBlockInputValue::Integer { value } => lemma_rt_value(value),
        SpecBlockInputValue::Angle { value } => lemma_rt_value(value),
        SpecBlockInputValue::Color { value } => lemma_rt_value(value),
        SpecBlockInputValue::Str { value } => lemma_rt_value(value),
        SpecBlockInputValue::Broadcast { .. } => {},
        SpecBlockInputValue::Variable { .. } => {},
        SpecBlockInputValue::List { .. } => {},
    }
}

proof fn lemma_rt_slot(o: Option<SpecUidOrValue>)
    ensures
        spec_decode_slot(spec_encode_slot(o)) == Ok::<Option<SpecUidOrValue>, DecodeError>(o),
{
    match o {
        Some(SpecUidOrValue::Value(v)) => lemma_rt_input_value(v),
        _ => {},
    }
}

proof fn lemma_rt_slots(s: Seq<Option<SpecUidOrValue>>)
    ensures
        spec_decode_slots(spec_encode_slots(s)) == Ok::<
            Seq<Option<SpecUidOrValue>>,
            DecodeError,
        >(s),
    decreases s.len(),
{
    let e = spec_encode_slots(s);
    if s.len() == 0 {
        assert(s =~= Seq::<Option<SpecUidOrValue>>::empty());
    } else {
        let pre = s.subrange(0, s.len() - 1);
        lemma_rt_slots(pre);
        assert(e.subrange(0, e.len() - 1) =~= spec_encode_slots(pre));
        lemma_rt_slot(s[s.len() - 1]);
        assert(pre.push(s[s.len() - 1]) =~= s);
    }
}

proof fn lemma_rt_input(i: SpecBlockInput)
    ensures
        spec_decode_input(spec_encode_input(i)) == Ok::<SpecBlockInput, DecodeError>(i),
{
    let e = seq![spec_encode_shadow(i.shadow)] + spec_encode_slots(i.inputs);
    assert(e[0] == spec_encode_shadow(i.shadow));
    assert(e.subrange(1, e.len() as int) =~= spec_encode_slots(i.inputs));
    lemma_rt_slots(i.inputs);
    assert(spec_decode_input(spec_encode_input(i)) matches Ok(d) && d =~= i);
}

proof fn lemma_rt_field(f: SpecBlockField)
    ensures
        spec_encode_field(f) matches SpecJson::Arr(elems) && spec_decode_field(elems) == Ok::<
            SpecBlockField,
            DecodeError,
        >(f),
{
    match f {
        SpecBlockField::WithId { value, id } => {
            lemma_rt_value(value);
            lemma_rt_uid_opt(id);
        },
        SpecBlockField::NoId { value } => lemma_rt_value(value),
    }
}

proof fn lemma_rt_input_pairs(m: Seq<(Seq<char>, SpecBlockInput)>)
    ensures
        spec_decode_input_pairs(spec_encode_input_pairs(m)) == Ok::<
            Seq<(Seq<char>, SpecBlockInput)>,
            DecodeError,
        >(m),
    decreases m.len(),
{
    let e = spec_encode_input_pairs(m);
    if m.len() == 0 {
        assert(m =~= Seq::<(Seq<char>, SpecBlockInput)>::empty());
    } else {
        let pre = m.subrange(0, m.len() - 1);
        lemma_rt_input_pairs(pre);
        assert(e.subrange(0, e.len() - 1) =~= spec_encode_input_pairs(pre));
        lemma_rt_input(m[m.len() - 1].1);
        assert(pre.push(m[m.len() - 1]) =~= m);
    }
}

proof fn lemma_rt_field_pairs(m: Seq<(Seq<char>, SpecBlockField)>)
    ensures
        spec_decode_field_pairs(spec_encode_field_pairs(m)) == Ok::<
            Seq<(Seq<char>, SpecBlockField)>,
            DecodeError,
        >(m),
    decreases m.len(),
{
    let e = spec_encode_field_pairs(m);
    if m.len() == 0 {
        assert(m =~= Seq::<(Seq<char>, SpecBlockField)>::empty());
    } else {
        let pre = m.subrange(0, m.len() - 1);
        lemma_rt_field_pairs(pre);
        assert(e.subrange(0, e.len() - 1) =~= spec_encode_field_pairs(pre));
        lemma_rt_field(m[m.len() - 1].1);
        assert(pre.push(m[m.len() - 1]) =~= m);
    }
}

/// Round trip for a bare top-level reporter: decoding what it encodes to
/// gives it back exactly.
pub proof fn lemma_round_trip_var_list(b: SpecBlock)
    requires
        b is VarList,
    ensures
        spec_decode_block(spec_encode_block(b)) == Ok::<SpecBlock, DecodeError>(b),
{
    let v = b->VarList_0;
    lemma_rt_number(v.x);
    lemma_rt_number(v.y);
    assert(spec_decode_block(spec_encode_block(b)) matches Ok(d) && d =~~= b);
}

/// Round trip for a block record that carries no mutation: decoding what it
/// encodes to gives it back exactly. A mutation's doubly-encoded fields pass
/// through an outside JSON-text writer whose output this specification only
/// names, so the corresponding claim for blocks with mutations is not stated
/// here; tests exercise it on concrete values.
pub proof fn lemma_round_trip_normal(b: SpecBlock)
    requires
        b matches SpecBlock::Normal(n) && n.mutation is None,
    ensures
        spec_decode_block(spec_encode_block(b)) == Ok::<SpecBlock, DecodeError>(b),
{
    let n = b->Normal_0;
    reveal_with_fuel(spec_lookup, 12);
    proof_strlit_facts();
    let s = seq![("opcode"@, SpecJson::Str(n.opcode))] + spec_comment_seg(n.comment) + seq![
        ("next"@, spec_encode_uid_opt(n.next)),
        ("parent"@, spec_encode_uid_opt(n.parent)),
        ("inputs"@, SpecJson::Obj(spec_encode_input_pairs(n.inputs))),
        ("fields"@, SpecJson::Obj(spec_encode_field_pairs(n.fields))),
        ("shadow"@, SpecJson::Bool(n.shadow)),
        ("topLevel"@, SpecJson::Bool(n.top_level)),
    ] + spec_mutation_seg(n.mutation) + spec_num_seg("x"@, n.x) + spec_num_seg("y"@, n.y);
    assert(spec_encode_block(b) == SpecJson::Obj(s));
    assert(spec_lookup(s, "opcode"@) == Some(SpecJson::Str(n.opcode)));
    assert(spec_lookup(s, "comment"@) == match n.comment {
        Some(c) => Some(SpecJson::Str(c)),
        None => None,
    });
    assert(spec_lookup(s, "next"@) == Some(spec_encode_uid_opt(n.next)));
    assert(spec_lookup(s, "parent"@) == Some(spec_encode_uid_opt(n.parent)));
    assert(spec_lookup(s, "inputs"@) == Some(
        SpecJson::Obj(spec_encode_input_pairs(n.inputs)),
    ));
    assert(spec_lookup(s, "fields"@) == Some(
        SpecJson::Obj(spec_encode_field_pairs(n.fields)),
    ));
    assert(spec_lookup(s, "shadow"@) == Some(SpecJson::Bool(n.shadow)));
    assert(spec_lookup(s, "topLevel"@) == Some(SpecJson::Bool(n.top_level)));
    assert(spec_lookup(s, "mutation"@) is None);
    assert(spec_lookup(s, "x"@) == match n.x {
        Some(v) => Some(spec_encode_number(v)),
        None => None,
    });
    assert(spec_lookup(s, "y"@) == match n.y {
        Some(v) => Some(spec_encode_number(v)),
        None => None,
    });
    lemma_rt_uid_opt(n.next);
    lemma_rt_uid_opt(n.parent);
    lemma_rt_input_pairs(n.inputs);
    lemma_rt_field_pairs(n.fields);
    assert(spec_decode_block_normal(s) matches Ok(d) && d =~~= n);
}

/// The distinctness of the object keys a block record uses.
proof fn proof_strlit_facts()
    ensures
        "opcode"@.len() == 6,
        "comment"@.len() == 7,
        "next"@.len() == 4,
        "parent"@.len() == 6,
        "inputs"@.len() == 6,
        "fields"@.len() == 6,
        "shadow"@.len() == 6,
        "topLevel"@.len() == 8,
        "mutation"@.len() == 8,
        "x"@.len() == 1,
        "y"@.len() == 1,
        "opcode"@ != "parent"@ && "opcode"@ != "inputs"@ && "opcode"@ != "fields"@
            && "opcode"@ != "shadow"@,
        "parent"@ != "inputs"@ && "parent"@ != "fields"@ && "parent"@ != "shadow"@,
        "inputs"@ != "fields"@ && "inputs"@ != "shadow"@,
        "fields"@ != "shadow"@,
        "topLevel"@ != "mutation"@,
        "x"@ != "y"@,
{
    reveal_strlit("opcode");
    reveal_strlit("comment");
    reveal_strlit("next");
    reveal_strlit("parent");
    reveal_strlit("inputs");
    reveal_strlit("fields");
    reveal_strlit("shadow");
    reveal_strlit("topLevel");
    reveal_strlit("mutation");
    reveal_strlit("x");
    reveal_strlit("y");
    assert("opcode"@[0] != "parent"@[0] && "opcode"@[0] != "inputs"@[0] && "opcode"@[0]
        != "fields"@[0] && "opcode"@[0] != "shadow"@[0]);
    assert("parent"@[0] != "inputs"@[0] && "parent"@[0] != "fields"@[0] && "parent"@[0]
        != "shadow"@[0]);
    assert("inputs"@[0] != "fields"@[0] && "inputs"@[0] != "shadow"@[0]);
    assert("fields"@[0] != "shadow"@[0]);
    assert("topLevel"@[0] != "mutation"@[0]);
    assert("x"@[0] != "y"@[0]);
}

/// Decoding any input value array whose leading integer lies outside 4 to 13
/// fails with that integer as an unexpected tag.
pub proof fn lemma_input_value_tag_exhaustive(elems: Seq<SpecJson>, t: i64)
    requires
        elems.len() > 0,
        elems[0] == SpecJson::Int(t),
        !(4 <= t <= 13),
    ensures
        spec_decode_input_value(elems) == Err::<SpecBlockInputValue, DecodeError>(
            DecodeError::UnexpectedTag(t),
        ),
{
}

/// Decoding a shadow state from any integer outside 1 to 3 fails with that
/// integer as an unexpected tag.
pub proof fn lemma_shadow_tag_exhaustive(t: i64)
    requires
        !(1 <= t <= 3),
    ensures
        spec_decode_shadow(SpecJson::Int(t)) == Err::<ShadowInputType, DecodeError>(
            DecodeError::UnexpectedTag(t),
        ),
{
}

/// Decoding a top-level reporter discriminant from any integer other than 12
/// and 13 fails with that integer as an unexpected tag.
pub proof fn lemma_list_or_variable_tag_exhaustive(t: i64)
    requires
        t != 12,
        t != 13,
    ensures
        spec_decode_list_or_variable(SpecJson::Int(t)) == Err::<ListOrVariable, DecodeError>(
            DecodeError::UnexpectedTag(t),
        ),
{
}

/// Encoding a block record with no comment, mutation, x or y produces an
/// object that contains none of those keys, rather than null-valued ones.
pub proof fn lemma_optional_omission(b: SpecBlockNormal)
    requires
        b.comment is None,
        b.mutation is None,
        b.x is None,
        b.y is None,
    ensures
        (spec_encode_block_normal(b) matches SpecJson::Obj(pairs) && forall|i: int|
            0 <= i < pairs.len() ==> pairs[i].0 != "comment"@ && pairs[i].0 != "mutation"@
                && pairs[i].0 != "x"@ && pairs[i].0 != "y"@),
{
    proof_strlit_facts();
    let s = seq![("opcode"@, SpecJson::Str(b.opcode))] + spec_comment_seg(b.comment) + seq![
        ("next"@, spec_encode_uid_opt(b.next)),
        ("parent"@, spec_encode_uid_opt(b.parent)),
        ("inputs"@, SpecJson::Obj(spec_encode_input_pairs(b.inputs))),
        ("fields"@, SpecJson::Obj(spec_encode_field_pairs(b.fields))),
        ("shadow"@, SpecJson::Bool(b.shadow)),
        ("topLevel"@, SpecJson::Bool(b.top_level)),
    ] + spec_mutation_seg(b.mutation) + spec_num_seg("x"@, b.x) + spec_num_seg("y"@, b.y);
    assert(spec_encode_block_normal(b) == SpecJson::Obj(s));
    assert(s.len() == 7);
    assert(forall|i: int|
        0 <= i < s.len() ==> s[i].0 != "comment"@ && s[i].0 != "mutation"@ && s[i].0 != "x"@
            && s[i].0 != "y"@);
}

} // verus!