//! Encoding: from the typed block representation back to a generic JSON
//! value. Each encoder's contract says that the view of what it builds is
//! exactly what its specification twin (`spec_encode_*`) yields.

use vstd::prelude::*;

use crate::json::{Json, SpecJson, view_of_arr, view_of_json, view_of_obj};
use crate::model::{
    Block, BlockField, BlockInput, BlockInputValue, BlockMutation, BlockMutationEnum,
    BlockNormal, BlockVarListReporterTop, ListOrVariable, Number, ShadowInputType, SpecBlock,
    SpecBlockField, SpecBlockInput, SpecBlockInputValue, SpecBlockMutation,
    SpecBlockMutationEnum, SpecBlockNormal, SpecBlockVarListReporterTop, SpecNumber,
    SpecUidOrValue, SpecValue, UidOrValue, Value,
};
use crate::text::{
    json_write_scalar_array, json_write_str_array, spec_bool_text, spec_opt_bool_text,
    write_bool_text, write_opt_bool_text, write_scalar_array, write_str_array,
};

verus! {

broadcast use crate::json::lemma_view_of_arr, crate::json::lemma_view_of_obj;

/// The JSON value a scalar encodes to.
pub open spec fn spec_encode_value(v: SpecValue) -> SpecJson {
    match v {
        SpecValue::Number(SpecNumber::Int(i)) => SpecJson::Int(i),
        SpecValue::Number(SpecNumber::Float(t)) => SpecJson::Float(t),
        SpecValue::Text(s) => SpecJson::Str(s),
        SpecValue::Bool(b) => SpecJson::Bool(b),
    }
}

/// Encode a scalar value.
pub fn encode_value(v: &Value) -> (r: Json)
    ensures
        view_of_json(r) == spec_encode_value(v.deep_view()),
{
    match v {
        Value::Number(Number::Int(i)) => Json::Int(*i),
        Value::Number(Number::Float(t)) => Json::Float(t.clone()),
        Value::Text(s) => Json::Str(s.clone()),
        Value::Bool(b) => Json::Bool(*b),
    }
}

/// The JSON value a number encodes to.
pub open spec fn spec_encode_number(n: SpecNumber) -> SpecJson {
    match n {
        SpecNumber::Int(i) => SpecJson::Int(i),
        SpecNumber::Float(t) => SpecJson::Float(t),
    }
}

/// Encode a number.
pub fn encode_number(n: &Number) -> (r: Json)
    ensures
        view_of_json(r) == spec_encode_number(n.deep_view()),
{
    match n {
        Number::Int(i) => Json::Int(*i),
        Number::Float(t) => Json::Float(t.clone()),
    }
}

/// The JSON value a nullable identifier encodes to.
pub open spec fn spec_encode_uid_opt(o: Option<Seq<char>>) -> SpecJson {
    match o {
        None => SpecJson::Null,
        Some(u) => SpecJson::Str(u),
    }
}

/// Encode a nullable identifier.
pub fn encode_uid_opt(o: &Option<String>) -> (r: Json)
    ensures
        view_of_json(r) == spec_encode_uid_opt(o.deep_view()),
{
    match o {
        None => Json::Null,
        Some(u) => Json::Str(u.clone()),
    }
}

/// The integer code a shadow state encodes to.
pub open spec fn spec_encode_shadow(s: ShadowInputType) -> SpecJson {
    match s {
        ShadowInputType::Shadow => SpecJson::Int(1),
        ShadowInputType::NoShadow => SpecJson::Int(2),
        ShadowInputType::ShadowObscured => SpecJson::Int(3),
    }
}

/// Encode a shadow state as its integer code.
pub fn encode_shadow(s: &ShadowInputType) -> (r: Json)
    ensures
        view_of_json(r) == spec_encode_shadow(*s),
{
    match s {
        ShadowInputType::Shadow => Json::Int(1),
        ShadowInputType::NoShadow => Json::Int(2),
        ShadowInputType::ShadowObscured => Json::Int(3),
    }
}

/// The integer code a top-level reporter discriminant encodes to.
pub open spec fn spec_encode_list_or_variable(k: ListOrVariable) -> SpecJson {
    match k {
        ListOrVariable::Variable => SpecJson::Int(12),
        ListOrVariable::List => SpecJson::Int(13),
    }
}

/// Encode a top-level reporter discriminant as its integer code.
pub fn encode_list_or_variable(k: &ListOrVariable) -> (r: Json)
    ensures
        view_of_json(r) == spec_encode_list_or_variable(*k),
{
    match k {
        ListOrVariable::Variable => Json::Int(12),
        ListOrVariable::List => Json::Int(13),
    }
}

/// The tag-led array an input value encodes to. The discarded position pair
/// of a variable or list input is never re-emitted.
pub open spec fn spec_encode_input_value(v: SpecBlockInputValue) -> SpecJson {
    match v {
        SpecBlockInputValue::Number { value } => SpecJson::Arr(
            seq![SpecJson::Int(4), spec_encode_value(value)],
        ),
        SpecBlockInputValue::PositiveNumber { value } => SpecJson::Arr(
            seq![SpecJson::Int(5), spec_encode_value(value)],
        ),
        SpecBlockInputValue::PositiveInteger { value } => SpecJson::Arr(
            seq![SpecJson::Int(6), spec_encode_value(value)],
        ),
        SpecBlockInputValue::Integer { value } => SpecJson::Arr(
            seq![SpecJson::Int(7), spec_encode_value(value)],
        ),
        SpecBlockInputValue::Angle { value } => SpecJson::Arr(
            seq![SpecJson::Int(8), spec_encode_value(value)],
        ),
        SpecBlockInputValue::Color { value } => SpecJson::Arr(
            seq![SpecJson::Int(9), spec_encode_value(value)],
        ),
        SpecBlockInputValue::Str { value } => SpecJson::Arr(
            seq![SpecJson::Int(10), spec_encode_value(value)],
        ),
        SpecBlockInputValue::Broadcast { name, id } => SpecJson::Arr(
            seq![SpecJson::Int(11), SpecJson::Str(name), SpecJson::Str(id)],
        ),
        SpecBlockInputValue::Variable { name, id } => SpecJson::Arr(
            seq![SpecJson::Int(12), SpecJson::Str(name), spec_encode_uid_opt(id)],
        ),
        SpecBlockInputValue::List { name, id } => SpecJson::Arr(
            seq![SpecJson::Int(13), SpecJson::Str(name), SpecJson::Str(id)],
        ),
    }
}

/// Build the 2-element array of a tag and one payload value.
fn tag_arr2(tag: i64, a: Json) -> (r: Json)
    ensures
        view_of_json(r) == SpecJson::Arr(seq![SpecJson::Int(tag), view_of_json(a)]),
{
    let ghost ga = view_of_json(a);
    let mut elems: Vec<Json> = Vec::new();
    elems.push(Json::Int(tag));
    elems.push(a);
    proof {
        assert(view_of_arr(elems@) =~= seq![SpecJson::Int(tag), ga]);
    }
    Json::Arr(elems)
}

/// Build the 3-element array of a tag and two payload values.
fn tag_arr3(tag: i64, a: Json, b: Json) -> (r: Json)
    ensures
        view_of_json(r) == SpecJson::Arr(
            seq![SpecJson::Int(tag), view_of_json(a), view_of_json(b)],
        ),
{
    let ghost ga = view_of_json(a);
    let ghost gb = view_of_json(b);
    let mut elems: Vec<Json> = Vec::new();
    elems.push(Json::Int(tag));
    elems.push(a);
    elems.push(b);
    proof {
        assert(view_of_arr(elems@) =~= seq![SpecJson::Int(tag), ga, gb]);
    }
    Json::Arr(elems)
}

/// Encode an input value as its tag-led array.
pub fn encode_input_value(v: &BlockInputValue) -> (r: Json)
    ensures
        view_of_json(r) == spec_encode_input_value(v.deep_view()),
{
    match v {
        BlockInputValue::Number { value } => tag_arr2(4, encode_value(value)),
        BlockInputValue::PositiveNumber { value } => tag_arr2(5, encode_value(value)),
        BlockInputValue::PositiveInteger { value } => tag_arr2(6, encode_value(value)),
        BlockInputValue::Integer { value } => tag_arr2(7, encode_value(value)),
        BlockInputValue::Angle { value } => tag_arr2(8, encode_value(value)),
        BlockInputValue::Color { value } => tag_arr2(9, encode_value(value)),
        BlockInputValue::Str { value } => tag_arr2(10, encode_value(value)),
        BlockInputValue::Broadcast { name, id } => tag_arr3(
            11,
            Json::Str(name.clone()),
            Json::Str(id.clone()),
        ),
        BlockInputValue::Variable { name, id } => tag_arr3(
            12,
            Json::Str(name.clone()),
            encode_uid_opt(id),
        ),
        BlockInputValue::List { name, id } => tag_arr3(
            13,
            Json::Str(name.clone()),
            Json::Str(id.clone()),
        ),
    }
}

/// The JSON value one slot entry encodes to: an empty slot stays an explicit
/// null.
pub open spec fn spec_encode_slot(o: Option<SpecUidOrValue>) -> SpecJson {
    match o {
        None => SpecJson::Null,
        Some(SpecUidOrValue::Uid(u)) => SpecJson::Str(u),
        Some(SpecUidOrValue::Value(v)) => spec_encode_input_value(v),
    }
}

/// Encode one slot entry.
pub fn encode_slot(o: &Option<UidOrValue>) -> (r: Json)
    ensures
        view_of_json(r) == spec_encode_slot(o.deep_view()),
{
    match o {
        None => Json::Null,
        Some(UidOrValue::Uid(u)) => Json::Str(u.clone()),
        Some(UidOrValue::Value(v)) => encode_input_value(v),
    }
}

/// The slot elements of an input group, in order.
pub open spec fn spec_encode_slots(s: Seq<Option<SpecUidOrValue>>) -> Seq<SpecJson> {
    Seq::new(s.len(), |k: int| spec_encode_slot(s[k]))
}

/// The array an input group encodes to: the shadow state first, then each
/// slot entry in its original order.
pub open spec fn spec_encode_input(i: SpecBlockInput) -> SpecJson {
    SpecJson::Arr(seq![spec_encode_shadow(i.shadow)] + spec_encode_slots(i.inputs))
}

/// Encode an input group.
#[verifier::loop_isolation(false)]
pub fn encode_input(i: &BlockInput) -> (r: Json)
    ensures
        view_of_json(r) == spec_encode_input(i.deep_view()),
{
    let mut elems: Vec<Json> = Vec::new();
    elems.push(encode_shadow(&i.shadow));
    let ghost gs = i.deep_view().inputs;
    let mut k: usize = 0;
    proof {
        assert(view_of_arr(elems@) =~= seq![spec_encode_shadow(i.shadow)]
            + spec_encode_slots(gs.subrange(0, 0)));
    }
    while k < i.inputs.len()
        invariant
            0 <= k <= i.inputs.len(),
            view_of_arr(elems@) == seq![spec_encode_shadow(i.shadow)] + spec_encode_slots(
                gs.subrange(0, k as int),
            ),
        decreases i.inputs.len() - k,
    {
        let ghost before = elems@;
        elems.push(encode_slot(&i.inputs[k]));
        proof {
            assert(view_of_arr(elems@) == view_of_arr(before).push(
                spec_encode_slot(gs[k as int]),
            ));
            assert(view_of_arr(elems@) =~= seq![spec_encode_shadow(i.shadow)]
                + spec_encode_slots(gs.subrange(0, k + 1)));
        }
        k += 1;
    }
    proof {
        assert(gs.subrange(0, gs.len() as int) == gs);
    }
    Json::Arr(elems)
}

/// The 1- or 2-element array a field encodes to: the identifier slot is
/// present exactly for the `WithId` variant, as a null when it holds none.
pub open spec fn spec_encode_field(f: SpecBlockField) -> SpecJson {
    match f {
        SpecBlockField::WithId { value, id } => SpecJson::Arr(
            seq![spec_encode_value(value), spec_encode_uid_opt(id)],
        ),
        SpecBlockField::NoId { value } => SpecJson::Arr(seq![spec_encode_value(value)]),
    }
}

/// Encode a field.
pub fn encode_field(f: &BlockField) -> (r: Json)
    ensures
        view_of_json(r) == spec_encode_field(f.deep_view()),
{
    match f {
        BlockField::WithId { value, id } => {
            let ghost gv = value.deep_view();
            let ghost gi = id.deep_view();
            let mut elems: Vec<Json> = Vec::new();
            elems.push(encode_value(value));
            elems.push(encode_uid_opt(id));
            proof {
                assert(view_of_arr(elems@) =~= seq![
                    spec_encode_value(gv),
                    spec_encode_uid_opt(gi),
                ]);
            }
            Json::Arr(elems)
        },
        BlockField::NoId { value } => {
            let ghost gv = value.deep_view();
            let mut elems: Vec<Json> = Vec::new();
            elems.push(encode_value(value));
            proof {
                assert(view_of_arr(elems@) =~= seq![spec_encode_value(gv)]);
            }
            Json::Arr(elems)
        },
    }
}

/// The object pairs an inputs map encodes to, keeping order.
pub open spec fn spec_encode_input_pairs(m: Seq<(Seq<char>, SpecBlockInput)>) -> Seq<
    (Seq<char>, SpecJson),
> {
    Seq::new(m.len(), |k: int| (m[k].0, spec_encode_input(m[k].1)))
}

/// Encode the inputs map.
#[verifier::loop_isolation(false)]
pub fn encode_input_pairs(m: &Vec<(String, BlockInput)>) -> (r: Vec<(String, Json)>)
    ensures
        view_of_obj(r@) == spec_encode_input_pairs(m.deep_view()),
{
    let ghost gm = m.deep_view();
    let mut out: Vec<(String, Json)> = Vec::new();
    proof {
        assert(view_of_obj(out@) =~= spec_encode_input_pairs(gm.subrange(0, 0)));
    }
    let mut k: usize = 0;
    while k < m.len()
        invariant
            0 <= k <= m.len(),
            view_of_obj(out@) == spec_encode_input_pairs(gm.subrange(0, k as int)),
        decreases m.len() - k,
    {
        let ghost before = out@;
        out.push((m[k].0.clone(), encode_input(&m[k].1)));
        proof {
            assert(view_of_obj(out@) == view_of_obj(before).push(
                (gm[k as int].0, spec_encode_input(gm[k as int].1)),
            ));
            assert(view_of_obj(out@) =~= spec_encode_input_pairs(gm.subrange(0, k + 1)));
        }
        k += 1;
    }
    proof {
        assert(gm.subrange(0, gm.len() as int) == gm);
    }
    out
}

/// The object pairs a fields map encodes to, keeping order.
pub open spec fn spec_encode_field_pairs(m: Seq<(Seq<char>, SpecBlockField)>) -> Seq<
    (Seq<char>, SpecJson),
> {
    Seq::new(m.len(), |k: int| (m[k].0, spec_encode_field(m[k].1)))
}

/// Encode the fields map.
#[verifier::loop_isolation(false)]
pub fn encode_field_pairs(m: &Vec<(String, BlockField)>) -> (r: Vec<(String, Json)>)
    ensures
        view_of_obj(r@) == spec_encode_field_pairs(m.deep_view()),
{
    let ghost gm = m.deep_view();
    let mut out: Vec<(String, Json)> = Vec::new();
    proof {
        assert(view_of_obj(out@) =~= spec_encode_field_pairs(gm.subrange(0, 0)));
    }
    let mut k: usize = 0;
    while k < m.len()
        invariant
            0 <= k <= m.len(),
            view_of_obj(out@) == spec_encode_field_pairs(gm.subrange(0, k as int)),
        decreases m.len() - k,
    {
        let ghost before = out@;
        out.push((m[k].0.clone(), encode_field(&m[k].1)));
        proof {
            assert(view_of_obj(out@) == view_of_obj(before).push(
                (gm[k as int].0, spec_encode_field(gm[k as int].1)),
            ));
            assert(view_of_obj(out@) =~= spec_encode_field_pairs(gm.subrange(0, k + 1)));
        }
        k += 1;
    }
    proof {
        assert(gm.subrange(0, gm.len() as int) == gm);
    }
    out
}

/// The object pairs a mutation payload encodes to, in the declared field
/// order; the double-encoded fields are written as JSON text strings.
pub open spec fn spec_encode_mutation_enum(e: SpecBlockMutationEnum) -> Seq<
    (Seq<char>, SpecJson),
> {
    match e {
        SpecBlockMutationEnum::ProceduresPrototype {
            proccode,
            argumentids,
            argumentnames,
            argumentdefaults,
            warp,
        } => seq![
            ("proccode"@, SpecJson::Str(proccode)),
            ("argumentids"@, SpecJson::Str(json_write_str_array(argumentids))),
            ("argumentnames"@, SpecJson::Str(json_write_str_array(argumentnames))),
            ("argumentdefaults"@, SpecJson::Str(json_write_scalar_array(argumentdefaults))),
            ("warp"@, SpecJson::Str(spec_opt_bool_text(warp))),
        ],
        SpecBlockMutationEnum::ProceduresCall { proccode, argumentids, warp } => seq![
            ("proccode"@, SpecJson::Str(proccode)),
            ("argumentids"@, SpecJson::Str(json_write_str_array(argumentids))),
            ("warp"@, SpecJson::Str(spec_opt_bool_text(warp))),
        ],
        SpecBlockMutationEnum::ControlStop { hasnext } => seq![
            ("hasnext"@, SpecJson::Str(spec_bool_text(hasnext))),
        ],
    }
}

/// Encode the mutation payload fields.
pub fn encode_mutation_enum(e: &BlockMutationEnum) -> (r: Vec<(String, Json)>)
    ensures
        view_of_obj(r@) == spec_encode_mutation_enum(e.deep_view()),
{
    let mut out: Vec<(String, Json)> = Vec::new();
    match e {
        BlockMutationEnum::ProceduresPrototype {
            proccode,
            argumentids,
            argumentnames,
            argumentdefaults,
            warp,
        } => {
            out.push(("proccode".to_owned(), Json::Str(proccode.clone())));
            out.push(("argumentids".to_owned(), Json::Str(write_str_array(argumentids))));
            out.push(("argumentnames".to_owned(), Json::Str(write_str_array(argumentnames))));
            out.push(
                ("argumentdefaults".to_owned(), Json::Str(write_scalar_array(argumentdefaults))),
            );
            out.push(("warp".to_owned(), Json::Str(write_opt_bool_text(warp))));
            proof {
                assert(view_of_obj(out@) =~= spec_encode_mutation_enum(e.deep_view()));
            }
        },
        BlockMutationEnum::ProceduresCall { proccode, argumentids, warp } => {
            out.push(("proccode".to_owned(), Json::Str(proccode.clone())));
            out.push(("argumentids".to_owned(), Json::Str(write_str_array(argumentids))));
            out.push(("warp".to_owned(), Json::Str(write_opt_bool_text(warp))));
            proof {
                assert(view_of_obj(out@) =~= spec_encode_mutation_enum(e.deep_view()));
            }
        },
        BlockMutationEnum::ControlStop { hasnext } => {
            out.push(("hasnext".to_owned(), Json::Str(write_bool_text(*hasnext))));
            proof {
                assert(view_of_obj(out@) =~= spec_encode_mutation_enum(e.deep_view()));
            }
        },
    }
    out
}

/// The object a mutation encodes to: its tag name, its children verbatim,
/// then the payload fields.
pub open spec fn spec_encode_mutation(m: SpecBlockMutation) -> SpecJson {
    SpecJson::Obj(
        seq![("tagName"@, SpecJson::Str(m.tag_name)), ("children"@, SpecJson::Arr(m.children))]
            + spec_encode_mutation_enum(m.mutation_enum),
    )
}

/// Encode a mutation.
pub fn encode_mutation(m: BlockMutation) -> (r: Json)
    ensures
        view_of_json(r) == spec_encode_mutation(m.deep_view()),
{
    let ghost gm = m.deep_view();
    let BlockMutation { tag_name, children, mutation_enum } = m;
    let mut pairs: Vec<(String, Json)> = Vec::new();
    pairs.push(("tagName".to_owned(), Json::Str(tag_name)));
    pairs.push(("children".to_owned(), Json::Arr(children)));
    let mut enum_pairs = encode_mutation_enum(&mutation_enum);
    let ghost gtwo = pairs@;
    let ghost genum = enum_pairs@;
    pairs.append(&mut enum_pairs);
    proof {
        assert(view_of_obj(gtwo) =~= seq![
            ("tagName"@, SpecJson::Str(gm.tag_name)),
            ("children"@, SpecJson::Arr(gm.children)),
        ]);
        assert(view_of_obj(pairs@) =~= view_of_obj(gtwo) + view_of_obj(genum));
    }
    Json::Obj(pairs)
}

/// The pair a present optional string field contributes, or nothing.
pub open spec fn spec_comment_seg(o: Option<Seq<char>>) -> Seq<(Seq<char>, SpecJson)> {
    match o {
        Some(c) => seq![("comment"@, SpecJson::Str(c))],
        None => Seq::empty(),
    }
}

/// The pair a present mutation contributes, or nothing.
pub open spec fn spec_mutation_seg(o: Option<SpecBlockMutation>) -> Seq<(Seq<char>, SpecJson)> {
    match o {
        Some(m) => seq![("mutation"@, spec_encode_mutation(m))],
        None => Seq::empty(),
    }
}

/// The pair a present optional number field contributes, or nothing.
pub open spec fn spec_num_seg(key: Seq<char>, o: Option<SpecNumber>) -> Seq<
    (Seq<char>, SpecJson),
> {
    match o {
        Some(n) => seq![(key, spec_encode_number(n))],
        None => Seq::empty(),
    }
}

/// The object a block record encodes to. The absent optional fields
/// `comment`, `mutation`, `x` and `y` are omitted entirely, never written as
/// nulls; `next` and `parent` are always written, as nulls when empty.
pub open spec fn spec_encode_block_normal(b: SpecBlockNormal) -> SpecJson {
    SpecJson::Obj(
        seq![("opcode"@, SpecJson::Str(b.opcode))] + spec_comment_seg(b.comment) + seq![
            ("next"@, spec_encode_uid_opt(b.next)),
            ("parent"@, spec_encode_uid_opt(b.parent)),
            ("inputs"@, SpecJson::Obj(spec_encode_input_pairs(b.inputs))),
            ("fields"@, SpecJson::Obj(spec_encode_field_pairs(b.fields))),
            ("shadow"@, SpecJson::Bool(b.shadow)),
            ("topLevel"@, SpecJson::Bool(b.top_level)),
        ] + spec_mutation_seg(b.mutation) + spec_num_seg("x"@, b.x) + spec_num_seg("y"@, b.y),
    )
}

/// Encode a block record.
pub fn encode_block_normal(b: BlockNormal) -> (r: Json)
    ensures
        view_of_json(r) == spec_encode_block_normal(b.deep_view()),
{
    let ghost gb = b.deep_view();
    let BlockNormal {
        opcode,
        comment,
        next,
        parent,
        inputs,
        fields,
        shadow,
        top_level,
        mutation,
        x,
        y,
    } = b;
    let mut pairs: Vec<(String, Json)> = Vec::new();
    pairs.push(("opcode".to_owned(), Json::Str(opcode)));
    match comment {
        Some(c) => pairs.push(("comment".to_owned(), Json::Str(c))),
        None => {},
    }
    proof {
        assert(view_of_obj(pairs@) =~= seq![("opcode"@, SpecJson::Str(gb.opcode))]
            + spec_comment_seg(gb.comment));
    }
    let ghost ghead = view_of_obj(pairs@);
    pairs.push(("next".to_owned(), encode_uid_opt(&next)));
    pairs.push(("parent".to_owned(), encode_uid_opt(&parent)));
    pairs.push(("inputs".to_owned(), Json::Obj(encode_input_pairs(&inputs))));
    pairs.push(("fields".to_owned(), Json::Obj(encode_field_pairs(&fields))));
    pairs.push(("shadow".to_owned(), Json::Bool(shadow)));
    pairs.push(("topLevel".to_owned(), Json::Bool(top_level)));
    proof {
        assert(view_of_obj(pairs@) =~= ghead + seq![
            ("next"@, spec_encode_uid_opt(gb.next)),
            ("parent"@, spec_encode_uid_opt(gb.parent)),
            ("inputs"@, SpecJson::Obj(spec_encode_input_pairs(gb.inputs))),
            ("fields"@, SpecJson::Obj(spec_encode_field_pairs(gb.fields))),
            ("shadow"@, SpecJson::Bool(gb.shadow)),
            ("topLevel"@, SpecJson::Bool(gb.top_level)),
        ]);
    }
    let ghost gmid = view_of_obj(pairs@);
    match mutation {
        Some(m) => pairs.push(("mutation".to_owned(), encode_mutation(m))),
        None => {},
    }
    match x {
        Some(n) => pairs.push(("x".to_owned(), encode_number(&n))),
        None => {},
    }
    match y {
        Some(n) => pairs.push(("y".to_owned(), encode_number(&n))),
        None => {},
    }
    proof {
        assert(view_of_obj(pairs@) =~= gmid + spec_mutation_seg(gb.mutation) + spec_num_seg(
            "x"@,
            gb.x,
        ) + spec_num_seg("y"@, gb.y));
    }
    Json::Obj(pairs)
}

/// The 5-element array a bare top-level reporter encodes to.
pub open spec fn spec_encode_var_list(v: SpecBlockVarListReporterTop) -> SpecJson {
    SpecJson::Arr(
        seq![
            spec_encode_list_or_variable(v.kind),
            SpecJson::Str(v.name),
            SpecJson::Str(v.id),
            spec_encode_number(v.x),
            spec_encode_number(v.y),
        ],
    )
}

/// Encode a bare top-level reporter.
pub fn encode_var_list(v: &BlockVarListReporterTop) -> (r: Json)
    ensures
        view_of_json(r) == spec_encode_var_list(v.deep_view()),
{
    let mut elems: Vec<Json> = Vec::new();
    elems.push(encode_list_or_variable(&v.kind));
    elems.push(Json::Str(v.name.clone()));
    elems.push(Json::Str(v.id.clone()));
    elems.push(encode_number(&v.x));
    elems.push(encode_number(&v.y));
    proof {
        assert(view_of_arr(elems@) =~= seq![
            spec_encode_list_or_variable(v.deep_view().kind),
            SpecJson::Str(v.deep_view().name),
            SpecJson::Str(v.deep_view().id),
            spec_encode_number(v.deep_view().x),
            spec_encode_number(v.deep_view().y),
        ]);
    }
    Json::Arr(elems)
}

/// The JSON value a block encodes to: an object for the canonical record, a
/// 5-element array for a bare top-level reporter.
pub open spec fn spec_encode_block(b: SpecBlock) -> SpecJson {
    match b {
        SpecBlock::Normal(n) => spec_encode_block_normal(n),
        SpecBlock::VarList(v) => spec_encode_var_list(v),
    }
}

/// Encode one block into its generic JSON value.
pub fn encode_block(b: Block) -> (r: Json)
    ensures
        view_of_json(r) == spec_encode_block(b.deep_view()),
{
    match b {
        Block::Normal(n) => encode_block_normal(n),
        Block::VarList(v) => encode_var_list(&v),
    }
}

} // verus!