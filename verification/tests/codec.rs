use scratch_blocks::dec::{
    decode_block, decode_field, decode_input, decode_input_value, decode_mutation,
    decode_list_or_variable, decode_shadow,
};
use scratch_blocks::enc::{
    encode_block, encode_field, encode_input_value, encode_mutation,
};
use scratch_blocks::error::DecodeError;
use scratch_blocks::json::Json;
use scratch_blocks::model::{
    Block, BlockField, BlockInput, BlockInputValue, BlockMutation, BlockMutationEnum,
    BlockNormal, BlockVarListReporterTop, ListOrVariable, Number, ShadowInputType, UidOrValue,
    Value,
};

fn jstr(s: &str) -> Json {
    Json::Str(s.to_string())
}

fn obj(pairs: Vec<(&str, Json)>) -> Json {
    Json::Obj(pairs.into_iter().map(|(k, v)| (k.to_string(), v)).collect())
}

fn minimal_block_obj(extra: Vec<(&str, Json)>) -> Json {
    let mut pairs = vec![
        ("opcode", jstr("motion_movesteps")),
        ("next", Json::Null),
        ("parent", Json::Null),
        ("inputs", Json::Obj(vec![])),
        ("fields", Json::Obj(vec![])),
        ("shadow", Json::Bool(false)),
        ("topLevel", Json::Bool(true)),
    ];
    pairs.extend(extra);
    obj(pairs)
}

fn minimal_block() -> BlockNormal {
    BlockNormal {
        opcode: "motion_movesteps".to_string(),
        comment: None,
        next: None,
        parent: None,
        inputs: vec![],
        fields: vec![],
        shadow: false,
        top_level: true,
        mutation: None,
        x: None,
        y: None,
    }
}

#[test]
fn block_field_variant_selection() {
    // ["x"] decodes to NoId
    let f = decode_field(&vec![jstr("x")]).unwrap();
    assert_eq!(f, BlockField::NoId { value: Value::Text("x".to_string()) });
    // ["x", null] decodes to WithId with no identifier
    let f = decode_field(&vec![jstr("x"), Json::Null]).unwrap();
    assert_eq!(f, BlockField::WithId { value: Value::Text("x".to_string()), id: None });
    // ["x", "id1"] decodes to WithId with the identifier
    let f = decode_field(&vec![jstr("x"), jstr("id1")]).unwrap();
    assert_eq!(
        f,
        BlockField::WithId {
            value: Value::Text("x".to_string()),
            id: Some("id1".to_string())
        }
    );
}

#[test]
fn block_field_encode_shapes() {
    let no_id = BlockField::NoId { value: Value::Text("x".to_string()) };
    assert_eq!(encode_field(&no_id), Json::Arr(vec![jstr("x")]));
    let null_id = BlockField::WithId { value: Value::Text("x".to_string()), id: None };
    assert_eq!(encode_field(&null_id), Json::Arr(vec![jstr("x"), Json::Null]));
    let with_id = BlockField::WithId {
        value: Value::Text("x".to_string()),
        id: Some("id1".to_string()),
    };
    assert_eq!(encode_field(&with_id), Json::Arr(vec![jstr("x"), jstr("id1")]));
}

#[test]
fn input_value_tag_exhaustive() {
    // any leading integer outside 4..=13 is an unexpected tag
    for t in [-1i64, 0, 3, 14, 99] {
        let r = decode_input_value(&vec![Json::Int(t), jstr("v")]);
        assert_eq!(r, Err(DecodeError::UnexpectedTag(t)));
    }
    let r = decode_shadow(&Json::Int(7));
    assert_eq!(r, Err(DecodeError::UnexpectedTag(7)));
    let r = decode_list_or_variable(&Json::Int(4));
    assert_eq!(r, Err(DecodeError::UnexpectedTag(4)));
}

#[test]
fn input_value_scalar_tags() {
    let r = decode_input_value(&vec![Json::Int(4), Json::Int(30)]).unwrap();
    assert_eq!(r, BlockInputValue::Number { value: Value::Number(Number::Int(30)) });
    assert_eq!(r.get_id(), 4);
    assert_eq!(r.hint_size(), 1);
    let r = decode_input_value(&vec![Json::Int(10), jstr("hi")]).unwrap();
    assert_eq!(r, BlockInputValue::Str { value: Value::Text("hi".to_string()) });
    assert_eq!(r.get_id(), 10);
}

#[test]
fn input_value_broadcast_needs_text_name() {
    let r = decode_input_value(&vec![Json::Int(11), Json::Int(5), jstr("b1")]);
    assert_eq!(r, Err(DecodeError::TypeMismatch));
    let r = decode_input_value(&vec![Json::Int(11), jstr("hello"), jstr("b1")]).unwrap();
    assert_eq!(
        r,
        BlockInputValue::Broadcast { name: "hello".to_string(), id: "b1".to_string() }
    );
    assert_eq!(r.get_id(), 11);
    assert_eq!(r.hint_size(), 2);
}

#[test]
fn input_value_variable_discards_position_pair() {
    let r = decode_input_value(&vec![
        Json::Int(12),
        jstr("v"),
        jstr("id"),
        Json::Float("5.0".to_string()),
        Json::Float("10.0".to_string()),
    ])
    .unwrap();
    assert_eq!(
        r,
        BlockInputValue::Variable { name: "v".to_string(), id: Some("id".to_string()) }
    );
    // the dropped pair is never re-emitted
    assert_eq!(
        encode_input_value(&r),
        Json::Arr(vec![Json::Int(12), jstr("v"), jstr("id")])
    );
    // a 4-element array is accepted too, a 6-element one is not
    assert!(decode_input_value(&vec![
        Json::Int(12),
        jstr("v"),
        jstr("id"),
        Json::Int(5)
    ])
    .is_ok());
    assert_eq!(
        decode_input_value(&vec![
            Json::Int(12),
            jstr("v"),
            jstr("id"),
            Json::Int(5),
            Json::Int(6),
            Json::Int(7)
        ]),
        Err(DecodeError::UnexpectedShape)
    );
}

#[test]
fn input_value_variable_nullable_id_list_not() {
    let r = decode_input_value(&vec![Json::Int(12), jstr("v"), Json::Null]).unwrap();
    assert_eq!(r, BlockInputValue::Variable { name: "v".to_string(), id: None });
    let r = decode_input_value(&vec![Json::Int(13), jstr("l"), Json::Null]);
    assert_eq!(r, Err(DecodeError::TypeMismatch));
    let r = decode_input_value(&vec![Json::Int(13), jstr("l"), jstr("id")]).unwrap();
    assert_eq!(r, BlockInputValue::List { name: "l".to_string(), id: "id".to_string() });
}

#[test]
fn block_input_decode_order_and_nulls() {
    let r = decode_input(&Json::Arr(vec![
        Json::Int(1),
        jstr("other-block"),
        Json::Null,
        Json::Arr(vec![Json::Int(4), Json::Int(7)]),
    ]))
    .unwrap();
    assert_eq!(r.shadow, ShadowInputType::Shadow);
    assert_eq!(r.inputs.len(), 3);
    assert_eq!(r.inputs[0], Some(UidOrValue::Uid("other-block".to_string())));
    assert_eq!(r.inputs[1], None);
    assert_eq!(
        r.inputs[2],
        Some(UidOrValue::Value(BlockInputValue::Number {
            value: Value::Number(Number::Int(7))
        }))
    );
    assert_eq!(r.size_hint(), 4);
    // an empty array has no shadow element
    assert_eq!(
        decode_input(&Json::Arr(vec![])),
        Err(DecodeError::UnexpectedShape)
    );
    // a lone shadow element means zero slots
    let r = decode_input(&Json::Arr(vec![Json::Int(2)])).unwrap();
    assert_eq!(r, BlockInput { shadow: ShadowInputType::NoShadow, inputs: vec![] });
}

#[test]
fn dispatch_independence() {
    // a 5-element array yields a top-level reporter, by shape alone
    let j = Json::Arr(vec![
        Json::Int(12),
        jstr("myVar"),
        jstr("id-1"),
        Json::Float("5.0".to_string()),
        Json::Float("10.0".to_string()),
    ]);
    let b = decode_block(j).unwrap();
    assert_eq!(
        b,
        Block::VarList(BlockVarListReporterTop {
            kind: ListOrVariable::Variable,
            name: "myVar".to_string(),
            id: "id-1".to_string(),
            x: Number::Float("5.0".to_string()),
            y: Number::Float("10.0".to_string()),
        })
    );
}

#[test]
fn var_list_reporter_wrong_length() {
    let j = Json::Arr(vec![Json::Int(12), jstr("v"), jstr("id"), Json::Int(5)]);
    assert_eq!(decode_block(j), Err(DecodeError::UnexpectedShape));
}

#[test]
fn block_normal_required_and_optional_fields() {
    let b = decode_block(minimal_block_obj(vec![])).unwrap();
    assert_eq!(b, Block::Normal(minimal_block()));
    // a missing required field is reported
    let j = obj(vec![
        ("opcode", jstr("op")),
        ("parent", Json::Null),
        ("inputs", Json::Obj(vec![])),
        ("fields", Json::Obj(vec![])),
        ("shadow", Json::Bool(false)),
        ("topLevel", Json::Bool(true)),
    ]);
    assert_eq!(decode_block(j), Err(DecodeError::MissingField));
    // x may be absent or null, and decodes when a number
    let b = decode_block(minimal_block_obj(vec![("x", Json::Null), ("y", Json::Int(3))]))
        .unwrap();
    let mut expected = minimal_block();
    expected.y = Some(Number::Int(3));
    assert_eq!(b, Block::Normal(expected));
}

#[test]
fn optional_field_omission() {
    let j = encode_block(Block::Normal(minimal_block()));
    match j {
        Json::Obj(pairs) => {
            let keys: Vec<&str> = pairs.iter().map(|p| p.0.as_str()).collect();
            assert_eq!(
                keys,
                vec!["opcode", "next", "parent", "inputs", "fields", "shadow", "topLevel"]
            );
        }
        other => panic!("expected an object, got {:?}", other),
    }
}

#[test]
fn unknown_keys_are_ignored_and_last_duplicate_wins() {
    let b = decode_block(minimal_block_obj(vec![
        ("somethingElse", Json::Bool(true)),
        ("opcode", jstr("event_whenflagclicked")),
    ]))
    .unwrap();
    match b {
        Block::Normal(n) => assert_eq!(n.opcode, "event_whenflagclicked"),
        other => panic!("expected a normal block, got {:?}", other),
    }
}

#[test]
fn mutation_double_encoding() {
    let j = obj(vec![
        ("tagName", jstr("mutation")),
        ("children", Json::Arr(vec![])),
        ("proccode", jstr("do %s %b")),
        ("argumentids", jstr("[\"arg1\",\"arg2\"]")),
        ("warp", jstr("true")),
    ]);
    let m = decode_mutation(j).unwrap();
    assert_eq!(
        m.mutation_enum,
        BlockMutationEnum::ProceduresCall {
            proccode: "do %s %b".to_string(),
            argumentids: vec!["arg1".to_string(), "arg2".to_string()],
            warp: Some(true),
        }
    );
    // re-encoding writes a string whose parsed content is the same sequence
    let encoded = encode_mutation(m);
    match encoded {
        Json::Obj(pairs) => {
            let ids = pairs.iter().find(|p| p.0 == "argumentids").unwrap();
            let text = match &ids.1 {
                Json::Str(s) => s.clone(),
                other => panic!("expected a string, got {:?}", other),
            };
            let parsed: Vec<String> = serde_json::from_str(&text).unwrap();
            assert_eq!(parsed, vec!["arg1".to_string(), "arg2".to_string()]);
        }
        other => panic!("expected an object, got {:?}", other),
    }
}

#[test]
fn mutation_priority_order() {
    // all prototype fields present selects the prototype even though the
    // call's fields are a subset
    let j = obj(vec![
        ("tagName", jstr("mutation")),
        ("children", Json::Arr(vec![])),
        ("proccode", jstr("p")),
        ("argumentids", jstr("[]")),
        ("argumentnames", jstr("[]")),
        ("argumentdefaults", jstr("[\"\",false,1.5]")),
        ("warp", jstr("null")),
    ]);
    let m = decode_mutation(j).unwrap();
    assert_eq!(
        m.mutation_enum,
        BlockMutationEnum::ProceduresPrototype {
            proccode: "p".to_string(),
            argumentids: vec![],
            argumentnames: vec![],
            argumentdefaults: vec![
                Value::Text(String::new()),
                Value::Bool(false),
                Value::Number(Number::Float("1.5".to_string())),
            ],
            warp: None,
        }
    );
}

#[test]
fn mutation_control_stop_and_failure() {
    let j = obj(vec![
        ("tagName", jstr("mutation")),
        ("children", Json::Arr(vec![])),
        ("hasnext", jstr("false")),
    ]);
    let m = decode_mutation(j).unwrap();
    assert_eq!(m.mutation_enum, BlockMutationEnum::ControlStop { hasnext: false });
    // no candidate fits: the mutation is rejected as a whole
    let j = obj(vec![
        ("tagName", jstr("mutation")),
        ("children", Json::Arr(vec![])),
        ("proccode", jstr("p")),
    ]);
    assert_eq!(decode_mutation(j), Err(DecodeError::UnexpectedShape));
    // a bad inner text fails the candidate that needs it
    let j = obj(vec![
        ("tagName", jstr("mutation")),
        ("children", Json::Arr(vec![])),
        ("hasnext", jstr("not json")),
    ]);
    assert_eq!(decode_mutation(j), Err(DecodeError::UnexpectedShape));
}

fn full_block() -> Block {
    Block::Normal(BlockNormal {
        opcode: "procedures_prototype".to_string(),
        comment: Some("c1".to_string()),
        next: Some("n1".to_string()),
        parent: None,
        inputs: vec![(
            "STEPS".to_string(),
            BlockInput {
                shadow: ShadowInputType::ShadowObscured,
                inputs: vec![
                    Some(UidOrValue::Uid("b2".to_string())),
                    None,
                    Some(UidOrValue::Value(BlockInputValue::Angle {
                        value: Value::Number(Number::Float("90.5".to_string())),
                    })),
                ],
            },
        )],
        fields: vec![(
            "VARIABLE".to_string(),
            BlockField::WithId {
                value: Value::Text("score".to_string()),
                id: Some("var1".to_string()),
            },
        )],
        shadow: false,
        top_level: true,
        mutation: Some(BlockMutation {
            tag_name: "mutation".to_string(),
            children: vec![],
            mutation_enum: BlockMutationEnum::ProceduresPrototype {
                proccode: "jump %s".to_string(),
                argumentids: vec!["a1".to_string()],
                argumentnames: vec!["height".to_string()],
                argumentdefaults: vec![Value::Text(String::new()), Value::Bool(false)],
                warp: Some(false),
            },
        }),
        x: Some(Number::Int(10)),
        y: Some(Number::Float("-3.5".to_string())),
    })
}

#[test]
fn round_trip_full_block() {
    let b = full_block();
    let j = encode_block(full_block());
    assert_eq!(decode_block(j), Ok(b));
}

#[test]
fn round_trip_var_list() {
    let b = Block::VarList(BlockVarListReporterTop {
        kind: ListOrVariable::List,
        name: "todo".to_string(),
        id: "l1".to_string(),
        x: Number::Int(0),
        y: Number::Int(7),
    });
    let j = encode_block(Block::VarList(BlockVarListReporterTop {
        kind: ListOrVariable::List,
        name: "todo".to_string(),
        id: "l1".to_string(),
        x: Number::Int(0),
        y: Number::Int(7),
    }));
    assert_eq!(decode_block(j), Ok(b));
}

#[test]
fn round_trip_control_stop_mutation() {
    let make = || BlockMutation {
        tag_name: "mutation".to_string(),
        children: vec![],
        mutation_enum: BlockMutationEnum::ControlStop { hasnext: true },
    };
    let j = encode_mutation(make());
    assert_eq!(decode_mutation(j), Ok(make()));
}

#[test]
fn shadow_codes_round_trip() {
    for (code, v) in [
        (1, ShadowInputType::Shadow),
        (2, ShadowInputType::NoShadow),
        (3, ShadowInputType::ShadowObscured),
    ] {
        assert_eq!(decode_shadow(&Json::Int(code)), Ok(v));
    }
    assert_eq!(decode_shadow(&Json::Bool(true)), Err(DecodeError::TypeMismatch));
    assert_eq!(ShadowInputType::default(), ShadowInputType::NoShadow);
}

#[test]
fn field_getters() {
    let f = BlockField::WithId {
        value: Value::Number(Number::Int(3)),
        id: Some("u1".to_string()),
    };
    assert_eq!(f.value(), &Value::Number(Number::Int(3)));
    assert_eq!(f.id(), Some(&"u1".to_string()));
    let f = BlockField::NoId { value: Value::Bool(true) };
    assert_eq!(f.value(), &Value::Bool(true));
    assert_eq!(f.id(), None);
}

#[test]
fn default_block_is_blank_top_level_at_origin() {
    let b = BlockNormal::default();
    assert_eq!(b.opcode, "");
    assert_eq!(b.top_level, true);
    assert_eq!(b.parent, None);
    assert_eq!(b.x, Some(Number::Int(0)));
    assert_eq!(b.y, Some(Number::Int(0)));
    assert_eq!(b.mutation, None);
    let i = BlockInput::default();
    assert_eq!(i.shadow, ShadowInputType::NoShadow);
    assert!(i.inputs.is_empty());
}

#[test]
fn field_value_type_errors() {
    assert_eq!(decode_field(&vec![]), Err(DecodeError::UnexpectedShape));
    assert_eq!(
        decode_field(&vec![Json::Null]),
        Err(DecodeError::TypeMismatch)
    );
    assert_eq!(
        decode_field(&vec![jstr("a"), jstr("b"), jstr("c")]),
        Err(DecodeError::UnexpectedShape)
    );
}
