//! The typed in-memory representation of one Scratch scripting block and of
//! everything a block aggregates: inputs, fields, mutations and the small
//! integer-coded enumerations of the format.
//!
//! Each executable type has a specification-level mirror (`Spec*`) holding
//! mathematical sequences in place of vectors and strings; `deep_view` maps
//! one onto the other and every codec contract speaks about the mirrors.

use vstd::prelude::*;

use crate::json::{Json, SpecJson, view_of_arr};

verus! {

/// An opaque block / variable / broadcast identifier.
pub type Uid = String;

/// A display name of a variable, list or broadcast.
pub type Name = String;

/// The string identifying a block's behaviour category.
pub type OpCode = String;

/// A number of the format: an integer, or any other number carried as its
/// JSON text so that the model never computes with floating point.
#[derive(Debug, Clone, PartialEq)]
pub enum Number {
    Int(i64),
    Float(String),
}

/// Specification mirror of [`Number`].
#[verifier::ext_equal]
pub enum SpecNumber {
    Int(i64),
    Float(Seq<char>),
}

impl DeepView for Number {
    type V = SpecNumber;

    open spec fn deep_view(&self) -> SpecNumber {
        match self {
            Number::Int(i) => SpecNumber::Int(*i),
            Number::Float(t) => SpecNumber::Float(t@),
        }
    }
}

/// A literal: exactly one of number, text or boolean.
#[derive(Debug, Clone, PartialEq)]
pub enum Value {
    Number(Number),
    Text(String),
    Bool(bool),
}

/// Specification mirror of [`Value`].
#[verifier::ext_equal]
pub enum SpecValue {
    Number(SpecNumber),
    Text(Seq<char>),
    Bool(bool),
}

impl DeepView for Value {
    type V = SpecValue;

    open spec fn deep_view(&self) -> SpecValue {
        match self {
            Value::Number(n) => SpecValue::Number(n.deep_view()),
            Value::Text(t) => SpecValue::Text(t@),
            Value::Bool(b) => SpecValue::Bool(*b),
        }
    }
}

/// Shadow state of one block input slot group, integer-coded 1 to 3.
#[derive(Debug, Clone, Copy, PartialEq, Eq, Structural)]
pub enum ShadowInputType {
    /// There is a shadow.
    Shadow,
    /// There is no shadow.
    NoShadow,
    /// There is a shadow but it is obscured by an inserted reporter.
    ShadowObscured,
}

impl DeepView for ShadowInputType {
    type V = ShadowInputType;

    open spec fn deep_view(&self) -> ShadowInputType {
        *self
    }
}

impl Default for ShadowInputType {
    /// A fresh input slot group carries no shadow.
    fn default() -> (r: Self)
        ensures
            r == ShadowInputType::NoShadow,
    {
        ShadowInputType::NoShadow
    }
}

/// Discriminant of a bare top-level variable or list reporter,
/// integer-coded 12 or 13.
#[derive(Debug, Clone, Copy, PartialEq, Eq, Structural)]
pub enum ListOrVariable {
    Variable,
    List,
}

impl DeepView for ListOrVariable {
    type V = ListOrVariable;

    open spec fn deep_view(&self) -> ListOrVariable {
        *self
    }
}

/// An inline literal or reference occupying one input slot, tagged by the
/// leading integer 4 to 13 of its array encoding.
#[derive(Debug, Clone, PartialEq)]
#[allow(inconsistent_fields)]
pub enum BlockInputValue {
    /// Number input (tag 4).
    Number { value: Value },
    /// Positive number input (tag 5); the scalar is not itself checked.
    PositiveNumber { value: Value },
    /// Positive integer input (tag 6); the scalar is not itself checked.
    PositiveInteger { value: Value },
    /// Integer input (tag 7).
    Integer { value: Value },
    /// Angle input (tag 8).
    Angle { value: Value },
    /// Colour input (tag 9).
    Color { value: Value },
    /// String input (tag 10).
    Str { value: Value },
    /// Broadcast input (tag 11).
    Broadcast { name: Name, id: Uid },
    /// Variable input (tag 12); the identifier slot must be present but may
    /// hold a null.
    Variable { name: Name, id: Option<Uid> },
    /// List input (tag 13).
    List { name: Name, id: Uid },
}

/// Specification mirror of [`BlockInputValue`].
#[verifier::ext_equal]
pub enum SpecBlockInputValue {
    Number { value: SpecValue },
    PositiveNumber { value: SpecValue },
    PositiveInteger { value: SpecValue },
    Integer { value: SpecValue },
    Angle { value: SpecValue },
    Color { value: SpecValue },
    Str { value: SpecValue },
    Broadcast { name: Seq<char>, id: Seq<char> },
    Variable { name: Seq<char>, id: Option<Seq<char>> },
    List { name: Seq<char>, id: Seq<char> },
}

impl DeepView for BlockInputValue {
    type V = SpecBlockInputValue;

    open spec fn deep_view(&self) -> SpecBlockInputValue {
        match self {
            BlockInputValue::Number { value } => SpecBlockInputValue::Number {
                value: value.deep_view(),
            },
            BlockInputValue::PositiveNumber { value } => SpecBlockInputValue::PositiveNumber {
                value: value.deep_view(),
            },
            BlockInputValue::PositiveInteger { value } => SpecBlockInputValue::PositiveInteger {
                value: value.deep_view(),
            },
            BlockInputValue::Integer { value } => SpecBlockInputValue::Integer {
                value: value.deep_view(),
            },
            BlockInputValue::Angle { value } => SpecBlockInputValue::Angle {
                value: value.deep_view(),
            },
            BlockInputValue::Color { value } => SpecBlockInputValue::Color {
                value: value.deep_view(),
            },
            BlockInputValue::Str { value } => SpecBlockInputValue::Str {
                value: value.deep_view(),
            },
            BlockInputValue::Broadcast { name, id } => SpecBlockInputValue::Broadcast {
                name: name@,
                id: id@,
            },
            BlockInputValue::Variable { name, id } => SpecBlockInputValue::Variable {
                name: name@,
                id: id.deep_view(),
            },
            BlockInputValue::List { name, id } => SpecBlockInputValue::List {
                name: name@,
                id: id@,
            },
        }
    }
}

impl SpecBlockInputValue {
    /// The leading integer tag of this variant's array encoding.
    pub open spec fn spec_tag(self) -> u8 {
        match self {
            SpecBlockInputValue::Number { .. } => 4u8,
            SpecBlockInputValue::PositiveNumber { .. } => 5u8,
            SpecBlockInputValue::PositiveInteger { .. } => 6u8,
            SpecBlockInputValue::Integer { .. } => 7u8,
            SpecBlockInputValue::Angle { .. } => 8u8,
            SpecBlockInputValue::Color { .. } => 9u8,
            SpecBlockInputValue::Str { .. } => 10u8,
            SpecBlockInputValue::Broadcast { .. } => 11u8,
            SpecBlockInputValue::Variable { .. } => 12u8,
            SpecBlockInputValue::List { .. } => 13u8,
        }
    }

    /// How many array elements follow the tag when this variant is encoded.
    pub open spec fn spec_payload_len(self) -> usize {
        match self {
            SpecBlockInputValue::Broadcast { .. } => 2usize,
            SpecBlockInputValue::Variable { .. } => 2usize,
            SpecBlockInputValue::List { .. } => 2usize,
            _ => 1usize,
        }
    }
}

impl BlockInputValue {
    /// The leading integer tag under which this variant is encoded.
    pub fn get_id(&self) -> (r: u8)
        ensures
            r == self.deep_view().spec_tag(),
    {
        match self {
            BlockInputValue::Number { .. } => 4,
            BlockInputValue::PositiveNumber { .. } => 5,
            BlockInputValue::PositiveInteger { .. } => 6,
            BlockInputValue::Integer { .. } => 7,
            BlockInputValue::Angle { .. } => 8,
            BlockInputValue::Color { .. } => 9,
            BlockInputValue::Str { .. } => 10,
            BlockInputValue::Broadcast { .. } => 11,
            BlockInputValue::Variable { .. } => 12,
            BlockInputValue::List { .. } => 13,
        }
    }

    /// How many array elements follow the tag when this value is encoded.
    pub fn hint_size(&self) -> (r: usize)
        ensures
            r == self.deep_view().spec_payload_len(),
    {
        match self {
            BlockInputValue::Broadcast { .. } => 2,
            BlockInputValue::Variable { .. } => 2,
            BlockInputValue::List { .. } => 2,
            _ => 1,
        }
    }
}

/// One input slot's occupant: a bare identifier reference or an inline value.
#[derive(Debug, Clone, PartialEq)]
pub enum UidOrValue {
    /// A bare identifier referring to another block.
    Uid(Uid),
    /// An inline literal or reporter value.
    Value(BlockInputValue),
}

/// Specification mirror of [`UidOrValue`].
#[verifier::ext_equal]
pub enum SpecUidOrValue {
    Uid(Seq<char>),
    Value(SpecBlockInputValue),
}

impl DeepView for UidOrValue {
    type V = SpecUidOrValue;

    open spec fn deep_view(&self) -> SpecUidOrValue {
        match self {
            UidOrValue::Uid(u) => SpecUidOrValue::Uid(u@),
            UidOrValue::Value(v) => SpecUidOrValue::Value(v.deep_view()),
        }
    }
}

/// A named input slot group on a block: a shadow state followed by an ordered
/// list of optional slot entries, `None` kept as an explicit null.
#[derive(Debug, Clone, PartialEq)]
pub struct BlockInput {
    /// Shadow state of the group.
    pub shadow: ShadowInputType,
    /// The slot entries, in their significant source order.
    pub inputs: Vec<Option<UidOrValue>>,
}

/// Specification mirror of [`BlockInput`].
#[verifier::ext_equal]
pub struct SpecBlockInput {
    pub shadow: ShadowInputType,
    pub inputs: Seq<Option<SpecUidOrValue>>,
}

impl DeepView for BlockInput {
    type V = SpecBlockInput;

    open spec fn deep_view(&self) -> SpecBlockInput {
        SpecBlockInput { shadow: self.shadow, inputs: self.inputs.deep_view() }
    }
}

impl Default for BlockInput {
    /// An empty slot group without a shadow.
    fn default() -> (r: Self)
        ensures
            r.deep_view().shadow == ShadowInputType::NoShadow,
            r.deep_view().inputs.len() == 0,
    {
        BlockInput { shadow: ShadowInputType::NoShadow, inputs: Vec::new() }
    }
}

impl BlockInput {
    /// The number of array elements this group encodes to: the shadow state
    /// plus one element per slot.
    pub fn size_hint(&self) -> (r: usize)
        requires
            self.inputs.len() < usize::MAX,
        ensures
            r == 1 + self.deep_view().inputs.len(),
    {
        1 + self.inputs.len()
    }
}

/// A named field on a block: a scalar value, with or without a secondary
/// identifier slot.
#[derive(Debug, Clone, PartialEq)]
pub enum BlockField {
    /// The source array had a second element, even if it was a null.
    WithId {
        /// Value of the field.
        value: Value,
        /// Identifier of the field's value; `None` when the second element
        /// was an explicit null.
        id: Option<Uid>,
    },
    /// The source array had only the value element.
    NoId {
        /// Value of the field.
        value: Value,
    },
}

/// Specification mirror of [`BlockField`].
#[verifier::ext_equal]
pub enum SpecBlockField {
    WithId { value: SpecValue, id: Option<Seq<char>> },
    NoId { value: SpecValue },
}

impl DeepView for BlockField {
    type V = SpecBlockField;

    open spec fn deep_view(&self) -> SpecBlockField {
        match self {
            BlockField::WithId { value, id } => SpecBlockField::WithId {
                value: value.deep_view(),
                id: id.deep_view(),
            },
            BlockField::NoId { value } => SpecBlockField::NoId { value: value.deep_view() },
        }
    }
}

impl SpecBlockField {
    /// The scalar value of the field, whichever variant holds it.
    pub open spec fn spec_value(self) -> SpecValue {
        match self {
            SpecBlockField::WithId { value, .. } => value,
            SpecBlockField::NoId { value } => value,
        }
    }

    /// The secondary identifier, when one is present.
    pub open spec fn spec_id(self) -> Option<Seq<char>> {
        match self {
            SpecBlockField::WithId { id, .. } => id,
            SpecBlockField::NoId { .. } => None,
        }
    }
}

impl BlockField {
    /// Value of the field.
    pub fn value(&self) -> (r: &Value)
        ensures
            r.deep_view() == self.deep_view().spec_value(),
    {
        match self {
            BlockField::WithId { value, .. } => value,
            BlockField::NoId { value } => value,
        }
    }

    /// The identifier of the field's value, for the fields that carry one,
    /// such as variable and broadcast dropdown menus.
    pub fn id(&self) -> (r: Option<&Uid>)
        ensures
            match r {
                Some(u) => self.deep_view().spec_id() == Some(u@),
                None => self.deep_view().spec_id() is None,
            },
    {
        match self {
            BlockField::WithId { id, .. } => match id {
                Some(u) => Some(u),
                None => None,
            },
            BlockField::NoId { .. } => None,
        }
    }
}

/// Opcode-dependent payload of a mutation. Several fields travel inside the
/// JSON document as strings whose text is itself JSON; the typed model holds
/// the decoded structures.
#[derive(Debug, Clone, PartialEq)]
pub enum BlockMutationEnum {
    /// Mutation of a `procedures_prototype` block.
    ProceduresPrototype {
        /// Name of the custom block, with `%s` and `%b` input markers.
        proccode: String,
        /// Identifiers of the arguments.
        argumentids: Vec<Uid>,
        /// Names of the arguments.
        argumentnames: Vec<Name>,
        /// Defaults of the arguments.
        argumentdefaults: Vec<Value>,
        /// Whether to run the block without screen refresh.
        warp: Option<bool>,
    },
    /// Mutation of a `procedures_call` block.
    ProceduresCall {
        /// Name of the custom block, with `%s` and `%b` input markers.
        proccode: String,
        /// Identifiers of the arguments.
        argumentids: Vec<Uid>,
        /// Whether to run the block without screen refresh.
        warp: Option<bool>,
    },
    /// Mutation of a `control_stop` block.
    ControlStop {
        /// Whether the block has a block following it.
        hasnext: bool,
    },
}

/// Specification mirror of [`BlockMutationEnum`].
#[verifier::ext_equal]
pub enum SpecBlockMutationEnum {
    ProceduresPrototype {
        proccode: Seq<char>,
        argumentids: Seq<Seq<char>>,
        argumentnames: Seq<Seq<char>>,
        argumentdefaults: Seq<SpecValue>,
        warp: Option<bool>,
    },
    ProceduresCall { proccode: Seq<char>, argumentids: Seq<Seq<char>>, warp: Option<bool> },
    ControlStop { hasnext: bool },
}

impl DeepView for BlockMutationEnum {
    type V = SpecBlockMutationEnum;

    open spec fn deep_view(&self) -> SpecBlockMutationEnum {
        match self {
            BlockMutationEnum::ProceduresPrototype {
                proccode,
                argumentids,
                argumentnames,
                argumentdefaults,
                warp,
            } => SpecBlockMutationEnum::ProceduresPrototype {
                proccode: proccode@,
                argumentids: argumentids.deep_view(),
                argumentnames: argumentnames.deep_view(),
                argumentdefaults: argumentdefaults.deep_view(),
                warp: *warp,
            },
            BlockMutationEnum::ProceduresCall { proccode, argumentids, warp } => {
                SpecBlockMutationEnum::ProceduresCall {
                    proccode: proccode@,
                    argumentids: argumentids.deep_view(),
                    warp: *warp,
                }
            },
            BlockMutationEnum::ControlStop { hasnext } => SpecBlockMutationEnum::ControlStop {
                hasnext: *hasnext,
            },
        }
    }
}

/// Opcode-specific metadata attached to certain blocks.
#[derive(Debug, PartialEq)]
pub struct BlockMutation {
    /// Always the string `mutation` in observed documents.
    pub tag_name: String,
    /// Seems to always be an empty array; carried through verbatim.
    pub children: Vec<Json>,
    /// The opcode-dependent payload.
    pub mutation_enum: BlockMutationEnum,
}

/// Specification mirror of [`BlockMutation`].
#[verifier::ext_equal]
pub struct SpecBlockMutation {
    pub tag_name: Seq<char>,
    pub children: Seq<SpecJson>,
    pub mutation_enum: SpecBlockMutationEnum,
}

impl DeepView for BlockMutation {
    type V = SpecBlockMutation;

    open spec fn deep_view(&self) -> SpecBlockMutation {
        SpecBlockMutation {
            tag_name: self.tag_name@,
            children: view_of_arr(self.children@),
            mutation_enum: self.mutation_enum.deep_view(),
        }
    }
}

/// The canonical block record: one script instruction or reporter.
#[derive(Debug, PartialEq)]
pub struct BlockNormal {
    /// A string naming the block's behaviour.
    pub opcode: OpCode,
    /// Identifier of the comment attached to this block, if any.
    pub comment: Option<Uid>,
    /// Identifier of the next block, or `None`.
    pub next: Option<Uid>,
    /// Identifier of the preceding block, of the enclosing C block, or of the
    /// block this one is an input to; `None` for a top-level block.
    pub parent: Option<Uid>,
    /// The named input slot groups, in source order.
    pub inputs: Vec<(String, BlockInput)>,
    /// The named fields, in source order.
    pub fields: Vec<(String, BlockField)>,
    /// True if this is a shadow block.
    pub shadow: bool,
    /// False if the block has a parent and true otherwise.
    pub top_level: bool,
    /// Opcode-specific metadata, present only for certain opcodes.
    pub mutation: Option<BlockMutation>,
    /// X position of a top-level block.
    pub x: Option<Number>,
    /// Y position of a top-level block.
    pub y: Option<Number>,
}

/// Specification mirror of [`BlockNormal`].
#[verifier::ext_equal]
pub struct SpecBlockNormal {
    pub opcode: Seq<char>,
    pub comment: Option<Seq<char>>,
    pub next: Option<Seq<char>>,
    pub parent: Option<Seq<char>>,
    pub inputs: Seq<(Seq<char>, SpecBlockInput)>,
    pub fields: Seq<(Seq<char>, SpecBlockField)>,
    pub shadow: bool,
    pub top_level: bool,
    pub mutation: Option<SpecBlockMutation>,
    pub x: Option<SpecNumber>,
    pub y: Option<SpecNumber>,
}

impl DeepView for BlockNormal {
    type V = SpecBlockNormal;

    open spec fn deep_view(&self) -> SpecBlockNormal {
        SpecBlockNormal {
            opcode: self.opcode@,
            comment: self.comment.deep_view(),
            next: self.next.deep_view(),
            parent: self.parent.deep_view(),
            inputs: self.inputs.deep_view(),
            fields: self.fields.deep_view(),
            shadow: self.shadow,
            top_level: self.top_level,
            mutation: self.mutation.deep_view(),
            x: self.x.deep_view(),
            y: self.y.deep_view(),
        }
    }
}

impl Default for BlockNormal {
    /// A blank top-level block at position (0, 0).
    fn default() -> (r: Self)
        ensures
            r.deep_view() == (SpecBlockNormal {
                opcode: Seq::<char>::empty(),
                comment: None,
                next: None,
                parent: None,
                inputs: Seq::empty(),
                fields: Seq::empty(),
                shadow: false,
                top_level: true,
                mutation: None,
                x: Some(SpecNumber::Int(0)),
                y: Some(SpecNumber::Int(0)),
            }),
    {
        let r = BlockNormal {
            opcode: String::new(),
            comment: None,
            next: None,
            parent: None,
            inputs: Vec::new(),
            fields: Vec::new(),
            shadow: false,
            top_level: true,
            mutation: None,
            x: Some(Number::Int(0)),
            y: Some(Number::Int(0)),
        };
        proof {
            assert(r.deep_view().inputs =~= Seq::<(Seq<char>, SpecBlockInput)>::empty());
            assert(r.deep_view().fields =~= Seq::<(Seq<char>, SpecBlockField)>::empty());
            assert(r.deep_view().comment =~= Option::<Seq<char>>::None);
        }
        r
    }
}

/// A bare variable or list reporter sitting at the top level of a script,
/// encoded as a 5-element array.
#[derive(Debug, Clone, PartialEq)]
pub struct BlockVarListReporterTop {
    /// Whether the reporter shows a variable or a list.
    pub kind: ListOrVariable,
    /// Name of the variable or list.
    pub name: Name,
    /// Identifier of the variable or list.
    pub id: Uid,
    /// X position of the reporter.
    pub x: Number,
    /// Y position of the reporter.
    pub y: Number,
}

/// Specification mirror of [`BlockVarListReporterTop`].
#[verifier::ext_equal]
pub struct SpecBlockVarListReporterTop {
    pub kind: ListOrVariable,
    pub name: Seq<char>,
    pub id: Seq<char>,
    pub x: SpecNumber,
    pub y: SpecNumber,
}

impl DeepView for BlockVarListReporterTop {
    type V = SpecBlockVarListReporterTop;

    open spec fn deep_view(&self) -> SpecBlockVarListReporterTop {
        SpecBlockVarListReporterTop {
            kind: self.kind,
            name: self.name@,
            id: self.id@,
            x: self.x.deep_view(),
            y: self.y.deep_view(),
        }
    }
}

/// One entry of a block collection: a normal block record or a bare top-level
/// reporter, told apart purely by JSON shape (object against array).
#[derive(Debug, PartialEq)]
pub enum Block {
    /// The canonical object-shaped record.
    Normal(BlockNormal),
    /// The 5-element array shape of a bare top-level reporter.
    VarList(BlockVarListReporterTop),
}

/// Specification mirror of [`Block`].
#[verifier::ext_equal]
pub enum SpecBlock {
    Normal(SpecBlockNormal),
    VarList(SpecBlockVarListReporterTop),
}

impl DeepView for Block {
    type V = SpecBlock;

    open spec fn deep_view(&self) -> SpecBlock {
        match self {
            Block::Normal(n) => SpecBlock::Normal(n.deep_view()),
            Block::VarList(v) => SpecBlock::VarList(v.deep_view()),
        }
    }
}

} // verus!
