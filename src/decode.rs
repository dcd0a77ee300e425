use vstd::prelude::*;
use crate::ir::{
    texts, Argument, ArgumentModel, Code, CodeModel, Function, FunctionModel, Instruction,
    InstructionModel, Literal, Program, ProgramModel, Type,
};
use crate::json::{elements, is_text, lemma_elements, lemma_members, members, Json, JsonModel};
use crate::ops::{Capabilities, ConstOps, EffectOps, ValueOps};

verus! {

broadcast use vstd::std_specs::vec::axiom_vec_index_decreases;

/// Why a document does not decode to a program.
#[derive(Debug, PartialEq, Eq)]
pub enum DecodeError {
    /// The stream could not be read or written.
    IoFailure,
    /// The text is not a structured document, or a value has the wrong shape.
    MalformedDocument,
    /// A required member is absent.
    MissingField(String),
    /// A type spelling outside the enabled vocabulary.
    UnknownType(String),
    /// An operation spelling outside the enabled vocabularies.
    UnsupportedOperation(String),
    /// A value that no literal form admits.
    MalformedLiteral,
}

/// The mathematical value of a [`DecodeError`].
pub ghost enum DecodeErrorModel {
    IoFailure,
    MalformedDocument,
    MissingField(Seq<char>),
    UnknownType(Seq<char>),
    UnsupportedOperation(Seq<char>),
    MalformedLiteral,
}

impl View for DecodeError {
    type V = DecodeErrorModel;

    open spec fn view(&self) -> DecodeErrorModel {
        match self {
            DecodeError::IoFailure => DecodeErrorModel::IoFailure,
            DecodeError::MalformedDocument => DecodeErrorModel::MalformedDocument,
            DecodeError::MissingField(s) => DecodeErrorModel::MissingField(s@),
            DecodeError::UnknownType(s) => DecodeErrorModel::UnknownType(s@),
            DecodeError::UnsupportedOperation(s) => DecodeErrorModel::UnsupportedOperation(s@),
            DecodeError::MalformedLiteral => DecodeErrorModel::MalformedLiteral,
        }
    }
}

/// The mathematical value of a decoding result.
pub type Outcome<T> = Result<T, DecodeErrorModel>;

/// The mathematical value of a decoding result.
pub open spec fn outcome<T, V>(r: Result<T, DecodeError>, f: spec_fn(T) -> V) -> Outcome<V> {
    match r {
        Ok(x) => Ok(f(x)),
        Err(e) => Err(e@),
    }
}

/// The value of the first member named `key`.
pub open spec fn member_of(ms: Seq<(Seq<char>, JsonModel)>, key: Seq<char>) -> Option<JsonModel>
    decreases ms.len(),
{
    if ms.len() == 0 {
        None
    } else if ms[0].0 == key {
        Some(ms[0].1)
    } else {
        member_of(ms.drop_first(), key)
    }
}

/// The type that a document denotes.
pub open spec fn type_of(j: JsonModel, caps: Capabilities) -> Outcome<Type>
    decreases j,
{
    match j {
        JsonModel::Str(s) => if s == "int"@ {
            Ok(Type::Int)
        } else if s == "bool"@ {
            Ok(Type::Bool)
        } else if s == "float"@ && caps.float {
            Ok(Type::Float)
        } else {
            Err(DecodeErrorModel::UnknownType(s))
        },
        JsonModel::Object(ms) => if ms.len() != 1 {
            Err(DecodeErrorModel::MalformedDocument)
        } else if ms[0].0 == "ptr"@ && caps.memory {
            match type_of(ms[0].1, caps) {
                Ok(t) => Ok(Type::Pointer(Box::new(t))),
                Err(e) => Err(e),
            }
        } else {
            Err(DecodeErrorModel::UnknownType(ms[0].0))
        },
        _ => Err(DecodeErrorModel::MalformedDocument),
    }
}

/// The literal that a scalar denotes: a number that is not a 64-bit signed
/// integer is a float when floats are enabled, a whole number is an integer.
pub open spec fn literal_of(j: JsonModel, caps: Capabilities) -> Outcome<Literal> {
    match j {
        JsonModel::Float(bits) => if caps.float {
            Ok(Literal::Float(bits))
        } else {
            Err(DecodeErrorModel::MalformedLiteral)
        },
        JsonModel::Int(n) => Ok(Literal::Int(n)),
        JsonModel::Bool(b) => Ok(Literal::Bool(b)),
        _ => Err(DecodeErrorModel::MalformedLiteral),
    }
}

/// A required member that holds a string.
pub open spec fn text_member(ms: Seq<(Seq<char>, JsonModel)>, key: Seq<char>) -> Outcome<Seq<char>> {
    match member_of(ms, key) {
        None => Err(DecodeErrorModel::MissingField(key)),
        Some(JsonModel::Str(s)) => Ok(s),
        Some(_) => Err(DecodeErrorModel::MalformedDocument),
    }
}

/// A required member that holds a type.
pub open spec fn type_member(ms: Seq<(Seq<char>, JsonModel)>, key: Seq<char>, caps: Capabilities) -> Outcome<Type> {
    match member_of(ms, key) {
        None => Err(DecodeErrorModel::MissingField(key)),
        Some(t) => type_of(t, caps),
    }
}

/// A prefix put before a decoded sequence, unless decoding failed.
pub open spec fn after<T>(prefix: Seq<T>, r: Outcome<Seq<T>>) -> Outcome<Seq<T>> {
    match r {
        Ok(rest) => Ok(prefix + rest),
        Err(e) => Err(e),
    }
}

/// A string element as a name.
pub open spec fn name_of(j: JsonModel) -> Outcome<Seq<char>> {
    match j {
        JsonModel::Str(s) => Ok(s),
        _ => Err(DecodeErrorModel::MalformedDocument),
    }
}

/// The strings of an array, or the error at the first element that is none.
pub open spec fn names_of(items: Seq<JsonModel>) -> Outcome<Seq<Seq<char>>>
    decreases items.len(),
{
    if items.len() == 0 {
        Ok(seq![])
    } else {
        match name_of(items[0]) {
            Err(e) => Err(e),
            Ok(x) => after(seq![x], names_of(items.drop_first())),
        }
    }
}

/// An optional member that holds an array of strings; empty when absent.
pub open spec fn names_member(ms: Seq<(Seq<char>, JsonModel)>, key: Seq<char>) -> Outcome<Seq<Seq<char>>> {
    match member_of(ms, key) {
        None => Ok(seq![]),
        Some(JsonModel::Array(items)) => names_of(items),
        Some(_) => Err(DecodeErrorModel::MalformedDocument),
    }
}

/// The value-producing instruction that the members denote, once its
/// operation is known.
pub open spec fn value_of(ms: Seq<(Seq<char>, JsonModel)>, op: ValueOps, caps: Capabilities) -> Outcome<InstructionModel> {
    match text_member(ms, "dest"@) {
        Err(e) => Err(e),
        Ok(dest) => match type_member(ms, "type"@, caps) {
            Err(e) => Err(e),
            Ok(ty) => match names_member(ms, "args"@) {
                Err(e) => Err(e),
                Ok(args) => match names_member(ms, "funcs"@) {
                    Err(e) => Err(e),
                    Ok(funcs) => match names_member(ms, "labels"@) {
                        Err(e) => Err(e),
                        Ok(labels) => Ok(InstructionModel::Value { op, dest, ty, args, funcs, labels }),
                    },
                },
            },
        },
    }
}

/// The effect instruction that the members denote, once its operation is known.
pub open spec fn effect_of(ms: Seq<(Seq<char>, JsonModel)>, op: EffectOps) -> Outcome<InstructionModel> {
    match names_member(ms, "args"@) {
        Err(e) => Err(e),
        Ok(args) => match names_member(ms, "funcs"@) {
            Err(e) => Err(e),
            Ok(funcs) => match names_member(ms, "labels"@) {
                Err(e) => Err(e),
                Ok(labels) => Ok(InstructionModel::Effect { op, args, funcs, labels }),
            },
        },
    }
}

/// The constant instruction that the members denote.
pub open spec fn constant_of(ms: Seq<(Seq<char>, JsonModel)>, op: ConstOps, caps: Capabilities) -> Outcome<InstructionModel> {
    match text_member(ms, "dest"@) {
        Err(e) => Err(e),
        Ok(dest) => match type_member(ms, "type"@, caps) {
            Err(e) => Err(e),
            Ok(ty) => match member_of(ms, "value"@) {
                None => Err(DecodeErrorModel::MissingField("value"@)),
                Some(v) => match literal_of(v, caps) {
                    Err(e) => Err(e),
                    Ok(value) => Ok(InstructionModel::Constant { op, dest, ty, value }),
                },
            },
        },
    }
}

/// The instruction that an object's members denote. The shape follows from the
/// operation and from whether a `dest` member is present.
pub open spec fn instruction_of(ms: Seq<(Seq<char>, JsonModel)>, caps: Capabilities) -> Outcome<InstructionModel> {
    match member_of(ms, "op"@) {
        None => Err(DecodeErrorModel::MissingField("op"@)),
        Some(JsonModel::Str(name)) => if let Some(op) = ConstOps::accepted(name, caps) {
            constant_of(ms, op, caps)
        } else if ValueOps::accepted(name, caps) is Some && member_of(ms, "dest"@) is Some {
            value_of(ms, ValueOps::accepted(name, caps)->0, caps)
        } else if let Some(op) = EffectOps::accepted(name, caps) {
            effect_of(ms, op)
        } else if ValueOps::accepted(name, caps) is Some {
            Err(DecodeErrorModel::MissingField("dest"@))
        } else {
            Err(DecodeErrorModel::UnsupportedOperation(name))
        },
        Some(_) => Err(DecodeErrorModel::MalformedDocument),
    }
}

/// The code item that a document denotes: a label when a `label` member is
/// present, else an instruction.
pub open spec fn code_of(j: JsonModel, caps: Capabilities) -> Outcome<CodeModel> {
    match j {
        JsonModel::Object(ms) => match member_of(ms, "label"@) {
            Some(JsonModel::Str(label)) => Ok(CodeModel::Label { label }),
            Some(_) => Err(DecodeErrorModel::MalformedDocument),
            None => match instruction_of(ms, caps) {
                Ok(i) => Ok(CodeModel::Instruction(i)),
                Err(e) => Err(e),
            },
        },
        _ => Err(DecodeErrorModel::MalformedDocument),
    }
}

/// The argument that a document denotes.
pub open spec fn argument_of(j: JsonModel, caps: Capabilities) -> Outcome<ArgumentModel> {
    match j {
        JsonModel::Object(ms) => match text_member(ms, "name"@) {
            Err(e) => Err(e),
            Ok(name) => match type_member(ms, "type"@, caps) {
                Err(e) => Err(e),
                Ok(ty) => Ok(ArgumentModel { name, ty }),
            },
        },
        _ => Err(DecodeErrorModel::MalformedDocument),
    }
}

/// The arguments that an array denotes, or the first error.
pub open spec fn arguments_of(items: Seq<JsonModel>, caps: Capabilities) -> Outcome<Seq<ArgumentModel>>
    decreases items.len(),
{
    if items.len() == 0 {
        Ok(seq![])
    } else {
        match argument_of(items[0], caps) {
            Err(e) => Err(e),
            Ok(x) => after(seq![x], arguments_of(items.drop_first(), caps)),
        }
    }
}

/// The code items that an array denotes, or the first error.
pub open spec fn codes_of(items: Seq<JsonModel>, caps: Capabilities) -> Outcome<Seq<CodeModel>>
    decreases items.len(),
{
    if items.len() == 0 {
        Ok(seq![])
    } else {
        match code_of(items[0], caps) {
            Err(e) => Err(e),
            Ok(x) => after(seq![x], codes_of(items.drop_first(), caps)),
        }
    }
}

/// The function that a document denotes. `args` and `instrs` are empty when
/// absent; the return type is absent when `type` is.
pub open spec fn function_of(j: JsonModel, caps: Capabilities) -> Outcome<FunctionModel> {
    match j {
        JsonModel::Object(ms) => match text_member(ms, "name"@) {
            Err(e) => Err(e),
            Ok(name) => match (match member_of(ms, "args"@) {
                None => Ok(seq![]),
                Some(JsonModel::Array(items)) => arguments_of(items, caps),
                Some(_) => Err(DecodeErrorModel::MalformedDocument),
            }) {
                Err(e) => Err(e),
                Ok(args) => match (match member_of(ms, "type"@) {
                    None => Ok(None),
                    Some(t) => match type_of(t, caps) {
                        Ok(t) => Ok(Some(t)),
                        Err(e) => Err(e),
                    },
                }) {
                    Err(e) => Err(e),
                    Ok(return_type) => match (match member_of(ms, "instrs"@) {
                        None => Ok(seq![]),
                        Some(JsonModel::Array(items)) => codes_of(items, caps),
                        Some(_) => Err(DecodeErrorModel::MalformedDocument),
                    }) {
                        Err(e) => Err(e),
                        Ok(instrs) => Ok(FunctionModel { name, args, return_type, instrs }),
                    },
                },
            },
        },
        _ => Err(DecodeErrorModel::MalformedDocument),
    }
}

/// The functions that an array denotes, or the first error.
pub open spec fn functions_of(items: Seq<JsonModel>, caps: Capabilities) -> Outcome<Seq<FunctionModel>>
    decreases items.len(),
{
    if items.len() == 0 {
        Ok(seq![])
    } else {
        match function_of(items[0], caps) {
            Err(e) => Err(e),
            Ok(x) => after(seq![x], functions_of(items.drop_first(), caps)),
        }
    }
}

/// The program that a document denotes.
pub open spec fn program_of(j: JsonModel, caps: Capabilities) -> Outcome<ProgramModel> {
    match j {
        JsonModel::Object(ms) => match member_of(ms, "functions"@) {
            None => Err(DecodeErrorModel::MissingField("functions"@)),
            Some(JsonModel::Array(items)) => match functions_of(items, caps) {
                Ok(functions) => Ok(ProgramModel { functions }),
                Err(e) => Err(e),
            },
            Some(_) => Err(DecodeErrorModel::MalformedDocument),
        },
        _ => Err(DecodeErrorModel::MalformedDocument),
    }
}

/// Putting `a` before a decoded rest is putting the longer prefix before it.
proof fn lemma_after_push<T>(prefix: Seq<T>, a: T, r: Outcome<Seq<T>>)
    ensures
        after(prefix, after(seq![a], r)) == after(prefix.push(a), r),
{
    if let Ok(rest) = r {
        assert(prefix + (seq![a] + rest) =~= prefix.push(a) + rest);
    }
}

/// The first member of an object named `key`.
pub fn find_member<'a>(ms: &'a Vec<(String, Json)>, key: &str) -> (r: Option<&'a Json>)
    ensures
        match r {
            Some(v) => member_of(members(ms@), key@) == Some(v@),
            None => member_of(members(ms@), key@) is None,
        },
{
    let ghost mv = members(ms@);
    proof {
        lemma_members(ms@);
    }
    let mut i: usize = 0;
    assert(mv.skip(0) =~= mv);
    while i < ms.len()
        invariant
            0 <= i <= ms.len(),
            mv == members(ms@),
            mv.len() == ms.len(),
            forall|k: int| 0 <= k < ms.len() ==> #[trigger] mv[k] == (ms[k].0@, ms[k].1@),
            member_of(mv, key@) == member_of(mv.skip(i as int), key@),
        decreases ms.len() - i,
    {
        let ghost rest = mv.skip(i as int);
        assert(rest[0] == mv[i as int]);
        if is_text(&ms[i].0, key) {
            return Some(&ms[i].1);
        }
        assert(rest.drop_first() =~= mv.skip(i + 1));
        i = i + 1;
    }
    assert(mv.skip(i as int).len() == 0);
    None
}

/// Decodes a type.
pub fn decode_type(j: &Json, caps: Capabilities) -> (r: Result<Type, DecodeError>)
    ensures
        outcome(r, |t: Type| t) == type_of(j@, caps),
    decreases j,
{
    match j {
        Json::Str(s) => {
            if is_text(s, "int") {
                Ok(Type::Int)
            } else if is_text(s, "bool") {
                Ok(Type::Bool)
            } else if is_text(s, "float") && caps.float {
                Ok(Type::Float)
            } else {
                Err(DecodeError::UnknownType(s.clone()))
            }
        },
        Json::Object(ms) => {
            proof {
                lemma_members(ms@);
            }
            if ms.len() != 1 {
                Err(DecodeError::MalformedDocument)
            } else if is_text(&ms[0].0, "ptr") && caps.memory {
                match decode_type(&ms[0].1, caps) {
                    Ok(t) => Ok(Type::Pointer(Box::new(t))),
                    Err(e) => Err(e),
                }
            } else {
                Err(DecodeError::UnknownType(ms[0].0.clone()))
            }
        },
        _ => Err(DecodeError::MalformedDocument),
    }
}

/// Decodes a literal.
pub fn decode_literal(j: &Json, caps: Capabilities) -> (r: Result<Literal, DecodeError>)
    ensures
        outcome(r, |l: Literal| l) == literal_of(j@, caps),
{
    match j {
        Json::Float(bits) => if caps.float {
            Ok(Literal::Float(*bits))
        } else {
            Err(DecodeError::MalformedLiteral)
        },
        Json::Int(n) => Ok(Literal::Int(*n)),
        Json::Bool(b) => Ok(Literal::Bool(*b)),
        _ => Err(DecodeError::MalformedLiteral),
    }
}

/// Decodes a required member that holds a string.
fn text_field(ms: &Vec<(String, Json)>, key: &str) -> (r: Result<String, DecodeError>)
    ensures
        outcome(r, |s: String| s@) == text_member(members(ms@), key@),
{
    match find_member(ms, key) {
        None => Err(DecodeError::MissingField(key.to_owned())),
        Some(Json::Str(s)) => Ok(s.clone()),
        Some(_) => Err(DecodeError::MalformedDocument),
    }
}

/// Decodes a required member that holds a type.
fn type_field(ms: &Vec<(String, Json)>, key: &str, caps: Capabilities) -> (r: Result<Type, DecodeError>)
    ensures
        outcome(r, |t: Type| t) == type_member(members(ms@), key@, caps),
{
    match find_member(ms, key) {
        None => Err(DecodeError::MissingField(key.to_owned())),
        Some(t) => decode_type(t, caps),
    }
}

/// Decodes an array of strings.
fn decode_names(items: &Vec<Json>) -> (r: Result<Vec<String>, DecodeError>)
    ensures
        outcome(r, |v: Vec<String>| texts(v)) == names_of(elements(items@)),
{
    let ghost model = elements(items@);
    proof {
        lemma_elements(items@);
    }
    let mut out: Vec<String> = Vec::new();
    let mut i: usize = 0;
    assert(model.skip(0) =~= model);
    while i < items.len()
        invariant
            0 <= i <= items.len(),
            model == elements(items@),
            model.len() == items.len(),
            forall|k: int| 0 <= k < items.len() ==> #[trigger] model[k] == items[k]@,
            names_of(model) == after(texts(out), names_of(model.skip(i as int))),
        decreases items.len() - i,
    {
        let ghost rest = model.skip(i as int);
        assert(rest[0] == items@[i as int]@);
        assert(rest.drop_first() =~= model.skip(i + 1));
        match &items[i] {
            Json::Str(s) => {
                let ghost before = texts(out);
                out.push(s.clone());
                proof {
                    assert(texts(out) =~= before.push(s@));
                    lemma_after_push(before, s@, names_of(model.skip(i + 1)));
                }
            },
            _ => {
                return Err(DecodeError::MalformedDocument);
            },
        }
        i = i + 1;
    }
    assert(model.skip(i as int) =~= Seq::<JsonModel>::empty());
    assert(texts(out) + Seq::<Seq<char>>::empty() =~= texts(out));
    Ok(out)
}

/// Decodes an optional member that holds an array of strings.
fn names_field(ms: &Vec<(String, Json)>, key: &str) -> (r: Result<Vec<String>, DecodeError>)
    ensures
        outcome(r, |v: Vec<String>| texts(v)) == names_member(members(ms@), key@),
{
    match find_member(ms, key) {
        None => {
            let v: Vec<String> = Vec::new();
            assert(texts(v) =~= seq![]);
            Ok(v)
        },
        Some(j) => {
            match j {
                Json::Array(items) => decode_names(items),
                _ => Err(DecodeError::MalformedDocument),
            }
        },
    }
}

/// Decodes a constant instruction once its operation is known.
fn decode_constant(ms: &Vec<(String, Json)>, op: ConstOps, caps: Capabilities) -> (r: Result<Instruction, DecodeError>)
    ensures
        outcome(r, |i: Instruction| i@) == constant_of(members(ms@), op, caps),
{
    let dest = match text_field(ms, "dest") {
        Ok(d) => d,
        Err(e) => {
            return Err(e);
        },
    };
    let ty = match type_field(ms, "type", caps) {
        Ok(t) => t,
        Err(e) => {
            return Err(e);
        },
    };
    match find_member(ms, "value") {
        None => Err(DecodeError::MissingField("value".to_owned())),
        Some(v) => match decode_literal(v, caps) {
            Ok(value) => Ok(Instruction::Constant { op, dest, ty, value }),
            Err(e) => Err(e),
        },
    }
}

/// Decodes a value-producing instruction once its operation is known.
fn decode_value(ms: &Vec<(String, Json)>, op: ValueOps, caps: Capabilities) -> (r: Result<Instruction, DecodeError>)
    ensures
        outcome(r, |i: Instruction| i@) == value_of(members(ms@), op, caps),
{
    let dest = match text_field(ms, "dest") {
        Ok(d) => d,
        Err(e) => {
            return Err(e);
        },
    };
    let ty = match type_field(ms, "type", caps) {
        Ok(t) => t,
        Err(e) => {
            return Err(e);
        },
    };
    let args = match names_field(ms, "args") {
        Ok(v) => v,
        Err(e) => {
            return Err(e);
        },
    };
    let funcs = match names_field(ms, "funcs") {
        Ok(v) => v,
        Err(e) => {
            return Err(e);
        },
    };
    let labels = match names_field(ms, "labels") {
        Ok(v) => v,
        Err(e) => {
            return Err(e);
        },
    };
    Ok(Instruction::Value { op, dest, ty, args, funcs, labels })
}

/// Decodes an effect instruction once its operation is known.
fn decode_effect(ms: &Vec<(String, Json)>, op: EffectOps) -> (r: Result<Instruction, DecodeError>)
    ensures
        outcome(r, |i: Instruction| i@) == effect_of(members(ms@), op),
{
    let args = match names_field(ms, "args") {
        Ok(v) => v,
        Err(e) => {
            return Err(e);
        },
    };
    let funcs = match names_field(ms, "funcs") {
        Ok(v) => v,
        Err(e) => {
            return Err(e);
        },
    };
    let labels = match names_field(ms, "labels") {
        Ok(v) => v,
        Err(e) => {
            return Err(e);
        },
    };
    Ok(Instruction::Effect { op, args, funcs, labels })
}

/// Decodes an instruction from an object's members: `const` gives a constant;
/// a value operation with a `dest` member gives a value instruction; an effect
/// operation otherwise gives an effect instruction.
pub fn decode_instruction(ms: &Vec<(String, Json)>, caps: Capabilities) -> (r: Result<Instruction, DecodeError>)
    ensures
        outcome(r, |i: Instruction| i@) == instruction_of(members(ms@), caps),
{
    let name = match find_member(ms, "op") {
        None => {
            return Err(DecodeError::MissingField("op".to_owned()));
        },
        Some(Json::Str(name)) => name,
        Some(_) => {
            return Err(DecodeError::MalformedDocument);
        },
    };
    if let Some(op) = ConstOps::from_text(name, caps) {
        return decode_constant(ms, op, caps);
    }
    let value_op = ValueOps::from_text(name, caps);
    let has_dest = find_member(ms, "dest").is_some();
    if let Some(op) = value_op {
        if has_dest {
            return decode_value(ms, op, caps);
        }
    }
    if let Some(op) = EffectOps::from_text(name, caps) {
        return decode_effect(ms, op);
    }
    if value_op.is_some() {
        Err(DecodeError::MissingField("dest".to_owned()))
    } else {
        Err(DecodeError::UnsupportedOperation(name.clone()))
    }
}

/// Decodes a code item: a label when the object has a `label` member,
/// whatever else it holds; an instruction otherwise.
pub fn decode_code(j: &Json, caps: Capabilities) -> (r: Result<Code, DecodeError>)
    ensures
        outcome(r, |c: Code| c@) == code_of(j@, caps),
{
    match j {
        Json::Object(ms) => match find_member(ms, "label") {
            Some(Json::Str(label)) => Ok(Code::Label { label: label.clone() }),
            Some(_) => Err(DecodeError::MalformedDocument),
            None => match decode_instruction(ms, caps) {
                Ok(i) => Ok(Code::Instruction(i)),
                Err(e) => Err(e),
            },
        },
        _ => Err(DecodeError::MalformedDocument),
    }
}

/// Decodes a function parameter.
pub fn decode_argument(j: &Json, caps: Capabilities) -> (r: Result<Argument, DecodeError>)
    ensures
        outcome(r, |a: Argument| a@) == argument_of(j@, caps),
{
    match j {
        Json::Object(ms) => {
            let name = match text_field(ms, "name") {
                Ok(n) => n,
                Err(e) => {
                    return Err(e);
                },
            };
            match type_field(ms, "type", caps) {
                Ok(ty) => Ok(Argument { name, ty }),
                Err(e) => Err(e),
            }
        },
        _ => Err(DecodeError::MalformedDocument),
    }
}

/// Decodes an array of parameters.
fn decode_arguments(items: &Vec<Json>, caps: Capabilities) -> (r: Result<Vec<Argument>, DecodeError>)
    ensures
        outcome(r, |v: Vec<Argument>| v@.map_values(|x: Argument| x@)) == arguments_of(elements(items@), caps),
{
    let ghost model = elements(items@);
    proof {
        lemma_elements(items@);
    }
    let mut out: Vec<Argument> = Vec::new();
    let mut i: usize = 0;
    assert(model.skip(0) =~= model);
    while i < items.len()
        invariant
            0 <= i <= items.len(),
            model == elements(items@),
            model.len() == items.len(),
            forall|k: int| 0 <= k < items.len() ==> #[trigger] model[k] == items[k]@,
            arguments_of(model, caps) == after(out@.map_values(|x: Argument| x@), arguments_of(model.skip(i as int), caps)),
        decreases items.len() - i,
    {
        let ghost rest = model.skip(i as int);
        assert(rest[0] == items@[i as int]@);
        assert(rest.drop_first() =~= model.skip(i + 1));
        match decode_argument(&items[i], caps) {
            Ok(x) => {
                let ghost before = out@.map_values(|x: Argument| x@);
                let ghost xm = x@;
                out.push(x);
                proof {
                    assert(out@.map_values(|x: Argument| x@) =~= before.push(xm));
                    lemma_after_push(before, xm, arguments_of(model.skip(i + 1), caps));
                }
            },
            Err(e) => {
                return Err(e);
            },
        }
        i = i + 1;
    }
    assert(model.skip(i as int) =~= Seq::<JsonModel>::empty());
    assert(out@.map_values(|x: Argument| x@) + Seq::<ArgumentModel>::empty() =~= out@.map_values(|x: Argument| x@));
    Ok(out)
}

/// Decodes an array of code items.
fn decode_codes(items: &Vec<Json>, caps: Capabilities) -> (r: Result<Vec<Code>, DecodeError>)
    ensures
        outcome(r, |v: Vec<Code>| v@.map_values(|x: Code| x@)) == codes_of(elements(items@), caps),
{
    let ghost model = elements(items@);
    proof {
        lemma_elements(items@);
    }
    let mut out: Vec<Code> = Vec::new();
    let mut i: usize = 0;
    assert(model.skip(0) =~= model);
    while i < items.len()
        invariant
            0 <= i <= items.len(),
            model == elements(items@),
            model.len() == items.len(),
            forall|k: int| 0 <= k < items.len() ==> #[trigger] model[k] == items[k]@,
            codes_of(model, caps) == after(out@.map_values(|x: Code| x@), codes_of(model.skip(i as int), caps)),
        decreases items.len() - i,
    {
        let ghost rest = model.skip(i as int);
        assert(rest[0] == items@[i as int]@);
        assert(rest.drop_first() =~= model.skip(i + 1));
        match decode_code(&items[i], caps) {
            Ok(x) => {
                let ghost before = out@.map_values(|x: Code| x@);
                let ghost xm = x@;
                out.push(x);
                proof {
                    assert(out@.map_values(|x: Code| x@) =~= before.push(xm));
                    lemma_after_push(before, xm, codes_of(model.skip(i + 1), caps));
                }
            },
            Err(e) => {
                return Err(e);
            },
        }
        i = i + 1;
    }
    assert(model.skip(i as int) =~= Seq::<JsonModel>::empty());
    assert(out@.map_values(|x: Code| x@) + Seq::<CodeModel>::empty() =~= out@.map_values(|x: Code| x@));
    Ok(out)
}

/// Decodes a function. Absent `args` and `instrs` are empty; an absent `type`
/// is no return type.
pub fn decode_function(j: &Json, caps: Capabilities) -> (r: Result<Function, DecodeError>)
    ensures
        outcome(r, |f: Function| f@) == function_of(j@, caps),
{
    match j {
        Json::Object(ms) => {
            let name = match text_field(ms, "name") {
                Ok(n) => n,
                Err(e) => {
                    return Err(e);
                },
            };
            let args = match find_member(ms, "args") {
                None => {
                    let v: Vec<Argument> = Vec::new();
                    assert(v@.map_values(|x: Argument| x@) =~= seq![]);
                    v
                },
                Some(Json::Array(items)) => match decode_arguments(items, caps) {
                    Ok(v) => v,
                    Err(e) => {
                        return Err(e);
                    },
                },
                Some(_) => {
                    return Err(DecodeError::MalformedDocument);
                },
            };
            let return_type = match find_member(ms, "type") {
                None => None,
                Some(t) => match decode_type(t, caps) {
                    Ok(t) => Some(t),
                    Err(e) => {
                        return Err(e);
                    },
                },
            };
            let instrs = match find_member(ms, "instrs") {
                None => {
                    let v: Vec<Code> = Vec::new();
                    assert(v@.map_values(|x: Code| x@) =~= seq![]);
                    v
                },
                Some(Json::Array(items)) => match decode_codes(items, caps) {
                    Ok(v) => v,
                    Err(e) => {
                        return Err(e);
                    },
                },
                Some(_) => {
                    return Err(DecodeError::MalformedDocument);
                },
            };
            Ok(Function { name, args, return_type, instrs })
        },
        _ => Err(DecodeError::MalformedDocument),
    }
}

/// Decodes an array of functions.
fn decode_functions(items: &Vec<Json>, caps: Capabilities) -> (r: Result<Vec<Function>, DecodeError>)
    ensures
        outcome(r, |v: Vec<Function>| v@.map_values(|x: Function| x@)) == functions_of(elements(items@), caps),
{
    let ghost model = elements(items@);
    proof {
        lemma_elements(items@);
    }
    let mut out: Vec<Function> = Vec::new();
    let mut i: usize = 0;
    assert(model.skip(0) =~= model);
    while i < items.len()
        invariant
            0 <= i <= items.len(),
            model == elements(items@),
            model.len() == items.len(),
            forall|k: int| 0 <= k < items.len() ==> #[trigger] model[k] == items[k]@,
            functions_of(model, caps) == after(out@.map_values(|x: Function| x@), functions_of(model.skip(i as int), caps)),
        decreases items.len() - i,
    {
        let ghost rest = model.skip(i as int);
        assert(rest[0] == items@[i as int]@);
        assert(rest.drop_first() =~= model.skip(i + 1));
        match decode_function(&items[i], caps) {
            Ok(x) => {
                let ghost before = out@.map_values(|x: Function| x@);
                let ghost xm = x@;
                out.push(x);
                proof {
                    assert(out@.map_values(|x: Function| x@) =~= before.push(xm));
                    lemma_after_push(before, xm, functions_of(model.skip(i + 1), caps));
                }
            },
            Err(e) => {
                return Err(e);
            },
        }
        i = i + 1;
    }
    assert(model.skip(i as int) =~= Seq::<JsonModel>::empty());
    assert(out@.map_values(|x: Function| x@) + Seq::<FunctionModel>::empty() =~= out@.map_values(|x: Function| x@));
    Ok(out)
}

/// Decodes a program: an object whose `functions` member is an array of
/// functions.
pub fn decode_program(j: &Json, caps: Capabilities) -> (r: Result<Program, DecodeError>)
    ensures
        outcome(r, |p: Program| p@) == program_of(j@, caps),
{
    match j {
        Json::Object(ms) => match find_member(ms, "functions") {
            None => Err(DecodeError::MissingField("functions".to_owned())),
            Some(Json::Array(items)) => match decode_functions(items, caps) {
                Ok(functions) => Ok(Program { functions }),
                Err(e) => Err(e),
            },
            Some(_) => Err(DecodeError::MalformedDocument),
        },
        _ => Err(DecodeError::MalformedDocument),
    }
}

} // verus!
