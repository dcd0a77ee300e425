use vstd::prelude::*;
use crate::ir::{
    texts, Argument, ArgumentModel, Code, CodeModel, Function, FunctionModel, Instruction,
    InstructionModel, Literal, Program, ProgramModel, Type,
};
use crate::json::{elements, members, Json, JsonModel};

verus! {

/// The document that denotes a type.
pub open spec fn type_json(t: Type) -> JsonModel
    decreases t,
{
    match t {
        Type::Int => JsonModel::Str("int"@),
        Type::Bool => JsonModel::Str("bool"@),
        Type::Float => JsonModel::Str("float"@),
        Type::Pointer(inner) => JsonModel::Object(seq![("ptr"@, type_json(*inner))]),
    }
}

/// The scalar that denotes a literal.
pub open spec fn literal_json(l: Literal) -> JsonModel {
    match l {
        Literal::Int(n) => JsonModel::Int(n),
        Literal::Bool(b) => JsonModel::Bool(b),
        Literal::Float(bits) => JsonModel::Float(bits),
    }
}

/// An array of strings.
pub open spec fn names_json(names: Seq<Seq<char>>) -> JsonModel {
    JsonModel::Array(names.map_values(|s: Seq<char>| JsonModel::Str(s)))
}

/// A member that holds a list of names, left out when the list is empty.
pub open spec fn names_entry(key: Seq<char>, names: Seq<Seq<char>>) -> Seq<(Seq<char>, JsonModel)> {
    if names.len() == 0 {
        seq![]
    } else {
        seq![(key, names_json(names))]
    }
}

/// The document that denotes an instruction: only the members that its shape
/// has, and no list member that would be empty.
pub open spec fn instruction_json(i: InstructionModel) -> JsonModel {
    match i {
        InstructionModel::Constant { op, dest, ty, value } => JsonModel::Object(
            seq![
                ("op"@, JsonModel::Str(op.spelling())),
                ("dest"@, JsonModel::Str(dest)),
                ("type"@, type_json(ty)),
                ("value"@, literal_json(value)),
            ],
        ),
        InstructionModel::Value { op, dest, ty, args, funcs, labels } => JsonModel::Object(
            seq![
                ("op"@, JsonModel::Str(op.spelling())),
                ("dest"@, JsonModel::Str(dest)),
                ("type"@, type_json(ty)),
            ] + names_entry("args"@, args) + names_entry("funcs"@, funcs) + names_entry("labels"@, labels),
        ),
        InstructionModel::Effect { op, args, funcs, labels } => JsonModel::Object(
            seq![("op"@, JsonModel::Str(op.spelling()))] + names_entry("args"@, args)
                + names_entry("funcs"@, funcs) + names_entry("labels"@, labels),
        ),
    }
}

/// The document that denotes a code item.
pub open spec fn code_json(c: CodeModel) -> JsonModel {
    match c {
        CodeModel::Label { label } => JsonModel::Object(seq![("label"@, JsonModel::Str(label))]),
        CodeModel::Instruction(i) => instruction_json(i),
    }
}

/// The document that denotes a parameter.
pub open spec fn argument_json(a: ArgumentModel) -> JsonModel {
    JsonModel::Object(seq![("name"@, JsonModel::Str(a.name)), ("type"@, type_json(a.ty))])
}

/// The document that denotes a function; empty `args` and `instrs` and an
/// absent return type are left out.
pub open spec fn function_json(f: FunctionModel) -> JsonModel {
    JsonModel::Object(
        seq![("name"@, JsonModel::Str(f.name))] + (if f.args.len() == 0 {
            seq![]
        } else {
            seq![("args"@, JsonModel::Array(f.args.map_values(|a: ArgumentModel| argument_json(a))))]
        }) + (match f.return_type {
            Some(t) => seq![("type"@, type_json(t))],
            None => seq![],
        }) + (if f.instrs.len() == 0 {
            seq![]
        } else {
            seq![("instrs"@, JsonModel::Array(f.instrs.map_values(|c: CodeModel| code_json(c))))]
        }),
    )
}

/// The document that denotes a program.
pub open spec fn program_json(p: ProgramModel) -> JsonModel {
    JsonModel::Object(
        seq![("functions"@, JsonModel::Array(p.functions.map_values(|f: FunctionModel| function_json(f))))],
    )
}

/// Appends a member to an object under construction.
fn push_member(ms: &mut Vec<(String, Json)>, key: &str, value: Json)
    ensures
        members(final(ms)@) == members(old(ms)@).push((key@, value@)),
{
    let ghost before = ms@;
    ms.push((key.to_owned(), value));
    assert(ms@.drop_last() =~= before);
}

/// Appends an element to an array under construction.
fn push_element(items: &mut Vec<Json>, value: Json)
    ensures
        elements(final(items)@) == elements(old(items)@).push(value@),
{
    let ghost before = items@;
    items.push(value);
    assert(items@.drop_last() =~= before);
}

/// Encodes a type.
pub fn encode_type(t: &Type) -> (r: Json)
    ensures
        r@ == type_json(*t),
    decreases t,
{
    match t {
        Type::Int => Json::Str("int".to_owned()),
        Type::Bool => Json::Str("bool".to_owned()),
        Type::Float => Json::Str("float".to_owned()),
        Type::Pointer(inner) => {
            let mut ms: Vec<(String, Json)> = Vec::new();
            push_member(&mut ms, "ptr", encode_type(inner));
            assert(members(ms@) =~= seq![("ptr"@, type_json(**inner))]);
            Json::Object(ms)
        },
    }
}

/// Encodes a literal.
pub fn encode_literal(l: Literal) -> (r: Json)
    ensures
        r@ == literal_json(l),
{
    match l {
        Literal::Int(n) => Json::Int(n),
        Literal::Bool(b) => Json::Bool(b),
        Literal::Float(bits) => Json::Float(bits),
    }
}

/// Encodes a list of names as an array of strings.
fn encode_names(names: &Vec<String>) -> (r: Json)
    ensures
        r@ == names_json(texts(*names)),
{
    let mut out: Vec<Json> = Vec::new();
    let mut i: usize = 0;
    while i < names.len()
        invariant
            0 <= i <= names.len(),
            elements(out@) =~= texts(*names).take(i as int).map_values(|s: Seq<char>| JsonModel::Str(s)),
        decreases names.len() - i,
    {
        push_element(&mut out, Json::Str(names[i].clone()));
        assert(texts(*names).take(i + 1) =~= texts(*names).take(i as int).push(names@[i as int]@));
        i = i + 1;
    }
    assert(texts(*names).take(i as int) =~= texts(*names));
    Json::Array(out)
}

/// Appends a list member unless the list is empty.
fn push_names(ms: &mut Vec<(String, Json)>, key: &str, names: &Vec<String>)
    ensures
        members(final(ms)@) == members(old(ms)@) + names_entry(key@, texts(*names)),
{
    if names.len() == 0 {
        assert(members(ms@) + names_entry(key@, texts(*names)) =~= members(ms@));
    } else {
        let ghost before = members(ms@);
        push_member(ms, key, encode_names(names));
        assert(before.push((key@, names_json(texts(*names)))) =~= before + names_entry(key@, texts(*names)));
    }
}

/// Encodes an instruction with only the members that its shape has.
pub fn encode_instruction(i: &Instruction) -> (r: Json)
    ensures
        r@ == instruction_json(i@),
{
    let mut ms: Vec<(String, Json)> = Vec::new();
    match i {
        Instruction::Constant { op, dest, ty, value } => {
            push_member(&mut ms, "op", Json::Str(op.text().to_owned()));
            push_member(&mut ms, "dest", Json::Str(dest.clone()));
            push_member(&mut ms, "type", encode_type(ty));
            push_member(&mut ms, "value", encode_literal(*value));
            assert(members(ms@) =~= instruction_json(i@)->Object_0);
        },
        Instruction::Value { op, dest, ty, args, funcs, labels } => {
            push_member(&mut ms, "op", Json::Str(op.text().to_owned()));
            push_member(&mut ms, "dest", Json::Str(dest.clone()));
            push_member(&mut ms, "type", encode_type(ty));
            push_names(&mut ms, "args", args);
            push_names(&mut ms, "funcs", funcs);
            push_names(&mut ms, "labels", labels);
            assert(members(ms@) =~= instruction_json(i@)->Object_0);
        },
        Instruction::Effect { op, args, funcs, labels } => {
            push_member(&mut ms, "op", Json::Str(op.text().to_owned()));
            push_names(&mut ms, "args", args);
            push_names(&mut ms, "funcs", funcs);
            push_names(&mut ms, "labels", labels);
            assert(members(ms@) =~= instruction_json(i@)->Object_0);
        },
    }
    Json::Object(ms)
}

/// Encodes a code item.
pub fn encode_code(c: &Code) -> (r: Json)
    ensures
        r@ == code_json(c@),
{
    match c {
        Code::Label { label } => {
            let mut ms: Vec<(String, Json)> = Vec::new();
            push_member(&mut ms, "label", Json::Str(label.clone()));
            assert(members(ms@) =~= code_json(c@)->Object_0);
            Json::Object(ms)
        },
        Code::Instruction(i) => encode_instruction(i),
    }
}

/// Encodes a function parameter.
pub fn encode_argument(a: &Argument) -> (r: Json)
    ensures
        r@ == argument_json(a@),
{
    let mut ms: Vec<(String, Json)> = Vec::new();
    push_member(&mut ms, "name", Json::Str(a.name.clone()));
    push_member(&mut ms, "type", encode_type(&a.ty));
    assert(members(ms@) =~= argument_json(a@)->Object_0);
    Json::Object(ms)
}

/// Encodes parameters as an array.
fn encode_arguments(items: &Vec<Argument>) -> (r: Json)
    ensures
        r@ == JsonModel::Array(items@.map_values(|x: Argument| x@).map_values(|m: ArgumentModel| argument_json(m))),
{
    let mut out: Vec<Json> = Vec::new();
    let mut i: usize = 0;
    while i < items.len()
        invariant
            0 <= i <= items.len(),
            elements(out@) =~= items@.take(i as int).map_values(|x: Argument| argument_json(x@)),
        decreases items.len() - i,
    {
        push_element(&mut out, encode_argument(&items[i]));
        assert(items@.take(i + 1) =~= items@.take(i as int).push(items@[i as int]));
        i = i + 1;
    }
    assert(items@.take(i as int) =~= items@);
    assert(items@.map_values(|x: Argument| argument_json(x@)) =~= items@.map_values(|x: Argument| x@).map_values(|m: ArgumentModel| argument_json(m)));
    Json::Array(out)
}

/// Encodes code items as an array.
fn encode_codes(items: &Vec<Code>) -> (r: Json)
    ensures
        r@ == JsonModel::Array(items@.map_values(|x: Code| x@).map_values(|m: CodeModel| code_json(m))),
{
    let mut out: Vec<Json> = Vec::new();
    let mut i: usize = 0;
    while i < items.len()
        invariant
            0 <= i <= items.len(),
            elements(out@) =~= items@.take(i as int).map_values(|x: Code| code_json(x@)),
        decreases items.len() - i,
    {
        push_element(&mut out, encode_code(&items[i]));
        assert(items@.take(i + 1) =~= items@.take(i as int).push(items@[i as int]));
        i = i + 1;
    }
    assert(items@.take(i as int) =~= items@);
    assert(items@.map_values(|x: Code| code_json(x@)) =~= items@.map_values(|x: Code| x@).map_values(|m: CodeModel| code_json(m)));
    Json::Array(out)
}

/// Encodes a function, leaving out empty `args` and `instrs` and an absent
/// return type.
pub fn encode_function(f: &Function) -> (r: Json)
    ensures
        r@ == function_json(f@),
{
    let mut ms: Vec<(String, Json)> = Vec::new();
    push_member(&mut ms, "name", Json::Str(f.name.clone()));
    let ghost m0 = members(ms@);
    if f.args.len() > 0 {
        push_member(&mut ms, "args", encode_arguments(&f.args));
    }
    let ghost m1 = members(ms@);
    assert(m1 =~= m0 + (if f@.args.len() == 0 {
        seq![]
    } else {
        seq![("args"@, JsonModel::Array(f@.args.map_values(|a: ArgumentModel| argument_json(a))))]
    }));
    match &f.return_type {
        Some(t) => {
            push_member(&mut ms, "type", encode_type(t));
        },
        None => {},
    }
    let ghost m2 = members(ms@);
    assert(m2 =~= m1 + (match f@.return_type {
        Some(t) => seq![("type"@, type_json(t))],
        None => seq![],
    }));
    if f.instrs.len() > 0 {
        push_member(&mut ms, "instrs", encode_codes(&f.instrs));
    }
    let ghost m3 = members(ms@);
    assert(m3 =~= m2 + (if f@.instrs.len() == 0 {
        seq![]
    } else {
        seq![("instrs"@, JsonModel::Array(f@.instrs.map_values(|c: CodeModel| code_json(c))))]
    }));
    assert(members(ms@) =~= function_json(f@)->Object_0);
    Json::Object(ms)
}

/// Encodes functions as an array.
fn encode_functions(items: &Vec<Function>) -> (r: Json)
    ensures
        r@ == JsonModel::Array(items@.map_values(|x: Function| x@).map_values(|m: FunctionModel| function_json(m))),
{
    let mut out: Vec<Json> = Vec::new();
    let mut i: usize = 0;
    while i < items.len()
        invariant
            0 <= i <= items.len(),
            elements(out@) =~= items@.take(i as int).map_values(|x: Function| function_json(x@)),
        decreases items.len() - i,
    {
        push_element(&mut out, encode_function(&items[i]));
        assert(items@.take(i + 1) =~= items@.take(i as int).push(items@[i as int]));
        i = i + 1;
    }
    assert(items@.take(i as int) =~= items@);
    assert(items@.map_values(|x: Function| function_json(x@)) =~= items@.map_values(|x: Function| x@).map_values(|m: FunctionModel| function_json(m)));
    Json::Array(out)
}

/// Encodes a program in its canonical form.
pub fn encode_program(p: &Program) -> (r: Json)
    ensures
        r@ == program_json(p@),
{
    let mut ms: Vec<(String, Json)> = Vec::new();
    push_member(&mut ms, "functions", encode_functions(&p.functions));
    assert(members(ms@) =~= program_json(p@)->Object_0);
    Json::Object(ms)
}

} // verus!
