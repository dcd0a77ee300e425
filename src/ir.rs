use vstd::prelude::*;
use crate::ops::{Capabilities, ConstOps, EffectOps, ValueOps};

verus! {

/// A value type. `Float` and `Pointer` belong to optional groups.
#[derive(Debug, PartialEq, Eq, Hash)]
pub enum Type {
    Int,
    Bool,
    Float,
    Pointer(Box<Type>),
}

/// A copy of a type.
fn copy_type(t: &Type) -> (r: Type)
    ensures
        r == *t,
    decreases t,
{
    match t {
        Type::Int => Type::Int,
        Type::Bool => Type::Bool,
        Type::Float => Type::Float,
        Type::Pointer(inner) => Type::Pointer(Box::new(copy_type(inner))),
    }
}

impl Clone for Type {
    fn clone(&self) -> (r: Type)
        ensures
            r == *self,
    {
        copy_type(self)
    }
}

/// A literal value. A floating-point literal is held by the IEEE-754 bit pattern
/// of its double-precision value.
#[derive(Clone, Copy, Debug, PartialEq, Eq, Structural)]
pub enum Literal {
    Int(i64),
    Bool(bool),
    Float(u64),
}

/// A named, typed function parameter.
#[derive(Clone, Debug, PartialEq, Eq)]
pub struct Argument {
    pub name: String,
    pub ty: Type,
}

/// One instruction; which fields it has depends on its shape.
#[allow(inconsistent_fields)]
#[derive(Clone, Debug, PartialEq, Eq)]
pub enum Instruction {
    Constant { op: ConstOps, dest: String, ty: Type, value: Literal },
    Value {
        op: ValueOps,
        dest: String,
        ty: Type,
        args: Vec<String>,
        funcs: Vec<String>,
        labels: Vec<String>,
    },
    Effect { op: EffectOps, args: Vec<String>, funcs: Vec<String>, labels: Vec<String> },
}

/// One item of a function body: a label or an instruction.
#[derive(Clone, Debug, PartialEq, Eq)]
pub enum Code {
    Label { label: String },
    Instruction(Instruction),
}

/// A function: its name, parameters, optional return type and body.
#[derive(Clone, Debug, PartialEq, Eq)]
pub struct Function {
    pub name: String,
    pub args: Vec<Argument>,
    pub return_type: Option<Type>,
    pub instrs: Vec<Code>,
}

/// A program: an ordered sequence of functions.
#[derive(Clone, Debug, PartialEq, Eq)]
pub struct Program {
    pub functions: Vec<Function>,
}

/// The mathematical value of an [`Argument`].
pub ghost struct ArgumentModel {
    pub name: Seq<char>,
    pub ty: Type,
}

/// The mathematical value of an [`Instruction`]; names are character sequences.
#[allow(inconsistent_fields)]
pub ghost enum InstructionModel {
    Constant { op: ConstOps, dest: Seq<char>, ty: Type, value: Literal },
    Value {
        op: ValueOps,
        dest: Seq<char>,
        ty: Type,
        args: Seq<Seq<char>>,
        funcs: Seq<Seq<char>>,
        labels: Seq<Seq<char>>,
    },
    Effect { op: EffectOps, args: Seq<Seq<char>>, funcs: Seq<Seq<char>>, labels: Seq<Seq<char>> },
}

/// The mathematical value of a [`Code`] item.
pub ghost enum CodeModel {
    Label { label: Seq<char> },
    Instruction(InstructionModel),
}

/// The mathematical value of a [`Function`].
pub ghost struct FunctionModel {
    pub name: Seq<char>,
    pub args: Seq<ArgumentModel>,
    pub return_type: Option<Type>,
    pub instrs: Seq<CodeModel>,
}

/// The mathematical value of a [`Program`].
pub ghost struct ProgramModel {
    pub functions: Seq<FunctionModel>,
}

/// The texts of a vector of strings.
pub open spec fn texts(v: Vec<String>) -> Seq<Seq<char>> {
    v@.map_values(|s: String| s@)
}

impl View for Argument {
    type V = ArgumentModel;

    open spec fn view(&self) -> ArgumentModel {
        ArgumentModel { name: self.name@, ty: self.ty }
    }
}

impl View for Instruction {
    type V = InstructionModel;

    open spec fn view(&self) -> InstructionModel {
        match self {
            Instruction::Constant { op, dest, ty, value } => InstructionModel::Constant {
                op: *op,
                dest: dest@,
                ty: *ty,
                value: *value,
            },
            Instruction::Value { op, dest, ty, args, funcs, labels } => InstructionModel::Value {
                op: *op,
                dest: dest@,
                ty: *ty,
                args: texts(*args),
                funcs: texts(*funcs),
                labels: texts(*labels),
            },
            Instruction::Effect { op, args, funcs, labels } => InstructionModel::Effect {
                op: *op,
                args: texts(*args),
                funcs: texts(*funcs),
                labels: texts(*labels),
            },
        }
    }
}

impl View for Code {
    type V = CodeModel;

    open spec fn view(&self) -> CodeModel {
        match self {
            Code::Label { label } => CodeModel::Label { label: label@ },
            Code::Instruction(i) => CodeModel::Instruction(i@),
        }
    }
}

impl View for Function {
    type V = FunctionModel;

    open spec fn view(&self) -> FunctionModel {
        FunctionModel {
            name: self.name@,
            args: self.args@.map_values(|a: Argument| a@),
            return_type: self.return_type,
            instrs: self.instrs@.map_values(|c: Code| c@),
        }
    }
}

impl View for Program {
    type V = ProgramModel;

    open spec fn view(&self) -> ProgramModel {
        ProgramModel { functions: self.functions@.map_values(|f: Function| f@) }
    }
}

/// Whether a type lies within the capabilities.
pub open spec fn type_allowed(t: Type, caps: Capabilities) -> bool
    decreases t,
{
    match t {
        Type::Int | Type::Bool => true,
        Type::Float => caps.float,
        Type::Pointer(inner) => caps.memory && type_allowed(*inner, caps),
    }
}

/// Whether a literal lies within the capabilities.
pub open spec fn literal_allowed(l: Literal, caps: Capabilities) -> bool {
    l is Float ==> caps.float
}

/// Whether an instruction lies within the capabilities.
pub open spec fn instruction_allowed(i: InstructionModel, caps: Capabilities) -> bool {
    match i {
        InstructionModel::Constant { op, ty, value, .. } => op.enabled(caps) && type_allowed(ty, caps)
            && literal_allowed(value, caps),
        InstructionModel::Value { op, ty, .. } => op.enabled(caps) && type_allowed(ty, caps),
        InstructionModel::Effect { op, .. } => op.enabled(caps),
    }
}

/// Whether a code item lies within the capabilities.
pub open spec fn code_allowed(c: CodeModel, caps: Capabilities) -> bool {
    match c {
        CodeModel::Label { .. } => true,
        CodeModel::Instruction(i) => instruction_allowed(i, caps),
    }
}

/// Whether a function lies within the capabilities.
pub open spec fn function_allowed(f: FunctionModel, caps: Capabilities) -> bool {
    &&& forall|k: int| 0 <= k < f.args.len() ==> type_allowed(#[trigger] f.args[k].ty, caps)
    &&& (f.return_type matches Some(t) ==> type_allowed(t, caps))
    &&& forall|k: int| 0 <= k < f.instrs.len() ==> code_allowed(#[trigger] f.instrs[k], caps)
}

/// Whether a program lies within the capabilities: every operation, type and
/// literal in it belongs to an enabled group.
pub open spec fn program_allowed(p: ProgramModel, caps: Capabilities) -> bool {
    forall|k: int| 0 <= k < p.functions.len() ==> function_allowed(#[trigger] p.functions[k], caps)
}

} // verus!
