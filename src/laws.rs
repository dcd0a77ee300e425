use vstd::prelude::*;
use crate::decode::{
    after, argument_of, effect_of, value_of, arguments_of, code_of, codes_of, function_of, functions_of, instruction_of,
    literal_of, member_of, names_member, names_of, program_of, type_of, DecodeErrorModel, Outcome,
};
use crate::encode::{
    argument_json, code_json, function_json, instruction_json, literal_json, names_entry,
    names_json, program_json, type_json,
};
use crate::ir::{
    code_allowed, function_allowed, instruction_allowed, literal_allowed, program_allowed,
    type_allowed, ArgumentModel, CodeModel, FunctionModel, InstructionModel, Literal,
    ProgramModel, Type,
};
use crate::json::JsonModel;
use crate::ops::{Capabilities, ConstOps, EffectOps, ValueOps};

verus! {

/// The member names and type spellings of the encoding are pairwise distinct.
proof fn lemma_words_distinct()
    ensures
        "op"@ != "dest"@,
        "op"@ != "type"@,
        "op"@ != "value"@,
        "op"@ != "args"@,
        "op"@ != "funcs"@,
        "op"@ != "labels"@,
        "op"@ != "label"@,
        "dest"@ != "type"@,
        "dest"@ != "value"@,
        "dest"@ != "args"@,
        "dest"@ != "funcs"@,
        "dest"@ != "labels"@,
        "dest"@ != "label"@,
        "type"@ != "value"@,
        "type"@ != "args"@,
        "type"@ != "funcs"@,
        "type"@ != "labels"@,
        "type"@ != "label"@,
        "value"@ != "label"@,
        "args"@ != "funcs"@,
        "args"@ != "labels"@,
        "args"@ != "label"@,
        "funcs"@ != "labels"@,
        "funcs"@ != "label"@,
        "labels"@ != "label"@,
        "name"@ != "args"@,
        "name"@ != "type"@,
        "name"@ != "instrs"@,
        "args"@ != "instrs"@,
        "type"@ != "instrs"@,
        "int"@ != "bool"@,
        "int"@ != "float"@,
        "bool"@ != "float"@,
{
    reveal_strlit("op");
    reveal_strlit("dest");
    reveal_strlit("type");
    reveal_strlit("value");
    reveal_strlit("args");
    reveal_strlit("funcs");
    reveal_strlit("labels");
    reveal_strlit("label");
    reveal_strlit("name");
    reveal_strlit("instrs");
    reveal_strlit("int");
    reveal_strlit("bool");
    reveal_strlit("float");
    assert("op"@.len() != "dest"@.len());
    assert("op"@.len() != "type"@.len());
    assert("op"@.len() != "value"@.len());
    assert("op"@.len() != "args"@.len());
    assert("op"@.len() != "funcs"@.len());
    assert("op"@.len() != "labels"@.len());
    assert("op"@.len() != "label"@.len());
    assert("dest"@[0] != "type"@[0]);
    assert("dest"@.len() != "value"@.len());
    assert("dest"@[0] != "args"@[0]);
    assert("dest"@.len() != "funcs"@.len());
    assert("dest"@.len() != "labels"@.len());
    assert("dest"@.len() != "label"@.len());
    assert("type"@.len() != "value"@.len());
    assert("type"@[0] != "args"@[0]);
    assert("type"@.len() != "funcs"@.len());
    assert("type"@.len() != "labels"@.len());
    assert("type"@.len() != "label"@.len());
    assert("value"@[0] != "label"@[0]);
    assert("args"@.len() != "funcs"@.len());
    assert("args"@.len() != "labels"@.len());
    assert("args"@.len() != "label"@.len());
    assert("funcs"@.len() != "labels"@.len());
    assert("funcs"@[0] != "label"@[0]);
    assert("labels"@.len() != "label"@.len());
    assert("name"@[0] != "args"@[0]);
    assert("name"@[0] != "type"@[0]);
    assert("name"@.len() != "instrs"@.len());
    assert("args"@.len() != "instrs"@.len());
    assert("type"@.len() != "instrs"@.len());
    assert("int"@.len() != "bool"@.len());
    assert("int"@.len() != "float"@.len());
    assert("bool"@.len() != "float"@.len());
}

/// A key that no member has is not found.
proof fn lemma_member_absent(ms: Seq<(Seq<char>, JsonModel)>, key: Seq<char>)
    requires
        forall|k: int| 0 <= k < ms.len() ==> ms[k].0 != key,
    ensures
        member_of(ms, key) is None,
    decreases ms.len(),
{
    if ms.len() > 0 {
        assert(ms[0].0 != key);
        lemma_member_absent(ms.drop_first(), key);
    }
}

/// The first member with a key is the one found.
proof fn lemma_member_at(ms: Seq<(Seq<char>, JsonModel)>, key: Seq<char>, k: int)
    requires
        0 <= k < ms.len(),
        ms[k].0 == key,
        forall|j: int| 0 <= j < k ==> ms[j].0 != key,
    ensures
        member_of(ms, key) == Some(ms[k].1),
    decreases k,
{
    if k > 0 {
        assert(ms[0].0 != key);
        lemma_member_at(ms.drop_first(), key, k - 1);
    }
}

/// An encoded type decodes to itself.
pub proof fn lemma_type_round_trip(t: Type, caps: Capabilities)
    requires
        type_allowed(t, caps),
    ensures
        type_of(type_json(t), caps) == Ok::<Type, DecodeErrorModel>(t),
    decreases t,
{
    lemma_words_distinct();
    reveal_strlit("ptr");
    if let Type::Pointer(inner) = t {
        lemma_type_round_trip(*inner, caps);
    }
}

/// No member of `ms` is named `key`.
pub open spec fn lacks(ms: Seq<(Seq<char>, JsonModel)>, key: Seq<char>) -> bool {
    forall|k: int| 0 <= k < ms.len() ==> #[trigger] ms[k].0 != key
}

proof fn lemma_lacks_concat(a: Seq<(Seq<char>, JsonModel)>, b: Seq<(Seq<char>, JsonModel)>, key: Seq<char>)
    requires
        lacks(a, key),
        lacks(b, key),
    ensures
        lacks(a + b, key),
{
    assert forall|k: int| 0 <= k < (a + b).len() implies #[trigger] (a + b)[k].0 != key by {
        if k < a.len() {
            assert((a + b)[k] == a[k]);
        } else {
            assert((a + b)[k] == b[k - a.len()]);
        }
    }
}

proof fn lemma_entry_lacks(name: Seq<char>, names: Seq<Seq<char>>, key: Seq<char>)
    requires
        name != key,
    ensures
        lacks(names_entry(name, names), key),
{
}

/// The member right after a prefix that lacks its key is the one found.
proof fn lemma_member_after(
    prefix: Seq<(Seq<char>, JsonModel)>,
    key: Seq<char>,
    v: JsonModel,
    suffix: Seq<(Seq<char>, JsonModel)>,
)
    requires
        lacks(prefix, key),
    ensures
        member_of(prefix + seq![(key, v)] + suffix, key) == Some(v),
{
    let ms = prefix + seq![(key, v)] + suffix;
    assert(ms[prefix.len() as int] == (key, v));
    assert forall|j: int| 0 <= j < prefix.len() implies ms[j].0 != key by {
        assert(ms[j] == prefix[j]);
    }
    lemma_member_at(ms, key, prefix.len() as int);
}

/// A list of names decodes from its array.
proof fn lemma_names_round_trip(names: Seq<Seq<char>>)
    ensures
        names_of(names_json(names)->Array_0) == Ok::<Seq<Seq<char>>, DecodeErrorModel>(names),
    decreases names.len(),
{
    let items = names_json(names)->Array_0;
    if names.len() == 0 {
        assert(names =~= seq![]);
    } else {
        assert(items[0] == JsonModel::Str(names[0]));
        assert(items.drop_first() =~= names_json(names.drop_first())->Array_0);
        lemma_names_round_trip(names.drop_first());
        assert(seq![names[0]] + names.drop_first() =~= names);
    }
}

/// A list member between members of other names decodes to its list.
proof fn lemma_names_field(
    prefix: Seq<(Seq<char>, JsonModel)>,
    key: Seq<char>,
    names: Seq<Seq<char>>,
    suffix: Seq<(Seq<char>, JsonModel)>,
)
    requires
        lacks(prefix, key),
        lacks(suffix, key),
    ensures
        names_member(prefix + names_entry(key, names) + suffix, key) == Ok::<Seq<Seq<char>>, DecodeErrorModel>(names),
{
    if names.len() == 0 {
        assert(prefix + names_entry(key, names) + suffix =~= prefix + suffix);
        lemma_lacks_concat(prefix, suffix, key);
        lemma_member_absent(prefix + suffix, key);
        assert(names =~= seq![]);
    } else {
        lemma_member_after(prefix, key, names_json(names), suffix);
        lemma_names_round_trip(names);
    }
}

/// An encoded literal decodes to itself.
proof fn lemma_literal_round_trip(l: Literal, caps: Capabilities)
    requires
        literal_allowed(l, caps),
    ensures
        literal_of(literal_json(l), caps) == Ok::<Literal, DecodeErrorModel>(l),
{
}

/// An encoded instruction decodes to itself.
pub proof fn lemma_instruction_round_trip(i: InstructionModel, caps: Capabilities)
    requires
        instruction_allowed(i, caps),
    ensures
        instruction_json(i) is Object,
        instruction_of(instruction_json(i)->Object_0, caps) == Ok::<InstructionModel, DecodeErrorModel>(i),
{
    lemma_words_distinct();
    let ms = instruction_json(i)->Object_0;
    match i {
        InstructionModel::Constant { op, dest, ty, value } => {
            reveal_strlit("const");
            lemma_member_at(ms, "op"@, 0);
            lemma_member_at(ms, "dest"@, 1);
            lemma_member_at(ms, "type"@, 2);
            lemma_member_at(ms, "value"@, 3);
            ConstOps::lemma_accepted_spelling(op, caps);
            lemma_type_round_trip(ty, caps);
            lemma_literal_round_trip(value, caps);
        },
        InstructionModel::Value { op, dest, ty, args, funcs, labels } => {
            let head = seq![
                ("op"@, JsonModel::Str(op.spelling())),
                ("dest"@, JsonModel::Str(dest)),
                ("type"@, type_json(ty)),
            ];
            let ea = names_entry("args"@, args);
            let ef = names_entry("funcs"@, funcs);
            let el = names_entry("labels"@, labels);
            lemma_member_at(ms, "op"@, 0);
            lemma_member_at(ms, "dest"@, 1);
            lemma_member_at(ms, "type"@, 2);
            lemma_entry_lacks("funcs"@, funcs, "args"@);
            lemma_entry_lacks("labels"@, labels, "args"@);
            lemma_lacks_concat(ef, el, "args"@);
            assert(ms =~= head + ea + (ef + el));
            lemma_names_field(head, "args"@, args, ef + el);
            lemma_entry_lacks("args"@, args, "funcs"@);
            lemma_lacks_concat(head, ea, "funcs"@);
            lemma_entry_lacks("labels"@, labels, "funcs"@);
            assert(ms =~= (head + ea) + ef + el);
            lemma_names_field(head + ea, "funcs"@, funcs, el);
            lemma_entry_lacks("args"@, args, "labels"@);
            lemma_entry_lacks("funcs"@, funcs, "labels"@);
            lemma_lacks_concat(head, ea, "labels"@);
            lemma_lacks_concat(head + ea, ef, "labels"@);
            assert(ms =~= (head + ea + ef) + el + seq![]);
            lemma_names_field(head + ea + ef, "labels"@, labels, seq![]);
            ValueOps::lemma_not_constant(op, caps);
            ValueOps::lemma_accepted_spelling(op, caps);
            lemma_type_round_trip(ty, caps);
        },
        InstructionModel::Effect { op, args, funcs, labels } => {
            let head = seq![("op"@, JsonModel::Str(op.spelling()))];
            let ea = names_entry("args"@, args);
            let ef = names_entry("funcs"@, funcs);
            let el = names_entry("labels"@, labels);
            lemma_member_at(ms, "op"@, 0);
            lemma_entry_lacks("funcs"@, funcs, "args"@);
            lemma_entry_lacks("labels"@, labels, "args"@);
            lemma_lacks_concat(ef, el, "args"@);
            assert(ms =~= head + ea + (ef + el));
            lemma_names_field(head, "args"@, args, ef + el);
            lemma_entry_lacks("args"@, args, "funcs"@);
            lemma_lacks_concat(head, ea, "funcs"@);
            lemma_entry_lacks("labels"@, labels, "funcs"@);
            assert(ms =~= (head + ea) + ef + el);
            lemma_names_field(head + ea, "funcs"@, funcs, el);
            lemma_entry_lacks("args"@, args, "labels"@);
            lemma_entry_lacks("funcs"@, funcs, "labels"@);
            lemma_lacks_concat(head, ea, "labels"@);
            lemma_lacks_concat(head + ea, ef, "labels"@);
            assert(ms =~= (head + ea + ef) + el + seq![]);
            lemma_names_field(head + ea + ef, "labels"@, labels, seq![]);
            lemma_entry_lacks("args"@, args, "dest"@);
            lemma_entry_lacks("funcs"@, funcs, "dest"@);
            lemma_entry_lacks("labels"@, labels, "dest"@);
            lemma_lacks_concat(head, ea, "dest"@);
            lemma_lacks_concat(head + ea, ef, "dest"@);
            lemma_lacks_concat(head + ea + ef, el, "dest"@);
            lemma_member_absent(ms, "dest"@);
            EffectOps::lemma_not_constant(op, caps);
            EffectOps::lemma_accepted_spelling(op, caps);
        },
    }
}

/// No encoded instruction has a `label` member.
proof fn lemma_instruction_lacks_label(i: InstructionModel)
    ensures
        instruction_json(i) is Object,
        lacks(instruction_json(i)->Object_0, "label"@),
{
    lemma_words_distinct();
    match i {
        InstructionModel::Constant { .. } => {},
        InstructionModel::Value { op, dest, ty, args, funcs, labels } => {
            let head = seq![
                ("op"@, JsonModel::Str(op.spelling())),
                ("dest"@, JsonModel::Str(dest)),
                ("type"@, type_json(ty)),
            ];
            lemma_entry_lacks("args"@, args, "label"@);
            lemma_entry_lacks("funcs"@, funcs, "label"@);
            lemma_entry_lacks("labels"@, labels, "label"@);
            lemma_lacks_concat(head, names_entry("args"@, args), "label"@);
            lemma_lacks_concat(head + names_entry("args"@, args), names_entry("funcs"@, funcs), "label"@);
            lemma_lacks_concat(
                head + names_entry("args"@, args) + names_entry("funcs"@, funcs),
                names_entry("labels"@, labels),
                "label"@,
            );
        },
        InstructionModel::Effect { op, args, funcs, labels } => {
            let head = seq![("op"@, JsonModel::Str(op.spelling()))];
            lemma_entry_lacks("args"@, args, "label"@);
            lemma_entry_lacks("funcs"@, funcs, "label"@);
            lemma_entry_lacks("labels"@, labels, "label"@);
            lemma_lacks_concat(head, names_entry("args"@, args), "label"@);
            lemma_lacks_concat(head + names_entry("args"@, args), names_entry("funcs"@, funcs), "label"@);
            lemma_lacks_concat(
                head + names_entry("args"@, args) + names_entry("funcs"@, funcs),
                names_entry("labels"@, labels),
                "label"@,
            );
        },
    }
}

/// An encoded code item decodes to itself.
pub proof fn lemma_code_round_trip(c: CodeModel, caps: Capabilities)
    requires
        code_allowed(c, caps),
    ensures
        code_of(code_json(c), caps) == Ok::<CodeModel, DecodeErrorModel>(c),
{
    match c {
        CodeModel::Label { label } => {
            lemma_member_at(code_json(c)->Object_0, "label"@, 0);
        },
        CodeModel::Instruction(i) => {
            lemma_instruction_lacks_label(i);
            lemma_member_absent(instruction_json(i)->Object_0, "label"@);
            lemma_instruction_round_trip(i, caps);
        },
    }
}

/// An encoded parameter decodes to itself.
proof fn lemma_argument_round_trip(a: ArgumentModel, caps: Capabilities)
    requires
        type_allowed(a.ty, caps),
    ensures
        argument_of(argument_json(a), caps) == Ok::<ArgumentModel, DecodeErrorModel>(a),
{
    lemma_words_distinct();
    lemma_member_at(argument_json(a)->Object_0, "name"@, 0);
    lemma_member_at(argument_json(a)->Object_0, "type"@, 1);
    lemma_type_round_trip(a.ty, caps);
}

proof fn lemma_arguments_round_trip(args: Seq<ArgumentModel>, caps: Capabilities)
    requires
        forall|k: int| 0 <= k < args.len() ==> type_allowed(#[trigger] args[k].ty, caps),
    ensures
        arguments_of(args.map_values(|a: ArgumentModel| argument_json(a)), caps) == Ok::<Seq<ArgumentModel>, DecodeErrorModel>(args),
    decreases args.len(),
{
    let items = args.map_values(|a: ArgumentModel| argument_json(a));
    if args.len() == 0 {
        assert(args =~= seq![]);
    } else {
        assert(type_allowed(args[0].ty, caps));
        lemma_argument_round_trip(args[0], caps);
        assert(items.drop_first() =~= args.drop_first().map_values(|a: ArgumentModel| argument_json(a)));
        assert forall|k: int| 0 <= k < args.drop_first().len() implies type_allowed(#[trigger] args.drop_first()[k].ty, caps) by {
            assert(args.drop_first()[k] == args[k + 1]);
        }
        lemma_arguments_round_trip(args.drop_first(), caps);
        assert(seq![args[0]] + args.drop_first() =~= args);
    }
}

proof fn lemma_codes_round_trip(codes: Seq<CodeModel>, caps: Capabilities)
    requires
        forall|k: int| 0 <= k < codes.len() ==> code_allowed(#[trigger] codes[k], caps),
    ensures
        codes_of(codes.map_values(|c: CodeModel| code_json(c)), caps) == Ok::<Seq<CodeModel>, DecodeErrorModel>(codes),
    decreases codes.len(),
{
    let items = codes.map_values(|c: CodeModel| code_json(c));
    if codes.len() == 0 {
        assert(codes =~= seq![]);
    } else {
        assert(code_allowed(codes[0], caps));
        lemma_code_round_trip(codes[0], caps);
        assert(items.drop_first() =~= codes.drop_first().map_values(|c: CodeModel| code_json(c)));
        assert forall|k: int| 0 <= k < codes.drop_first().len() implies code_allowed(#[trigger] codes.drop_first()[k], caps) by {
            assert(codes.drop_first()[k] == codes[k + 1]);
        }
        lemma_codes_round_trip(codes.drop_first(), caps);
        assert(seq![codes[0]] + codes.drop_first() =~= codes);
    }
}

/// An encoded function decodes to itself.
pub proof fn lemma_function_round_trip(f: FunctionModel, caps: Capabilities)
    requires
        function_allowed(f, caps),
    ensures
        function_of(function_json(f), caps) == Ok::<FunctionModel, DecodeErrorModel>(f),
{
    lemma_words_distinct();
    let ms = function_json(f)->Object_0;
    let n = seq![("name"@, JsonModel::Str(f.name))];
    let ea: Seq<(Seq<char>, JsonModel)> = if f.args.len() == 0 {
        seq![]
    } else {
        seq![("args"@, JsonModel::Array(f.args.map_values(|a: ArgumentModel| argument_json(a))))]
    };
    let et: Seq<(Seq<char>, JsonModel)> = match f.return_type {
        Some(t) => seq![("type"@, type_json(t))],
        None => seq![],
    };
    let ei: Seq<(Seq<char>, JsonModel)> = if f.instrs.len() == 0 {
        seq![]
    } else {
        seq![("instrs"@, JsonModel::Array(f.instrs.map_values(|c: CodeModel| code_json(c))))]
    };
    assert(ms =~= n + ea + et + ei);
    lemma_member_at(ms, "name"@, 0);
    if f.args.len() == 0 {
        lemma_lacks_concat(n, ea, "args"@);
        lemma_lacks_concat(n + ea, et, "args"@);
        lemma_lacks_concat(n + ea + et, ei, "args"@);
        lemma_member_absent(ms, "args"@);
        assert(f.args =~= seq![]);
    } else {
        assert(ms =~= n + seq![ea[0]] + (et + ei));
        lemma_member_after(n, "args"@, ea[0].1, et + ei);
        lemma_arguments_round_trip(f.args, caps);
    }
    lemma_lacks_concat(n, ea, "type"@);
    if let Some(t) = f.return_type {
        assert(ms =~= (n + ea) + seq![et[0]] + ei);
        lemma_member_after(n + ea, "type"@, et[0].1, ei);
        lemma_type_round_trip(t, caps);
    } else {
        lemma_lacks_concat(n + ea, et, "type"@);
        lemma_lacks_concat(n + ea + et, ei, "type"@);
        lemma_member_absent(ms, "type"@);
    }
    lemma_lacks_concat(n, ea, "instrs"@);
    lemma_lacks_concat(n + ea, et, "instrs"@);
    if f.instrs.len() == 0 {
        lemma_lacks_concat(n + ea + et, ei, "instrs"@);
        lemma_member_absent(ms, "instrs"@);
        assert(f.instrs =~= seq![]);
    } else {
        assert(ms =~= (n + ea + et) + seq![ei[0]] + seq![]);
        lemma_member_after(n + ea + et, "instrs"@, ei[0].1, seq![]);
        lemma_codes_round_trip(f.instrs, caps);
    }
}

proof fn lemma_functions_round_trip(fs: Seq<FunctionModel>, caps: Capabilities)
    requires
        forall|k: int| 0 <= k < fs.len() ==> function_allowed(#[trigger] fs[k], caps),
    ensures
        functions_of(fs.map_values(|f: FunctionModel| function_json(f)), caps) == Ok::<Seq<FunctionModel>, DecodeErrorModel>(fs),
    decreases fs.len(),
{
    let items = fs.map_values(|f: FunctionModel| function_json(f));
    if fs.len() == 0 {
        assert(fs =~= seq![]);
    } else {
        assert(function_allowed(fs[0], caps));
        lemma_function_round_trip(fs[0], caps);
        assert(items.drop_first() =~= fs.drop_first().map_values(|f: FunctionModel| function_json(f)));
        assert forall|k: int| 0 <= k < fs.drop_first().len() implies function_allowed(#[trigger] fs.drop_first()[k], caps) by {
            assert(fs.drop_first()[k] == fs[k + 1]);
        }
        lemma_functions_round_trip(fs.drop_first(), caps);
        assert(seq![fs[0]] + fs.drop_first() =~= fs);
    }
}

/// Decoding the encoding of a program gives the program back, for every
/// program whose operations, types and literals the capabilities admit.
pub proof fn lemma_round_trip(p: ProgramModel, caps: Capabilities)
    requires
        program_allowed(p, caps),
    ensures
        program_of(program_json(p), caps) == Ok::<ProgramModel, DecodeErrorModel>(p),
{
    lemma_member_at(program_json(p)->Object_0, "functions"@, 0);
    lemma_functions_round_trip(p.functions, caps);
}

/// Only `call` is spelled both as a value and as an effect operation.
proof fn lemma_value_not_effect(op: ValueOps, o: EffectOps)
    requires
        op != ValueOps::Call,
    ensures
        o.spelling() != op.spelling(),
{
    reveal_strlit("add");
    reveal_strlit("alloc");
    reveal_strlit("and");
    reveal_strlit("br");
    reveal_strlit("call");
    reveal_strlit("commit");
    reveal_strlit("div");
    reveal_strlit("eq");
    reveal_strlit("fadd");
    reveal_strlit("fdiv");
    reveal_strlit("feq");
    reveal_strlit("fge");
    reveal_strlit("fgt");
    reveal_strlit("fle");
    reveal_strlit("flt");
    reveal_strlit("fmul");
    reveal_strlit("free");
    reveal_strlit("fsub");
    reveal_strlit("ge");
    reveal_strlit("gt");
    reveal_strlit("guard");
    reveal_strlit("id");
    reveal_strlit("jmp");
    reveal_strlit("le");
    reveal_strlit("load");
    reveal_strlit("lt");
    reveal_strlit("mul");
    reveal_strlit("nop");
    reveal_strlit("not");
    reveal_strlit("or");
    reveal_strlit("phi");
    reveal_strlit("print");
    reveal_strlit("ptradd");
    reveal_strlit("ret");
    reveal_strlit("speculate");
    reveal_strlit("store");
    reveal_strlit("sub");
    if o.spelling() == op.spelling() {
        assert(op.spelling().len() == o.spelling().len());
        if op.spelling().len() > 0 {
            assert(op.spelling()[0] == o.spelling()[0]);
        }
        if op.spelling().len() > 1 {
            assert(op.spelling()[1] == o.spelling()[1]);
        }
        if op.spelling().len() > 2 {
            assert(op.spelling()[2] == o.spelling()[2]);
        }
        if op.spelling().len() > 3 {
            assert(op.spelling()[3] == o.spelling()[3]);
        }
        if op.spelling().len() > 4 {
            assert(op.spelling()[4] == o.spelling()[4]);
        }
        if op.spelling().len() > 5 {
            assert(op.spelling()[5] == o.spelling()[5]);
        }
        if op.spelling().len() > 6 {
            assert(op.spelling()[6] == o.spelling()[6]);
        }
        if op.spelling().len() > 7 {
            assert(op.spelling()[7] == o.spelling()[7]);
        }
        if op.spelling().len() > 8 {
            assert(op.spelling()[8] == o.spelling()[8]);
        }
        match op {
            ValueOps::Add => {
                assert(op.spelling() =~= "add"@);
            },
            ValueOps::Sub => {
                assert(op.spelling() =~= "sub"@);
            },
            ValueOps::Mul => {
                assert(op.spelling() =~= "mul"@);
            },
            ValueOps::Div => {
                assert(op.spelling() =~= "div"@);
            },
            ValueOps::Eq => {
                assert(op.spelling() =~= "eq"@);
            },
            ValueOps::Lt => {
                assert(op.spelling() =~= "lt"@);
            },
            ValueOps::Gt => {
                assert(op.spelling() =~= "gt"@);
            },
            ValueOps::Le => {
                assert(op.spelling() =~= "le"@);
            },
            ValueOps::Ge => {
                assert(op.spelling() =~= "ge"@);
            },
            ValueOps::Not => {
                assert(op.spelling() =~= "not"@);
            },
            ValueOps::And => {
                assert(op.spelling() =~= "and"@);
            },
            ValueOps::Or => {
                assert(op.spelling() =~= "or"@);
            },
            ValueOps::Call => {
                assert(op.spelling() =~= "call"@);
            },
            ValueOps::Id => {
                assert(op.spelling() =~= "id"@);
            },
            ValueOps::Phi => {
                assert(op.spelling() =~= "phi"@);
            },
            ValueOps::Fadd => {
                assert(op.spelling() =~= "fadd"@);
            },
            ValueOps::Fsub => {
                assert(op.spelling() =~= "fsub"@);
            },
            ValueOps::Fmul => {
                assert(op.spelling() =~= "fmul"@);
            },
            ValueOps::Fdiv => {
                assert(op.spelling() =~= "fdiv"@);
            },
            ValueOps::Feq => {
                assert(op.spelling() =~= "feq"@);
            },
            ValueOps::Flt => {
                assert(op.spelling() =~= "flt"@);
            },
            ValueOps::Fgt => {
                assert(op.spelling() =~= "fgt"@);
            },
            ValueOps::Fle => {
                assert(op.spelling() =~= "fle"@);
            },
            ValueOps::Fge => {
                assert(op.spelling() =~= "fge"@);
            },
            ValueOps::Alloc => {
                assert(op.spelling() =~= "alloc"@);
            },
            ValueOps::Load => {
                assert(op.spelling() =~= "load"@);
            },
            ValueOps::PtrAdd => {
                assert(op.spelling() =~= "ptradd"@);
            },
        }
    }
}

/// Only `call` is spelled both as an effect and as a value operation.
proof fn lemma_effect_not_value(op: EffectOps, o: ValueOps)
    requires
        op != EffectOps::Call,
    ensures
        o.spelling() != op.spelling(),
{
    reveal_strlit("add");
    reveal_strlit("alloc");
    reveal_strlit("and");
    reveal_strlit("br");
    reveal_strlit("call");
    reveal_strlit("commit");
    reveal_strlit("div");
    reveal_strlit("eq");
    reveal_strlit("fadd");
    reveal_strlit("fdiv");
    reveal_strlit("feq");
    reveal_strlit("fge");
    reveal_strlit("fgt");
    reveal_strlit("fle");
    reveal_strlit("flt");
    reveal_strlit("fmul");
    reveal_strlit("free");
    reveal_strlit("fsub");
    reveal_strlit("ge");
    reveal_strlit("gt");
    reveal_strlit("guard");
    reveal_strlit("id");
    reveal_strlit("jmp");
    reveal_strlit("le");
    reveal_strlit("load");
    reveal_strlit("lt");
    reveal_strlit("mul");
    reveal_strlit("nop");
    reveal_strlit("not");
    reveal_strlit("or");
    reveal_strlit("phi");
    reveal_strlit("print");
    reveal_strlit("ptradd");
    reveal_strlit("ret");
    reveal_strlit("speculate");
    reveal_strlit("store");
    reveal_strlit("sub");
    if o.spelling() == op.spelling() {
        assert(op.spelling().len() == o.spelling().len());
        if op.spelling().len() > 0 {
            assert(op.spelling()[0] == o.spelling()[0]);
        }
        if op.spelling().len() > 1 {
            assert(op.spelling()[1] == o.spelling()[1]);
        }
        if op.spelling().len() > 2 {
            assert(op.spelling()[2] == o.spelling()[2]);
        }
        if op.spelling().len() > 3 {
            assert(op.spelling()[3] == o.spelling()[3]);
        }
        if op.spelling().len() > 4 {
            assert(op.spelling()[4] == o.spelling()[4]);
        }
        if op.spelling().len() > 5 {
            assert(op.spelling()[5] == o.spelling()[5]);
        }
        if op.spelling().len() > 6 {
            assert(op.spelling()[6] == o.spelling()[6]);
        }
        if op.spelling().len() > 7 {
            assert(op.spelling()[7] == o.spelling()[7]);
        }
        if op.spelling().len() > 8 {
            assert(op.spelling()[8] == o.spelling()[8]);
        }
        match op {
            EffectOps::Jump => {
                assert(op.spelling() =~= "jmp"@);
            },
            EffectOps::Branch => {
                assert(op.spelling() =~= "br"@);
            },
            EffectOps::Call => {
                assert(op.spelling() =~= "call"@);
            },
            EffectOps::Return => {
                assert(op.spelling() =~= "ret"@);
            },
            EffectOps::Print => {
                assert(op.spelling() =~= "print"@);
            },
            EffectOps::Nop => {
                assert(op.spelling() =~= "nop"@);
            },
            EffectOps::Store => {
                assert(op.spelling() =~= "store"@);
            },
            EffectOps::Free => {
                assert(op.spelling() =~= "free"@);
            },
            EffectOps::Speculate => {
                assert(op.spelling() =~= "speculate"@);
            },
            EffectOps::Commit => {
                assert(op.spelling() =~= "commit"@);
            },
            EffectOps::Guard => {
                assert(op.spelling() =~= "guard"@);
            },
        }
    }
}

/// No member holds an empty array.
pub open spec fn no_empty_array(ms: Seq<(Seq<char>, JsonModel)>) -> bool {
    forall|k: int| 0 <= k < ms.len() ==> #[trigger] ms[k].1 != JsonModel::Array(seq![])
}

proof fn lemma_no_empty_concat(a: Seq<(Seq<char>, JsonModel)>, b: Seq<(Seq<char>, JsonModel)>)
    requires
        no_empty_array(a),
        no_empty_array(b),
    ensures
        no_empty_array(a + b),
{
    assert forall|k: int| 0 <= k < (a + b).len() implies #[trigger] (a + b)[k].1 != JsonModel::Array(seq![]) by {
        if k < a.len() {
            assert((a + b)[k] == a[k]);
        } else {
            assert((a + b)[k] == b[k - a.len()]);
        }
    }
}

proof fn lemma_entry_not_empty(key: Seq<char>, names: Seq<Seq<char>>)
    ensures
        no_empty_array(names_entry(key, names)),
{
    if names.len() > 0 {
        assert(names_json(names)->Array_0.len() > 0);
    }
}

proof fn lemma_entries_not_empty(
    head: Seq<(Seq<char>, JsonModel)>,
    args: Seq<Seq<char>>,
    funcs: Seq<Seq<char>>,
    labels: Seq<Seq<char>>,
)
    requires
        no_empty_array(head),
    ensures
        no_empty_array(head + names_entry("args"@, args) + names_entry("funcs"@, funcs) + names_entry("labels"@, labels)),
{
    lemma_entry_not_empty("args"@, args);
    lemma_entry_not_empty("funcs"@, funcs);
    lemma_entry_not_empty("labels"@, labels);
    lemma_no_empty_concat(head, names_entry("args"@, args));
    lemma_no_empty_concat(head + names_entry("args"@, args), names_entry("funcs"@, funcs));
    lemma_no_empty_concat(
        head + names_entry("args"@, args) + names_entry("funcs"@, funcs),
        names_entry("labels"@, labels),
    );
}

/// The encoding of an instruction is minimal: no member of it holds an empty
/// array, so empty `args`, `funcs` and `labels` are left out; and an effect
/// instruction has neither a `dest` nor a `type` member.
pub proof fn lemma_minimal_encoding(i: InstructionModel)
    ensures
        instruction_json(i) is Object,
        no_empty_array(instruction_json(i)->Object_0),
        i is Effect ==> lacks(instruction_json(i)->Object_0, "dest"@),
        i is Effect ==> lacks(instruction_json(i)->Object_0, "type"@),
{
    lemma_words_distinct();
    match i {
        InstructionModel::Constant { op, dest, ty, value } => {
            let ms = instruction_json(i)->Object_0;
            assert forall|k: int| 0 <= k < ms.len() implies #[trigger] ms[k].1 != JsonModel::Array(seq![]) by {
                if let Type::Pointer(_) = ty {
                    assert(type_json(ty) is Object);
                }
            }
        },
        InstructionModel::Value { op, dest, ty, args, funcs, labels } => {
            let head = seq![
                ("op"@, JsonModel::Str(op.spelling())),
                ("dest"@, JsonModel::Str(dest)),
                ("type"@, type_json(ty)),
            ];
            assert forall|k: int| 0 <= k < head.len() implies #[trigger] head[k].1 != JsonModel::Array(seq![]) by {
                if let Type::Pointer(_) = ty {
                    assert(type_json(ty) is Object);
                }
            }
            lemma_entries_not_empty(head, args, funcs, labels);
        },
        InstructionModel::Effect { op, args, funcs, labels } => {
            let head = seq![("op"@, JsonModel::Str(op.spelling()))];
            lemma_entries_not_empty(head, args, funcs, labels);
            lemma_instruction_lacks(i, "dest"@);
            lemma_instruction_lacks(i, "type"@);
        },
    }
}

/// The encoding of a function is minimal too: empty `args` and `instrs` are
/// left out rather than written as empty arrays.
pub proof fn lemma_minimal_function(f: FunctionModel)
    ensures
        function_json(f) is Object,
        no_empty_array(function_json(f)->Object_0),
{
    let ms = function_json(f)->Object_0;
    assert forall|k: int| 0 <= k < ms.len() implies #[trigger] ms[k].1 != JsonModel::Array(seq![]) by {
        if let Some(t) = f.return_type {
            if let Type::Pointer(_) = t {
                assert(type_json(t) is Object);
            }
        }
        if f.args.len() > 0 {
            assert(f.args.map_values(|a: ArgumentModel| argument_json(a)).len() > 0);
        }
        if f.instrs.len() > 0 {
            assert(f.instrs.map_values(|c: CodeModel| code_json(c)).len() > 0);
        }
    }
}

/// The members of an effect instruction's encoding other than `op` are list
/// members.
proof fn lemma_instruction_lacks(i: InstructionModel, key: Seq<char>)
    requires
        i is Effect,
        key != "op"@,
        key != "args"@,
        key != "funcs"@,
        key != "labels"@,
    ensures
        lacks(instruction_json(i)->Object_0, key),
{
    if let InstructionModel::Effect { op, args, funcs, labels } = i {
        let head = seq![("op"@, JsonModel::Str(op.spelling()))];
        lemma_entry_lacks("args"@, args, key);
        lemma_entry_lacks("funcs"@, funcs, key);
        lemma_entry_lacks("labels"@, labels, key);
        lemma_lacks_concat(head, names_entry("args"@, args), key);
        lemma_lacks_concat(head + names_entry("args"@, args), names_entry("funcs"@, funcs), key);
        lemma_lacks_concat(
            head + names_entry("args"@, args) + names_entry("funcs"@, funcs),
            names_entry("labels"@, labels),
            key,
        );
    }
}

/// An object with a string `label` member is a label, whatever other members
/// it has.
pub proof fn lemma_label_wins(ms: Seq<(Seq<char>, JsonModel)>, label: Seq<char>, caps: Capabilities)
    requires
        member_of(ms, "label"@) == Some(JsonModel::Str(label)),
    ensures
        code_of(JsonModel::Object(ms), caps) == Ok::<CodeModel, DecodeErrorModel>(CodeModel::Label { label }),
{
}

/// An object whose operation is `call` is a value instruction when it has a
/// `dest` member and an effect instruction when it has none.
pub proof fn lemma_call_by_dest(ms: Seq<(Seq<char>, JsonModel)>, caps: Capabilities)
    requires
        member_of(ms, "op"@) == Some(JsonModel::Str("call"@)),
    ensures
        member_of(ms, "dest"@) is Some ==> instruction_of(ms, caps) == value_of(ms, ValueOps::Call, caps),
        member_of(ms, "dest"@) is None ==> instruction_of(ms, caps) == effect_of(ms, EffectOps::Call),
{
    reveal_strlit("call");
    ValueOps::lemma_not_constant(ValueOps::Call, caps);
    ValueOps::lemma_accepted_spelling(ValueOps::Call, caps);
    EffectOps::lemma_accepted_spelling(EffectOps::Call, caps);
}

/// An operation of a disabled group is refused as unsupported.
pub proof fn lemma_gated_value_op(ms: Seq<(Seq<char>, JsonModel)>, op: ValueOps, caps: Capabilities)
    requires
        !op.enabled(caps),
        member_of(ms, "op"@) == Some(JsonModel::Str(op.spelling())),
    ensures
        instruction_of(ms, caps) == Err::<InstructionModel, DecodeErrorModel>(DecodeErrorModel::UnsupportedOperation(op.spelling())),
{
    ValueOps::lemma_not_constant(op, caps);
    assert forall|o: EffectOps| o.spelling() != op.spelling() by {
        lemma_value_not_effect(op, o);
    }
    if let Some(c) = ValueOps::accepted(op.spelling(), caps) {
        ValueOps::lemma_spelling_injective(c, op);
    }
}

/// An operation of a disabled group is refused as unsupported.
pub proof fn lemma_gated_effect_op(ms: Seq<(Seq<char>, JsonModel)>, op: EffectOps, caps: Capabilities)
    requires
        !op.enabled(caps),
        member_of(ms, "op"@) == Some(JsonModel::Str(op.spelling())),
    ensures
        instruction_of(ms, caps) == Err::<InstructionModel, DecodeErrorModel>(DecodeErrorModel::UnsupportedOperation(op.spelling())),
{
    EffectOps::lemma_not_constant(op, caps);
    assert forall|o: ValueOps| o.spelling() != op.spelling() by {
        lemma_effect_not_value(op, o);
    }
    if let Some(c) = EffectOps::accepted(op.spelling(), caps) {
        EffectOps::lemma_spelling_injective(c, op);
    }
}

/// Without floats the `float` type is unknown; without memory a pointer type
/// is unknown.
pub proof fn lemma_gated_types(inner: JsonModel, caps: Capabilities)
    ensures
        !caps.float ==> type_of(JsonModel::Str("float"@), caps) == Err::<Type, DecodeErrorModel>(DecodeErrorModel::UnknownType("float"@)),
        !caps.memory ==> type_of(JsonModel::Object(seq![("ptr"@, inner)]), caps) == Err::<Type, DecodeErrorModel>(DecodeErrorModel::UnknownType("ptr"@)),
{
    lemma_words_distinct();
}

} // verus!
