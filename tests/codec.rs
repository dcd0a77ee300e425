use bril_rs::decode::{decode_code, decode_instruction, decode_type};
use bril_rs::encode::{encode_instruction, encode_type};
use bril_rs::{
    decode_program, encode_program, Argument, Capabilities, Code, ConstOps, DecodeError,
    EffectOps, Function, Instruction, Json, Literal, Program, Type, ValueOps,
};

fn to_json(v: serde_json::Value) -> Json {
    match v {
        serde_json::Value::Null => Json::Null,
        serde_json::Value::Bool(b) => Json::Bool(b),
        serde_json::Value::Number(n) => match n.as_i64() {
            Some(i) => Json::Int(i),
            None => Json::Float(n.as_f64().unwrap().to_bits()),
        },
        serde_json::Value::String(s) => Json::Str(s),
        serde_json::Value::Array(a) => Json::Array(a.into_iter().map(to_json).collect()),
        serde_json::Value::Object(m) => {
            Json::Object(m.into_iter().map(|(k, x)| (k, to_json(x))).collect())
        }
    }
}

fn from_json(j: &Json) -> serde_json::Value {
    match j {
        Json::Null => serde_json::Value::Null,
        Json::Bool(b) => serde_json::Value::Bool(*b),
        Json::Int(i) => serde_json::Value::from(*i),
        Json::Float(bits) => serde_json::Value::from(f64::from_bits(*bits)),
        Json::Str(s) => serde_json::Value::String(s.clone()),
        Json::Array(a) => serde_json::Value::Array(a.iter().map(from_json).collect()),
        Json::Object(m) => {
            serde_json::Value::Object(m.iter().map(|(k, x)| (k.clone(), from_json(x))).collect())
        }
    }
}

fn parse(text: &str) -> Json {
    to_json(serde_json::from_str(text).unwrap())
}

fn print(j: &Json) -> String {
    serde_json::to_string(&from_json(j)).unwrap()
}

fn members(text: &str) -> Vec<(String, Json)> {
    match parse(text) {
        Json::Object(ms) => ms,
        _ => panic!("not an object"),
    }
}

fn names(v: &[&str]) -> Vec<String> {
    v.iter().map(|s| s.to_string()).collect()
}

const FLOAT_ONLY: Capabilities = Capabilities { float: true, memory: false, speculate: false, ssa: false };
const MEMORY_ONLY: Capabilities = Capabilities { float: false, memory: true, speculate: false, ssa: false };

#[test]
fn end_to_end_add_and_print() {
    let text = r#"{"functions":[{"name":"main","instrs":[{"op":"const","dest":"a","type":"int","value":4},{"op":"const","dest":"b","type":"int","value":2},{"op":"add","dest":"c","type":"int","args":["a","b"]},{"op":"print","args":["c"]}]}]}"#;
    let p = decode_program(&parse(text), Capabilities::base()).unwrap();
    assert_eq!(p.functions.len(), 1);
    let f = &p.functions[0];
    assert_eq!(f.name, "main");
    assert_eq!(f.instrs.len(), 4);
    assert_eq!(
        f.instrs[0],
        Code::Instruction(Instruction::Constant {
            op: ConstOps::Const,
            dest: "a".to_string(),
            ty: Type::Int,
            value: Literal::Int(4),
        })
    );
    assert!(matches!(f.instrs[1], Code::Instruction(Instruction::Constant { value: Literal::Int(2), .. })));
    assert_eq!(
        f.instrs[2],
        Code::Instruction(Instruction::Value {
            op: ValueOps::Add,
            dest: "c".to_string(),
            ty: Type::Int,
            args: names(&["a", "b"]),
            funcs: vec![],
            labels: vec![],
        })
    );
    assert_eq!(
        f.instrs[3],
        Code::Instruction(Instruction::Effect {
            op: EffectOps::Print,
            args: names(&["c"]),
            funcs: vec![],
            labels: vec![],
        })
    );
    assert_eq!(print(&encode_program(&p)), text);
}

fn sample_program() -> Program {
    Program {
        functions: vec![
            Function {
                name: "main".to_string(),
                args: vec![],
                return_type: None,
                instrs: vec![
                    Code::Label { label: "start".to_string() },
                    Code::Instruction(Instruction::Constant {
                        op: ConstOps::Const,
                        dest: "x".to_string(),
                        ty: Type::Float,
                        value: Literal::Float(2.5f64.to_bits()),
                    }),
                    Code::Instruction(Instruction::Value {
                        op: ValueOps::Call,
                        dest: "y".to_string(),
                        ty: Type::Pointer(Box::new(Type::Bool)),
                        args: names(&["x"]),
                        funcs: names(&["helper"]),
                        labels: vec![],
                    }),
                    Code::Instruction(Instruction::Effect {
                        op: EffectOps::Branch,
                        args: names(&["c"]),
                        funcs: vec![],
                        labels: names(&["start", "end"]),
                    }),
                    Code::Instruction(Instruction::Effect {
                        op: EffectOps::Return,
                        args: vec![],
                        funcs: vec![],
                        labels: vec![],
                    }),
                ],
            },
            Function {
                name: "helper".to_string(),
                args: vec![Argument { name: "p".to_string(), ty: Type::Int }],
                return_type: Some(Type::Bool),
                instrs: vec![Code::Instruction(Instruction::Value {
                    op: ValueOps::PtrAdd,
                    dest: "q".to_string(),
                    ty: Type::Int,
                    args: names(&["p", "p"]),
                    funcs: vec![],
                    labels: vec![],
                })],
            },
        ],
    }
}

#[test]
fn round_trip_of_every_shape() {
    let p = sample_program();
    let j = encode_program(&p);
    assert_eq!(decode_program(&j, Capabilities::all()), Ok(p));
    let again = parse(&print(&j));
    assert_eq!(decode_program(&again, Capabilities::all()), Ok(sample_program()));
}

#[test]
fn round_trip_of_empty_program() {
    let p = Program { functions: vec![] };
    let j = encode_program(&p);
    assert_eq!(print(&j), r#"{"functions":[]}"#);
    assert_eq!(decode_program(&j, Capabilities::base()), Ok(p));
}

#[test]
fn encoding_leaves_out_empty_lists_and_effect_dest() {
    let ret = Instruction::Effect { op: EffectOps::Return, args: vec![], funcs: vec![], labels: vec![] };
    assert_eq!(print(&encode_instruction(&ret)), r#"{"op":"ret"}"#);
    let jmp = Instruction::Effect { op: EffectOps::Jump, args: vec![], funcs: vec![], labels: names(&["l"]) };
    assert_eq!(print(&encode_instruction(&jmp)), r#"{"op":"jmp","labels":["l"]}"#);
    let id = Instruction::Value {
        op: ValueOps::Id,
        dest: "a".to_string(),
        ty: Type::Bool,
        args: vec![],
        funcs: vec![],
        labels: vec![],
    };
    assert_eq!(print(&encode_instruction(&id)), r#"{"op":"id","dest":"a","type":"bool"}"#);
    let f = Function { name: "f".to_string(), args: vec![], return_type: None, instrs: vec![] };
    let p = Program { functions: vec![f] };
    assert_eq!(print(&encode_program(&p)), r#"{"functions":[{"name":"f"}]}"#);
}

#[test]
fn label_member_wins_over_op() {
    let j = parse(r#"{"label":"here","op":"add","dest":"x"}"#);
    assert_eq!(
        decode_code(&j, Capabilities::base()),
        Ok(Code::Label { label: "here".to_string() })
    );
    let j = parse(r#"{"op":"nop"}"#);
    assert!(matches!(decode_code(&j, Capabilities::base()), Ok(Code::Instruction(_))));
}

#[test]
fn call_with_dest_is_value_without_is_effect() {
    let with_dest = members(r#"{"op":"call","dest":"r","type":"int","funcs":["f"]}"#);
    assert_eq!(
        decode_instruction(&with_dest, Capabilities::base()),
        Ok(Instruction::Value {
            op: ValueOps::Call,
            dest: "r".to_string(),
            ty: Type::Int,
            args: vec![],
            funcs: names(&["f"]),
            labels: vec![],
        })
    );
    let without = members(r#"{"op":"call","funcs":["f"],"args":["a"]}"#);
    assert_eq!(
        decode_instruction(&without, Capabilities::base()),
        Ok(Instruction::Effect {
            op: EffectOps::Call,
            args: names(&["a"]),
            funcs: names(&["f"]),
            labels: vec![],
        })
    );
}

#[test]
fn float_group_disabled_refuses_fadd_and_float_type() {
    let fadd = members(r#"{"op":"fadd","dest":"x","type":"int","args":["a","b"]}"#);
    assert_eq!(
        decode_instruction(&fadd, Capabilities::base()),
        Err(DecodeError::UnsupportedOperation("fadd".to_string()))
    );
    assert_eq!(
        decode_type(&parse(r#""float""#), Capabilities::base()),
        Err(DecodeError::UnknownType("float".to_string()))
    );
    let c = members(r#"{"op":"const","dest":"x","type":"float","value":1}"#);
    assert_eq!(
        decode_instruction(&c, Capabilities::base()),
        Err(DecodeError::UnknownType("float".to_string()))
    );
}

#[test]
fn float_group_enabled_reads_float_constant() {
    let c = members(r#"{"op":"const","dest":"x","type":"float","value":1.5}"#);
    assert_eq!(
        decode_instruction(&c, FLOAT_ONLY),
        Ok(Instruction::Constant {
            op: ConstOps::Const,
            dest: "x".to_string(),
            ty: Type::Float,
            value: Literal::Float(1.5f64.to_bits()),
        })
    );
    let fadd = members(r#"{"op":"fadd","dest":"x","type":"float","args":["a","b"]}"#);
    assert!(matches!(
        decode_instruction(&fadd, FLOAT_ONLY),
        Ok(Instruction::Value { op: ValueOps::Fadd, .. })
    ));
}

#[test]
fn largest_int_literal_is_accepted() {
    let c = members(r#"{"op":"const","dest":"x","type":"int","value":9223372036854775807}"#);
    assert_eq!(
        decode_instruction(&c, Capabilities::base()),
        Ok(Instruction::Constant {
            op: ConstOps::Const,
            dest: "x".to_string(),
            ty: Type::Int,
            value: Literal::Int(i64::MAX),
        })
    );
    let c = members(r#"{"op":"const","dest":"x","type":"int","value":-9223372036854775808}"#);
    assert!(matches!(
        decode_instruction(&c, Capabilities::base()),
        Ok(Instruction::Constant { value: Literal::Int(i64::MIN), .. })
    ));
}

#[test]
fn int_literal_beyond_range_is_malformed() {
    let c = members(r#"{"op":"const","dest":"x","type":"int","value":9223372036854775808}"#);
    assert_eq!(decode_instruction(&c, Capabilities::base()), Err(DecodeError::MalformedLiteral));
    let c = members(r#"{"op":"const","dest":"x","type":"int","value":"7"}"#);
    assert_eq!(decode_instruction(&c, Capabilities::base()), Err(DecodeError::MalformedLiteral));
}

#[test]
fn bool_literal_is_read() {
    let c = members(r#"{"op":"const","dest":"b","type":"bool","value":true}"#);
    assert!(matches!(
        decode_instruction(&c, Capabilities::base()),
        Ok(Instruction::Constant { value: Literal::Bool(true), ty: Type::Bool, .. })
    ));
}

#[test]
fn constant_without_value_is_missing_field() {
    let c = members(r#"{"op":"const","dest":"x","type":"int"}"#);
    assert_eq!(
        decode_instruction(&c, Capabilities::base()),
        Err(DecodeError::MissingField("value".to_string()))
    );
    let c = members(r#"{"op":"const","type":"int","value":1}"#);
    assert_eq!(
        decode_instruction(&c, Capabilities::base()),
        Err(DecodeError::MissingField("dest".to_string()))
    );
}

#[test]
fn instruction_without_op_is_missing_field() {
    let c = members(r#"{"dest":"x","type":"int"}"#);
    assert_eq!(
        decode_instruction(&c, Capabilities::base()),
        Err(DecodeError::MissingField("op".to_string()))
    );
}

#[test]
fn value_op_without_dest_is_missing_field() {
    let c = members(r#"{"op":"add","args":["a","b"]}"#);
    assert_eq!(
        decode_instruction(&c, Capabilities::base()),
        Err(DecodeError::MissingField("dest".to_string()))
    );
}

#[test]
fn unknown_op_is_unsupported() {
    let c = members(r#"{"op":"frobnicate"}"#);
    assert_eq!(
        decode_instruction(&c, Capabilities::all()),
        Err(DecodeError::UnsupportedOperation("frobnicate".to_string()))
    );
}

#[test]
fn gated_groups_follow_capabilities() {
    let alloc = members(r#"{"op":"alloc","dest":"p","type":{"ptr":"int"},"args":["n"]}"#);
    assert_eq!(
        decode_instruction(&alloc, Capabilities::base()),
        Err(DecodeError::UnsupportedOperation("alloc".to_string()))
    );
    assert!(matches!(
        decode_instruction(&alloc, MEMORY_ONLY),
        Ok(Instruction::Value { op: ValueOps::Alloc, .. })
    ));
    let store = members(r#"{"op":"store","args":["p","v"]}"#);
    assert_eq!(
        decode_instruction(&store, Capabilities::base()),
        Err(DecodeError::UnsupportedOperation("store".to_string()))
    );
    let guard = members(r#"{"op":"guard","args":["c"],"labels":["l"]}"#);
    assert_eq!(
        decode_instruction(&guard, MEMORY_ONLY),
        Err(DecodeError::UnsupportedOperation("guard".to_string()))
    );
    let spec_caps = Capabilities { float: false, memory: false, speculate: true, ssa: false };
    assert!(matches!(
        decode_instruction(&guard, spec_caps),
        Ok(Instruction::Effect { op: EffectOps::Guard, .. })
    ));
    let phi = members(r#"{"op":"phi","dest":"x","type":"int","args":["a","b"],"labels":["l","m"]}"#);
    assert_eq!(
        decode_instruction(&phi, Capabilities::base()),
        Err(DecodeError::UnsupportedOperation("phi".to_string()))
    );
    let ssa_caps = Capabilities { float: false, memory: false, speculate: false, ssa: true };
    assert!(matches!(
        decode_instruction(&phi, ssa_caps),
        Ok(Instruction::Value { op: ValueOps::Phi, .. })
    ));
}

#[test]
fn nested_pointer_type_decodes_and_encodes() {
    let text = r#"{"ptr":{"ptr":"int"}}"#;
    let t = decode_type(&parse(text), MEMORY_ONLY).unwrap();
    assert_eq!(t, Type::Pointer(Box::new(Type::Pointer(Box::new(Type::Int)))));
    assert_eq!(print(&encode_type(&t)), text);
    assert_eq!(
        decode_type(&parse(text), Capabilities::base()),
        Err(DecodeError::UnknownType("ptr".to_string()))
    );
}

#[test]
fn unknown_type_spelling_is_reported() {
    assert_eq!(
        decode_type(&parse(r#""string""#), Capabilities::all()),
        Err(DecodeError::UnknownType("string".to_string()))
    );
    assert_eq!(decode_type(&parse("3"), Capabilities::all()), Err(DecodeError::MalformedDocument));
}

#[test]
fn program_shape_errors() {
    assert_eq!(decode_program(&parse("[]"), Capabilities::base()), Err(DecodeError::MalformedDocument));
    assert_eq!(
        decode_program(&parse("{}"), Capabilities::base()),
        Err(DecodeError::MissingField("functions".to_string()))
    );
    assert_eq!(
        decode_program(&parse(r#"{"functions":[{"instrs":[]}]}"#), Capabilities::base()),
        Err(DecodeError::MissingField("name".to_string()))
    );
    assert_eq!(
        decode_program(&parse(r#"{"functions":[{"name":"f","instrs":[{"op":"print","args":[1]}]}]}"#), Capabilities::base()),
        Err(DecodeError::MalformedDocument)
    );
}

#[test]
fn function_arguments_and_return_type_are_read() {
    let text = r#"{"functions":[{"name":"f","args":[{"name":"n","type":"int"}],"type":"bool","instrs":[{"op":"ret","args":["n"]}]}]}"#;
    let p = decode_program(&parse(text), Capabilities::base()).unwrap();
    let f = &p.functions[0];
    assert_eq!(f.args, vec![Argument { name: "n".to_string(), ty: Type::Int }]);
    assert_eq!(f.return_type, Some(Type::Bool));
    assert_eq!(print(&encode_program(&p)), text);
}

#[test]
fn spellings_differ_from_variant_names() {
    assert_eq!(EffectOps::Jump.text(), "jmp");
    assert_eq!(EffectOps::Branch.text(), "br");
    assert_eq!(EffectOps::Return.text(), "ret");
    assert_eq!(ValueOps::PtrAdd.text(), "ptradd");
    assert_eq!(ConstOps::Const.text(), "const");
}

#[test]
fn cloned_program_is_equal() {
    let p = sample_program();
    assert_eq!(p.clone(), p);
    let t = Type::Pointer(Box::new(Type::Pointer(Box::new(Type::Float))));
    assert_eq!(t.clone(), t);
}
