use obscura_webgl::glsl::ast::{AssignOp, DeclKind, Declaration, Expr, Shader, ShaderStage, Statement, SymbolTable, Type};
use obscura_webgl::glsl::compiler::{builtin_slot, call_op, compile_shader, hash_name, swizzle_mask};
use obscura_webgl::glsl::opcode::{Instruction, Op};
use obscura_webgl::glsl::parser::{slot_counts_fit, translate_compound, translate_expr, translate_unit};
use obscura_webgl::glsl::syntax::{
    SynAssignOp, SynBinaryOp, SynDeclaration, SynExpr, SynExternal, SynFunIdent, SynJump, SynQualifier,
    SynSelectionRest, SynSimple, SynStatement, SynStorage, SynType,
};

fn ins(op: Op, arg: u32) -> Instruction {
    Instruction { op, arg, float_val: 0 }
}

#[test]
fn names_hash_to_local_slots() {
    assert_eq!(hash_name("v"), 118);
    assert_eq!(hash_name("ab"), 33);
    assert_eq!(hash_name(""), 0);
    assert!(hash_name("a_rather_long_variable_name") < 256);
}

#[test]
fn swizzles_pack_two_bits_per_component() {
    assert_eq!(swizzle_mask("xyz"), 36 | (3 << 8));
    assert_eq!(swizzle_mask("wa"), 15 | (2 << 8));
    assert_eq!(swizzle_mask("stpq"), 0b11100100 | (4 << 8));
    assert_eq!(swizzle_mask("xyzwx"), 0b11100100 | (4 << 8));
    assert_eq!(swizzle_mask(""), 0);
}

#[test]
fn builtins_and_calls() {
    assert_eq!(builtin_slot("gl_Position"), Some(0));
    assert_eq!(builtin_slot("gl_FragDepth"), Some(5));
    assert_eq!(builtin_slot("gl_Other"), None);
    assert_eq!(call_op("dot"), Op::Dot);
    assert_eq!(call_op("vec4"), Op::Vec4);
    assert_eq!(call_op("texture2D"), Op::Texture2D);
    assert_eq!(call_op("unknown"), Op::Nop);
}

fn shader_with(body: Vec<Statement>, symbols: SymbolTable) -> Shader {
    let mut s = Shader::new(ShaderStage::Fragment);
    s.main_body = body;
    s.symbols = symbols;
    s
}

#[test]
fn compiles_an_assignment_to_a_builtin() {
    let one = 0x3f80_0000u32;
    let body = vec![Statement::Expr(Expr::Assign(
        Box::new(Expr::Ident("gl_FragColor".to_string())),
        AssignOp::Assign,
        Box::new(Expr::Call("vec4".to_string(), vec![Expr::Float(one)])),
    ))];
    let prog = compile_shader(&shader_with(body, SymbolTable::new()));
    assert_eq!(
        prog.instructions,
        vec![Instruction { op: Op::PushFloat, arg: 0, float_val: one }, ins(Op::Vec4, 0), ins(Op::StoreBuiltin, 1), ins(Op::Pop, 0)]
    );
    assert_eq!(prog.float_consts, vec![one]);
    assert_eq!(prog.entry, 0);
}

#[test]
fn compiles_if_else_with_patched_jumps() {
    let body = vec![Statement::If {
        cond: Expr::Bool(true),
        then_body: vec![Statement::Discard],
        else_body: vec![Statement::Return(None)],
    }];
    let prog = compile_shader(&shader_with(body, SymbolTable::new()));
    assert_eq!(
        prog.instructions,
        vec![ins(Op::PushBool, 1), ins(Op::JumpIfFalse, 4), ins(Op::Discard, 0), ins(Op::Jump, 5), ins(Op::Return, 0)]
    );
    let body = vec![Statement::If { cond: Expr::Bool(false), then_body: vec![Statement::Discard], else_body: vec![] }];
    let prog = compile_shader(&shader_with(body, SymbolTable::new()));
    assert_eq!(prog.instructions, vec![ins(Op::PushBool, 0), ins(Op::JumpIfFalse, 3), ins(Op::Discard, 0)]);
}

#[test]
fn compiles_symbol_loads_and_local_stores() {
    let mut symbols = SymbolTable::new();
    symbols.insert("u".to_string(), DeclKind::Uniform, 3);
    symbols.insert("v".to_string(), DeclKind::Varying, 2);
    let body = vec![
        Statement::Expr(Expr::Ident("u".to_string())),
        Statement::Expr(Expr::Assign(Box::new(Expr::Ident("ab".to_string())), AssignOp::Assign, Box::new(Expr::Int(7)))),
        Statement::Expr(Expr::Assign(Box::new(Expr::Ident("v".to_string())), AssignOp::Assign, Box::new(Expr::Int(8)))),
        Statement::Expr(Expr::Field(Box::new(Expr::Ident("gl_FragCoord".to_string())), "xy".to_string())),
    ];
    let prog = compile_shader(&shader_with(body, symbols));
    assert_eq!(
        prog.instructions,
        vec![
            ins(Op::LoadUniform, 3),
            ins(Op::Pop, 0),
            ins(Op::PushInt, 0),
            ins(Op::Store, 33),
            ins(Op::Pop, 0),
            ins(Op::PushInt, 1),
            ins(Op::StoreVarying, 2),
            ins(Op::Pop, 0),
            ins(Op::LoadBuiltin, 2),
            ins(Op::Swizzle, 4 | (2 << 8)),
            ins(Op::Pop, 0),
        ]
    );
    assert_eq!(prog.int_consts, vec![7, 8]);
}

#[test]
fn symbol_table_last_insert_wins() {
    let mut t = SymbolTable::new();
    assert_eq!(t.get("a"), None);
    t.insert("a".to_string(), DeclKind::Uniform, 1);
    t.insert("b".to_string(), DeclKind::Const, 0);
    t.insert("a".to_string(), DeclKind::Varying, 4);
    assert_eq!(t.get("a"), Some((DeclKind::Varying, 4)));
    assert_eq!(t.get("b"), Some((DeclKind::Const, 0)));
}

fn var(n: &str) -> SynExpr {
    SynExpr::Variable(n.to_string())
}

fn declaration(q: SynStorage, ty: SynType, name: &str) -> SynExternal {
    SynExternal::Declaration(SynDeclaration::InitDeclaratorList {
        ty,
        name: Some(name.to_string()),
        qualifier: Some(SynQualifier::Storage(q)),
    })
}

#[test]
fn translates_expressions() {
    let e = translate_expr(&SynExpr::Binary(SynBinaryOp::Xor, Box::new(var("a")), Box::new(SynExpr::IntConst(2))));
    assert!(matches!(e, Expr::Binary(obscura_webgl::glsl::ast::BinaryOp::BitXor, _, _)));
    let e = translate_expr(&SynExpr::FunCall(SynFunIdent::Identifier("vec2".to_string()), vec![var("x"), var("y")]));
    match e {
        Expr::Call(name, args) => {
            assert_eq!(name, "vec2");
            assert_eq!(args.len(), 2);
        },
        other => panic!("unexpected {:?}", other),
    }
    let e = translate_expr(&SynExpr::Assignment(Box::new(var("a")), SynAssignOp::Other, Box::new(var("b"))));
    assert!(matches!(e, Expr::Assign(_, AssignOp::Assign, _)));
    let e = translate_expr(&SynExpr::UIntConst(5));
    assert!(matches!(e, Expr::Int(5)));
}

#[test]
fn translates_statements_dropping_what_it_does_not_keep() {
    let list = vec![
        SynStatement::Simple(Box::new(SynSimple::Declaration)),
        SynStatement::Simple(Box::new(SynSimple::Expression(Some(var("a"))))),
        SynStatement::Simple(Box::new(SynSimple::Iteration)),
        SynStatement::Simple(Box::new(SynSimple::Jump(SynJump::Discard))),
        SynStatement::Simple(Box::new(SynSimple::Selection(
            SynExpr::BoolConst(true),
            SynSelectionRest::Statement(Box::new(SynStatement::Simple(Box::new(SynSimple::Jump(SynJump::Return(None)))))),
        ))),
    ];
    let out = translate_compound(&list);
    assert!(matches!(out[0], Statement::Expr(Expr::Ident(_))));
    assert!(matches!(out[1], Statement::Discard));
    match &out[2] {
        Statement::If { then_body, else_body, .. } => {
            assert_eq!(then_body.len(), 1);
            assert!(else_body.is_empty());
        },
        other => panic!("unexpected {:?}", other),
    }
    assert_eq!(out.len(), 3);
}

#[test]
fn translates_a_unit_with_slots_and_symbols() {
    let main_body = vec![SynStatement::Simple(Box::new(SynSimple::Expression(Some(SynExpr::Assignment(
        Box::new(var("gl_FragColor")),
        SynAssignOp::Equal,
        Box::new(var("color")),
    )))))];
    let exts = vec![
        SynExternal::Preprocessor,
        declaration(SynStorage::Uniform, SynType::Vec4, "color"),
        declaration(SynStorage::Uniform, SynType::Mat4, "mvp"),
        declaration(SynStorage::Attribute, SynType::Vec3, "pos"),
        declaration(SynStorage::Varying, SynType::Vec2, "uv"),
        declaration(SynStorage::Const, SynType::Float, "k"),
        declaration(SynStorage::Other, SynType::Float, "plain"),
        SynExternal::FunctionDefinition { name: "helper".to_string(), return_ty: SynType::Float, body: vec![] },
        SynExternal::FunctionDefinition { name: "main".to_string(), return_ty: SynType::Void, body: main_body },
    ];
    assert!(slot_counts_fit(&exts));
    let shader = translate_unit(&exts, ShaderStage::Fragment);
    assert_eq!(shader.stage, ShaderStage::Fragment);
    assert_eq!((shader.uniform_count, shader.attrib_count, shader.varying_count), (5 + 17, 4, 3));
    assert_eq!(shader.symbols.get("color"), Some((DeclKind::Uniform, 0)));
    assert_eq!(shader.symbols.get("mvp"), Some((DeclKind::Uniform, 5)));
    assert_eq!(shader.symbols.get("pos"), Some((DeclKind::Attribute, 0)));
    assert_eq!(shader.symbols.get("uv"), Some((DeclKind::Varying, 0)));
    assert_eq!(shader.symbols.get("k"), Some((DeclKind::Const, 0)));
    assert_eq!(shader.symbols.get("plain"), None);
    assert_eq!(shader.declarations.len(), 7);
    assert!(matches!(&shader.declarations[1], Declaration::Uniform { ty: Type::Mat4, location: 5, .. }));
    assert!(matches!(&shader.declarations[4], Declaration::Global { ty: Type::Float, init: None, .. }));
    assert!(matches!(&shader.declarations[6], Declaration::Function { return_ty: Type::Float, .. }));
    assert_eq!(shader.main_body.len(), 1);
    let prog = compile_shader(&shader);
    assert_eq!(prog.instructions, vec![ins(Op::LoadUniform, 0), ins(Op::StoreBuiltin, 1), ins(Op::Pop, 0)]);
}

#[test]
fn compound_assignment_loads_combines_and_stores() {
    let two = 0x4000_0000u32;
    let body = vec![Statement::Expr(Expr::Assign(
        Box::new(Expr::Ident("x".to_string())),
        AssignOp::AddAssign,
        Box::new(Expr::Float(two)),
    ))];
    let prog = compile_shader(&shader_with(body, SymbolTable::new()));
    let slot = hash_name("x");
    assert_eq!(
        prog.instructions,
        vec![
            ins(Op::Load, slot),
            Instruction { op: Op::PushFloat, arg: 0, float_val: two },
            ins(Op::Add, 0),
            ins(Op::Store, slot),
            ins(Op::Pop, 0),
        ]
    );
    let inc = translate_expr(&SynExpr::PostInc(Box::new(SynExpr::Variable("i".to_string()))));
    let prog = compile_shader(&shader_with(vec![Statement::Expr(inc)], SymbolTable::new()));
    let slot = hash_name("i");
    assert_eq!(prog.instructions[0], ins(Op::Load, slot));
    assert_eq!(prog.instructions[1].op, Op::PushInt);
    assert_eq!(prog.instructions[2], ins(Op::Add, 0));
    assert_eq!(prog.instructions[3], ins(Op::Store, slot));
    assert_eq!(prog.int_consts, vec![1]);
}

#[test]
fn array_index_pushes_a_zero_constant() {
    let seven = 0x40e0_0000u32;
    let body = vec![Statement::Expr(Expr::Binary(
        obscura_webgl::glsl::ast::BinaryOp::Add,
        Box::new(Expr::Float(seven)),
        Box::new(Expr::Index(Box::new(Expr::Ident("a".to_string())), Box::new(Expr::Int(0)))),
    ))];
    let prog = compile_shader(&shader_with(body, SymbolTable::new()));
    assert_eq!(prog.float_consts, vec![seven, 0]);
    assert_eq!(prog.instructions[1], Instruction { op: Op::PushFloat, arg: 1, float_val: 0 });
}
