//! GLSL AST to bytecode.
//!
//! The compilation of each construct is given as a function from the
//! program built so far to the program after it (`spec_expr`,
//! `spec_stmt`), and the compiler is proved to build exactly that program.

use vstd::prelude::*;
use vstd::utf8::encode_utf8;
use crate::glsl::ast::{AssignOp, BinaryOp, DeclKind, Expr, Shader, Statement, SymbolTable, UnaryOp, str_eq};
use crate::glsl::opcode::{Instruction, Op, ShaderProgram};

verus! {

/// A program under construction: instructions, float pool, int pool.
pub type ProgState = (Seq<Instruction>, Seq<u32>, Seq<i32>);

/// The parts of a program that compilation builds.
pub open spec fn spec_prog(p: &ShaderProgram) -> ProgState {
    (p.instructions@, p.float_consts@, p.int_consts@)
}

/// The program with one more instruction.
pub open spec fn spec_emit(s: ProgState, op: Op, arg: u32) -> ProgState {
    (s.0.push(Instruction { op, arg, float_val: 0 }), s.1, s.2)
}

/// The program with the argument of instruction `at` set to `target`.
pub open spec fn spec_patch(s: ProgState, at: u32, target: u32) -> ProgState {
    (s.0.update(at as int, Instruction { op: s.0[at as int].op, arg: target, float_val: s.0[at as int].float_val }), s.1, s.2)
}

/// The index the next instruction gets, as an instruction argument.
pub open spec fn spec_next(s: ProgState) -> u32 {
    s.0.len() as u32
}

/// The slot of a built-in variable.
pub open spec fn spec_builtin_slot(name: Seq<char>) -> Option<u32> {
    if name == "gl_Position"@ {
        Some(0)
    } else if name == "gl_FragColor"@ {
        Some(1)
    } else if name == "gl_FragCoord"@ {
        Some(2)
    } else if name == "gl_PointCoord"@ {
        Some(3)
    } else if name == "gl_PointSize"@ {
        Some(4)
    } else if name == "gl_FragDepth"@ {
        Some(5)
    } else {
        None
    }
}

/// The hash of a name's UTF-8 bytes before reduction to a slot:
/// `h = h * 31 + byte`, wrapping, from 0.
pub open spec fn spec_hash_bytes(b: Seq<u8>) -> u32
    decreases b.len(),
{
    if b.len() == 0 {
        0
    } else {
        spec_hash_bytes(b.drop_last()).wrapping_mul(31).wrapping_add(b.last() as u32)
    }
}

/// The local variable slot of a name outside the symbol table.
pub open spec fn spec_hash_name(name: Seq<char>) -> u32 {
    spec_hash_bytes(encode_utf8(name)) % 256
}

/// The 2-bit component index of a swizzle letter.
pub open spec fn spec_swizzle_index(c: char) -> u32 {
    if c == 'y' || c == 'g' || c == 't' {
        1
    } else if c == 'z' || c == 'b' || c == 'p' {
        2
    } else if c == 'w' || c == 'a' || c == 'q' {
        3
    } else {
        0
    }
}

/// Component index `k` of a swizzle (0 past its end).
pub open spec fn spec_swizzle_at(field: Seq<char>, k: int) -> int {
    if k < field.len() { spec_swizzle_index(field[k]) as int } else { 0 }
}

/// A swizzle mask: 2 bits per component for the first four letters of the
/// field, the number of those letters in bits 8 and up.
pub open spec fn spec_swizzle_mask(field: Seq<char>) -> u32 {
    let n = if field.len() < 4 { field.len() as int } else { 4 };
    (spec_swizzle_at(field, 0) + 4 * spec_swizzle_at(field, 1) + 16 * spec_swizzle_at(field, 2) + 64
        * spec_swizzle_at(field, 3) + 256 * n) as u32
}

/// The instruction that reads identifier `name`: a built-in, a declared
/// attribute, uniform, varying or constant, or else a hashed local slot.
pub open spec fn spec_load(syms: SymbolTable, name: Seq<char>) -> (Op, u32) {
    if let Some(slot) = spec_builtin_slot(name) {
        (Op::LoadBuiltin, slot)
    } else if let Some((kind, loc)) = syms.spec_get(name) {
        (
            match kind {
                DeclKind::Attribute => Op::LoadAttrib,
                DeclKind::Uniform => Op::LoadUniform,
                DeclKind::Varying => Op::LoadVarying,
                DeclKind::Const => Op::Load,
            },
            loc,
        )
    } else {
        (Op::Load, spec_hash_name(name))
    }
}

/// The instruction that writes identifier `name`.
pub open spec fn spec_store(syms: SymbolTable, name: Seq<char>) -> (Op, u32) {
    if let Some(slot) = spec_builtin_slot(name) {
        (Op::StoreBuiltin, slot)
    } else if let Some((kind, loc)) = syms.spec_get(name) {
        (if kind == DeclKind::Varying { Op::StoreVarying } else { Op::Store }, loc)
    } else {
        (Op::Store, spec_hash_name(name))
    }
}

/// The opcode of a binary operator; bitwise and shift operators compile to
/// `Add`.
pub open spec fn spec_binary_op(op: BinaryOp) -> Op {
    match op {
        BinaryOp::Add => Op::Add,
        BinaryOp::Sub => Op::Sub,
        BinaryOp::Mul => Op::Mul,
        BinaryOp::Div => Op::Div,
        BinaryOp::Mod => Op::Mod,
        BinaryOp::Equal => Op::Equal,
        BinaryOp::NotEqual => Op::NotEqual,
        BinaryOp::Less => Op::Less,
        BinaryOp::Greater => Op::Greater,
        BinaryOp::LessEq => Op::LessEq,
        BinaryOp::GreaterEq => Op::GreaterEq,
        BinaryOp::And => Op::And,
        BinaryOp::Or => Op::Or,
        _ => Op::Add,
    }
}

/// The opcode that a compound assignment `x op= v` applies to the old value
/// of `x` and `v` before storing; `None` for plain assignment.
pub open spec fn spec_assign_combine(op: AssignOp) -> Option<Op> {
    match op {
        AssignOp::Assign => None,
        AssignOp::AddAssign => Some(Op::Add),
        AssignOp::SubAssign => Some(Op::Sub),
        AssignOp::MulAssign => Some(Op::Mul),
        AssignOp::DivAssign => Some(Op::Div),
    }
}

/// The opcode of a unary operator; bitwise not compiles to `Not`.
pub open spec fn spec_unary_op(op: UnaryOp) -> Op {
    match op {
        UnaryOp::Neg => Op::Neg,
        _ => Op::Not,
    }
}

/// The opcode of a call of a built-in function; unknown functions compile
/// to `Nop`.
pub open spec fn spec_call_op(name: Seq<char>) -> Op {
    if name == "dot"@ { Op::Dot }
    else if name == "cross"@ { Op::Cross }
    else if name == "normalize"@ { Op::Normalize }
    else if name == "length"@ { Op::Length }
    else if name == "mix"@ { Op::Mix }
    else if name == "clamp"@ { Op::Clamp }
    else if name == "smoothstep"@ { Op::SmoothStep }
    else if name == "step"@ { Op::Step }
    else if name == "fract"@ { Op::Fract }
    else if name == "floor"@ { Op::Floor }
    else if name == "ceil"@ { Op::Ceil }
    else if name == "abs"@ { Op::Abs }
    else if name == "sign"@ { Op::Sign }
    else if name == "sin"@ { Op::Sin }
    else if name == "cos"@ { Op::Cos }
    else if name == "tan"@ { Op::Tan }
    else if name == "asin"@ { Op::Asin }
    else if name == "acos"@ { Op::Acos }
    else if name == "atan"@ { Op::Atan }
    else if name == "pow"@ { Op::Pow }
    else if name == "exp"@ { Op::Exp }
    else if name == "log"@ { Op::Log }
    else if name == "exp2"@ { Op::Exp2 }
    else if name == "log2"@ { Op::Log2 }
    else if name == "sqrt"@ { Op::Sqrt }
    else if name == "min"@ { Op::Min }
    else if name == "max"@ { Op::Max }
    else if name == "distance"@ { Op::Distance }
    else if name == "reflect"@ { Op::Reflect }
    else if name == "refract"@ { Op::Refract }
    else if name == "faceforward"@ { Op::FaceForward }
    else if name == "texture2D"@ { Op::Texture2D }
    else if name == "textureCube"@ { Op::TextureCube }
    else if name == "transpose"@ { Op::Transpose }
    else if name == "inverse"@ { Op::Inverse }
    else if name == "determinant"@ { Op::Determinant }
    else if name == "matrixCompMult"@ { Op::MatrixCompMult }
    else if name == "vec2"@ { Op::Vec2 }
    else if name == "vec3"@ { Op::Vec3 }
    else if name == "vec4"@ { Op::Vec4 }
    else { Op::Nop }
}

/// The program after compiling expression `e`: code that leaves the value
/// of `e` on the stack.
pub open spec fn spec_expr(e: Expr, syms: SymbolTable, s: ProgState) -> ProgState
    decreases e,
{
    match e {
        Expr::Float(f) => (s.0.push(Instruction { op: Op::PushFloat, arg: s.1.len() as u32, float_val: f }), s.1.push(f), s.2),
        Expr::Int(i) => (s.0.push(Instruction { op: Op::PushInt, arg: s.2.len() as u32, float_val: 0 }), s.1, s.2.push(i)),
        Expr::Bool(b) => spec_emit(s, Op::PushBool, if b { 1 } else { 0 }),
        Expr::Ident(name) => spec_emit(s, spec_load(syms, name@).0, spec_load(syms, name@).1),
        Expr::Binary(op, a, b) => spec_emit(spec_expr(*b, syms, spec_expr(*a, syms, s)), spec_binary_op(op), 0),
        Expr::Unary(op, x) => spec_emit(spec_expr(*x, syms, s), spec_unary_op(op), 0),
        Expr::Call(name, args) => spec_emit(spec_args(args@, syms, s), spec_call_op(name@), 0),
        Expr::Assign(target, op, val) => match *target {
            Expr::Ident(name) => {
                let st = spec_store(syms, name@);
                match spec_assign_combine(op) {
                    None => spec_emit(spec_expr(*val, syms, s), st.0, st.1),
                    Some(c) => {
                        let s1 = spec_emit(s, spec_load(syms, name@).0, spec_load(syms, name@).1);
                        spec_emit(spec_emit(spec_expr(*val, syms, s1), c, 0), st.0, st.1)
                    },
                }
            },
            _ => spec_emit(spec_expr(*val, syms, s), Op::Pop, 0),
        },
        Expr::Field(obj, field) => spec_emit(spec_expr(*obj, syms, s), Op::Swizzle, spec_swizzle_mask(field@)),
        Expr::Index(_, _) => (s.0.push(Instruction { op: Op::PushFloat, arg: s.1.len() as u32, float_val: 0 }), s.1.push(0), s.2),
        Expr::Ternary(c, a, b) => {
            let s1 = spec_expr(*c, syms, s);
            let j = spec_next(s1);
            let s2 = spec_emit(s1, Op::JumpIfFalse, 0);
            let s3 = spec_expr(*a, syms, s2);
            let k = spec_next(s3);
            let s4 = spec_emit(s3, Op::Jump, 0);
            let s5 = spec_patch(s4, j, spec_next(s4));
            let s6 = spec_expr(*b, syms, s5);
            spec_patch(s6, k, spec_next(s6))
        },
    }
}

/// A binary expression compiles to the code of its left operand, then of
/// its right operand, then the one instruction of its operator: `-` gives
/// `Sub`, `+` gives `Add`, and each arithmetic, comparison and logical
/// operator its own opcode, so no two of them compile alike; the bitwise
/// and shift operators, which the machine lacks, compile to `Add`.
pub proof fn lemma_binary_opcode(op: BinaryOp, a: Expr, b: Expr, syms: SymbolTable, s: ProgState)
    ensures
        ({
            let operands = spec_expr(b, syms, spec_expr(a, syms, s));
            let t = spec_expr(Expr::Binary(op, Box::new(a), Box::new(b)), syms, s);
            &&& t.0.len() == operands.0.len() + 1
            &&& t.0.drop_last() == operands.0
            &&& t.1 == operands.1
            &&& t.2 == operands.2
            &&& t.0.last().arg == 0
            &&& t.0.last().op == match op {
                BinaryOp::Add => Op::Add,
                BinaryOp::Sub => Op::Sub,
                BinaryOp::Mul => Op::Mul,
                BinaryOp::Div => Op::Div,
                BinaryOp::Mod => Op::Mod,
                BinaryOp::Equal => Op::Equal,
                BinaryOp::NotEqual => Op::NotEqual,
                BinaryOp::Less => Op::Less,
                BinaryOp::Greater => Op::Greater,
                BinaryOp::LessEq => Op::LessEq,
                BinaryOp::GreaterEq => Op::GreaterEq,
                BinaryOp::And => Op::And,
                BinaryOp::Or => Op::Or,
                _ => Op::Add,
            }
        }),
{
    let operands = spec_expr(b, syms, spec_expr(a, syms, s));
    let t = spec_expr(Expr::Binary(op, Box::new(a), Box::new(b)), syms, s);
    assert(t.0.drop_last() =~= operands.0);
}

/// Two different arithmetic, comparison or logical operators over the same
/// operands never compile to the same code.
pub proof fn lemma_binary_opcodes_distinct(op1: BinaryOp, op2: BinaryOp, a: Expr, b: Expr, syms: SymbolTable, s: ProgState)
    requires
        op1 != op2,
        !(op1 is BitAnd || op1 is BitOr || op1 is BitXor || op1 is ShiftLeft || op1 is ShiftRight),
        !(op2 is BitAnd || op2 is BitOr || op2 is BitXor || op2 is ShiftLeft || op2 is ShiftRight),
    ensures
        spec_expr(Expr::Binary(op1, Box::new(a), Box::new(b)), syms, s) != spec_expr(
            Expr::Binary(op2, Box::new(a), Box::new(b)),
            syms,
            s,
        ),
{
    lemma_binary_opcode(op1, a, b, syms, s);
    lemma_binary_opcode(op2, a, b, syms, s);
}

/// The program after compiling the arguments of a call, first to last.
pub open spec fn spec_args(args: Seq<Expr>, syms: SymbolTable, s: ProgState) -> ProgState
    decreases args,
{
    if args.len() == 0 {
        s
    } else {
        spec_expr(args.last(), syms, spec_args(args.subrange(0, args.len() - 1), syms, s))
    }
}

/// The program after compiling statement `st`. Loops and assignment
/// statements compile to nothing; `break` and `continue` compile to a jump
/// to 0.
pub open spec fn spec_stmt(st: Statement, syms: SymbolTable, s: ProgState) -> ProgState
    decreases st,
{
    match st {
        Statement::Expr(e) => spec_emit(spec_expr(e, syms, s), Op::Pop, 0),
        Statement::Return(oe) => spec_emit(
            match oe {
                Some(e) => spec_expr(e, syms, s),
                None => s,
            },
            Op::Return,
            0,
        ),
        Statement::Discard => spec_emit(s, Op::Discard, 0),
        Statement::Break => spec_emit(s, Op::Jump, 0),
        Statement::Continue => spec_emit(s, Op::Jump, 0),
        Statement::If { cond, then_body, else_body } => {
            let s1 = spec_expr(cond, syms, s);
            let j = spec_next(s1);
            let s2 = spec_emit(s1, Op::JumpIfFalse, 0);
            let s3 = spec_stmts(then_body@, syms, s2);
            if else_body@.len() > 0 {
                let k = spec_next(s3);
                let s4 = spec_emit(s3, Op::Jump, 0);
                let s5 = spec_patch(s4, j, spec_next(s4));
                let s6 = spec_stmts(else_body@, syms, s5);
                if k != 0 {
                    spec_patch(s6, k, spec_next(s6))
                } else {
                    s6
                }
            } else {
                spec_patch(s3, j, spec_next(s3))
            }
        },
        Statement::Block(stmts) => spec_stmts(stmts@, syms, s),
        Statement::Declare { init, .. } => match init {
            Some(e) => spec_emit(spec_expr(e, syms, s), Op::Pop, 0),
            None => s,
        },
        _ => s,
    }
}

/// The program after compiling statements first to last.
pub open spec fn spec_stmts(stmts: Seq<Statement>, syms: SymbolTable, s: ProgState) -> ProgState
    decreases stmts,
{
    if stmts.len() == 0 {
        s
    } else {
        spec_stmt(stmts.last(), syms, spec_stmts(stmts.subrange(0, stmts.len() - 1), syms, s))
    }
}

/// What the compiler reads besides the AST: the shader's symbol table.
pub struct CompileCtx<'a> {
    pub symbols: &'a SymbolTable,
}

/// Compile the body of `main` of a shader into a program whose entry point
/// is 0.
pub fn compile_shader(shader: &Shader) -> (prog: ShaderProgram)
    ensures
        spec_prog(&prog) == spec_stmts(shader.main_body@, shader.symbols, (Seq::empty(), Seq::empty(), Seq::empty())),
        prog.entry == 0,
        spec_small(spec_prog(&prog)) ==> spec_wf(spec_prog(&prog)),
{
    proof {
        lemma_compiled_shader_wf(shader.main_body@, shader.symbols);
    }
    let mut prog = ShaderProgram::new();
    let ctx = CompileCtx { symbols: &shader.symbols };
    let ghost s0 = spec_prog(&prog);
    assert(s0 == (Seq::<Instruction>::empty(), Seq::<u32>::empty(), Seq::<i32>::empty()));
    compile_statements(&shader.main_body, &mut prog, &ctx);
    prog.entry = 0;
    prog
}

/// Compile statements first to last.
fn compile_statements(stmts: &Vec<Statement>, prog: &mut ShaderProgram, ctx: &CompileCtx)
    ensures
        spec_prog(final(prog)) == spec_stmts(stmts@, *ctx.symbols, spec_prog(old(prog))),
        final(prog).entry == old(prog).entry,
        final(prog).instructions@.len() >= old(prog).instructions@.len(),
    decreases stmts, 1nat,
{
    let ghost s0 = spec_prog(prog);
    let mut i: usize = 0;
    while i < stmts.len()
        invariant
            0 <= i <= stmts@.len(),
            prog.instructions@.len() >= old(prog).instructions@.len(),
            spec_prog(prog) == spec_stmts(stmts@.subrange(0, i as int), *ctx.symbols, s0),
            prog.entry == old(prog).entry,
        decreases stmts@.len() - i,
    {
        compile_statement(&stmts[i], prog, ctx);
        assert(stmts@.subrange(0, i + 1).subrange(0, i as int) =~= stmts@.subrange(0, i as int));
        i = i + 1;
    }
    assert(stmts@.subrange(0, stmts@.len() as int) =~= stmts@);
}

fn compile_statement(stmt: &Statement, prog: &mut ShaderProgram, ctx: &CompileCtx)
    ensures
        spec_prog(final(prog)) == spec_stmt(*stmt, *ctx.symbols, spec_prog(old(prog))),
        final(prog).entry == old(prog).entry,
        final(prog).instructions@.len() >= old(prog).instructions@.len(),
    decreases stmt, 0nat,
{
    match stmt {
        Statement::Expr(e) => {
            compile_expr(e, prog, ctx);
            emit(prog, Op::Pop, 0);
        },
        Statement::Return(e) => {
            if let Some(e) = e {
                compile_expr(e, prog, ctx);
            }
            emit(prog, Op::Return, 0);
        },
        Statement::Discard => {
            emit(prog, Op::Discard, 0);
        },
        Statement::Break => {
            emit(prog, Op::Jump, 0);
        },
        Statement::Continue => {
            emit(prog, Op::Jump, 0);
        },
        Statement::If { cond, then_body, else_body } => {
            compile_expr(cond, prog, ctx);
            let jump_if_false = emit(prog, Op::JumpIfFalse, 0);
            compile_statements(then_body, prog, ctx);
            let jump_end = if else_body.len() > 0 {
                let j = emit(prog, Op::Jump, 0);
                let target = next_index(prog);
                patch(prog, jump_if_false, target);
                compile_statements(else_body, prog, ctx);
                j
            } else {
                let target = next_index(prog);
                patch(prog, jump_if_false, target);
                0
            };
            if jump_end != 0 {
                let target = next_index(prog);
                patch(prog, jump_end, target);
            }
        },
        Statement::Block(stmts) => {
            compile_statements(stmts, prog, ctx);
        },
        Statement::Declare { init, .. } => {
            if let Some(e) = init {
                compile_expr(e, prog, ctx);
                emit(prog, Op::Pop, 0);
            }
        },
        _ => {},
    }
}

fn compile_exprs(args: &Vec<Expr>, prog: &mut ShaderProgram, ctx: &CompileCtx)
    ensures
        spec_prog(final(prog)) == spec_args(args@, *ctx.symbols, spec_prog(old(prog))),
        final(prog).entry == old(prog).entry,
        final(prog).instructions@.len() >= old(prog).instructions@.len(),
    decreases args, 1nat,
{
    let ghost s0 = spec_prog(prog);
    let mut i: usize = 0;
    while i < args.len()
        invariant
            0 <= i <= args@.len(),
            prog.instructions@.len() >= old(prog).instructions@.len(),
            spec_prog(prog) == spec_args(args@.subrange(0, i as int), *ctx.symbols, s0),
            prog.entry == old(prog).entry,
        decreases args@.len() - i,
    {
        compile_expr(&args[i], prog, ctx);
        assert(args@.subrange(0, i + 1).subrange(0, i as int) =~= args@.subrange(0, i as int));
        i = i + 1;
    }
    assert(args@.subrange(0, args@.len() as int) =~= args@);
}

fn compile_expr(e: &Expr, prog: &mut ShaderProgram, ctx: &CompileCtx)
    ensures
        spec_prog(final(prog)) == spec_expr(*e, *ctx.symbols, spec_prog(old(prog))),
        final(prog).entry == old(prog).entry,
        final(prog).instructions@.len() >= old(prog).instructions@.len(),
    decreases e, 0nat,
{
    match e {
        Expr::Float(f) => {
            let idx = prog.float_consts.len() as u32;
            prog.float_consts.push(*f);
            prog.instructions.push(Instruction { op: Op::PushFloat, arg: idx, float_val: *f });
        },
        Expr::Int(i) => {
            let idx = prog.int_consts.len() as u32;
            prog.int_consts.push(*i);
            emit(prog, Op::PushInt, idx);
        },
        Expr::Bool(b) => {
            emit(prog, Op::PushBool, if *b { 1 } else { 0 });
        },
        Expr::Ident(name) => {
            let (op, arg) = load_instruction(ctx.symbols, name.as_str());
            emit(prog, op, arg);
        },
        Expr::Binary(op, a, b) => {
            compile_expr(a, prog, ctx);
            compile_expr(b, prog, ctx);
            let opcode = match op {
                BinaryOp::Add => Op::Add,
                BinaryOp::Sub => Op::Sub,
                BinaryOp::Mul => Op::Mul,
                BinaryOp::Div => Op::Div,
                BinaryOp::Mod => Op::Mod,
                BinaryOp::Equal => Op::Equal,
                BinaryOp::NotEqual => Op::NotEqual,
                BinaryOp::Less => Op::Less,
                BinaryOp::Greater => Op::Greater,
                BinaryOp::LessEq => Op::LessEq,
                BinaryOp::GreaterEq => Op::GreaterEq,
                BinaryOp::And => Op::And,
                BinaryOp::Or => Op::Or,
                _ => Op::Add,
            };
            emit(prog, opcode, 0);
        },
        Expr::Unary(op, inner) => {
            compile_expr(inner, prog, ctx);
            match op {
                UnaryOp::Neg => {
                    emit(prog, Op::Neg, 0);
                },
                UnaryOp::Not => {
                    emit(prog, Op::Not, 0);
                },
                UnaryOp::BitNot => {
                    emit(prog, Op::Not, 0);
                },
            }
        },
        Expr::Call(name, args) => {
            compile_exprs(args, prog, ctx);
            compile_builtin_call(name.as_str(), args.len(), prog, ctx);
        },
        Expr::Assign(target, op, val) => {
            match &**target {
                Expr::Ident(name) => {
                    match assign_combine(*op) {
                        None => {
                            compile_expr(val, prog, ctx);
                        },
                        Some(c) => {
                            let (lop, larg) = load_instruction(ctx.symbols, name.as_str());
                            emit(prog, lop, larg);
                            compile_expr(val, prog, ctx);
                            emit(prog, c, 0);
                        },
                    }
                    let (sop, sarg) = store_instruction(ctx.symbols, name.as_str());
                    emit(prog, sop, sarg);
                },
                _ => {
                    compile_expr(val, prog, ctx);
                    emit(prog, Op::Pop, 0);
                },
            }
        },
        Expr::Field(obj, field) => {
            compile_expr(obj, prog, ctx);
            let mask = swizzle_mask(field.as_str());
            emit(prog, Op::Swizzle, mask);
        },
        Expr::Index(_obj, _idx) => {
            // Array indexing is not supported: the element reads as 0.0.
            let idx = prog.float_consts.len() as u32;
            prog.float_consts.push(0);
            prog.instructions.push(Instruction { op: Op::PushFloat, arg: idx, float_val: 0 });
        },
        Expr::Ternary(cond, a, b) => {
            compile_expr(cond, prog, ctx);
            let jump_if_false = emit(prog, Op::JumpIfFalse, 0);
            compile_expr(a, prog, ctx);
            let jump_end = emit(prog, Op::Jump, 0);
            let target = next_index(prog);
            patch(prog, jump_if_false, target);
            compile_expr(b, prog, ctx);
            let target = next_index(prog);
            patch(prog, jump_end, target);
        },
    }
}

/// The opcode a compound assignment applies before storing.
fn assign_combine(op: AssignOp) -> (r: Option<Op>)
    ensures
        r == spec_assign_combine(op),
{
    match op {
        AssignOp::Assign => None,
        AssignOp::AddAssign => Some(Op::Add),
        AssignOp::SubAssign => Some(Op::Sub),
        AssignOp::MulAssign => Some(Op::Mul),
        AssignOp::DivAssign => Some(Op::Div),
    }
}

/// Emit the opcode of a call of the function `name`.
fn compile_builtin_call(name: &str, _nargs: usize, prog: &mut ShaderProgram, _ctx: &CompileCtx)
    ensures
        spec_prog(final(prog)) == spec_emit(spec_prog(old(prog)), spec_call_op(name@), 0),
        final(prog).entry == old(prog).entry,
        final(prog).instructions@.len() >= old(prog).instructions@.len(),
{
    let op = call_op(name);
    emit(prog, op, 0);
}

/// The opcode of a call of the function `name`.
pub fn call_op(name: &str) -> (op: Op)
    ensures
        op == spec_call_op(name@),
{
    if str_eq(name, "dot") { Op::Dot }
    else if str_eq(name, "cross") { Op::Cross }
    else if str_eq(name, "normalize") { Op::Normalize }
    else if str_eq(name, "length") { Op::Length }
    else if str_eq(name, "mix") { Op::Mix }
    else if str_eq(name, "clamp") { Op::Clamp }
    else if str_eq(name, "smoothstep") { Op::SmoothStep }
    else if str_eq(name, "step") { Op::Step }
    else if str_eq(name, "fract") { Op::Fract }
    else if str_eq(name, "floor") { Op::Floor }
    else if str_eq(name, "ceil") { Op::Ceil }
    else if str_eq(name, "abs") { Op::Abs }
    else if str_eq(name, "sign") { Op::Sign }
    else if str_eq(name, "sin") { Op::Sin }
    else if str_eq(name, "cos") { Op::Cos }
    else if str_eq(name, "tan") { Op::Tan }
    else if str_eq(name, "asin") { Op::Asin }
    else if str_eq(name, "acos") { Op::Acos }
    else if str_eq(name, "atan") { Op::Atan }
    else if str_eq(name, "pow") { Op::Pow }
    else if str_eq(name, "exp") { Op::Exp }
    else if str_eq(name, "log") { Op::Log }
    else if str_eq(name, "exp2") { Op::Exp2 }
    else if str_eq(name, "log2") { Op::Log2 }
    else if str_eq(name, "sqrt") { Op::Sqrt }
    else if str_eq(name, "min") { Op::Min }
    else if str_eq(name, "max") { Op::Max }
    else if str_eq(name, "distance") { Op::Distance }
    else if str_eq(name, "reflect") { Op::Reflect }
    else if str_eq(name, "refract") { Op::Refract }
    else if str_eq(name, "faceforward") { Op::FaceForward }
    else if str_eq(name, "texture2D") { Op::Texture2D }
    else if str_eq(name, "textureCube") { Op::TextureCube }
    else if str_eq(name, "transpose") { Op::Transpose }
    else if str_eq(name, "inverse") { Op::Inverse }
    else if str_eq(name, "determinant") { Op::Determinant }
    else if str_eq(name, "matrixCompMult") { Op::MatrixCompMult }
    else if str_eq(name, "vec2") { Op::Vec2 }
    else if str_eq(name, "vec3") { Op::Vec3 }
    else if str_eq(name, "vec4") { Op::Vec4 }
    else { Op::Nop }
}

/// The slot of a built-in variable, if `name` is one.
pub fn builtin_slot(name: &str) -> (r: Option<u32>)
    ensures
        r == spec_builtin_slot(name@),
{
    if str_eq(name, "gl_Position") {
        Some(0)
    } else if str_eq(name, "gl_FragColor") {
        Some(1)
    } else if str_eq(name, "gl_FragCoord") {
        Some(2)
    } else if str_eq(name, "gl_PointCoord") {
        Some(3)
    } else if str_eq(name, "gl_PointSize") {
        Some(4)
    } else if str_eq(name, "gl_FragDepth") {
        Some(5)
    } else {
        None
    }
}

/// The instruction that reads identifier `name`.
fn load_instruction(syms: &SymbolTable, name: &str) -> (r: (Op, u32))
    ensures
        r == spec_load(*syms, name@),
{
    if let Some(slot) = builtin_slot(name) {
        (Op::LoadBuiltin, slot)
    } else if let Some((kind, loc)) = syms.get(name) {
        let op = match kind {
            DeclKind::Attribute => Op::LoadAttrib,
            DeclKind::Uniform => Op::LoadUniform,
            DeclKind::Varying => Op::LoadVarying,
            DeclKind::Const => Op::Load,
        };
        (op, loc)
    } else {
        (Op::Load, hash_name(name))
    }
}

/// The instruction that writes identifier `name`.
fn store_instruction(syms: &SymbolTable, name: &str) -> (r: (Op, u32))
    ensures
        r == spec_store(*syms, name@),
{
    if let Some(slot) = builtin_slot(name) {
        (Op::StoreBuiltin, slot)
    } else if let Some((kind, loc)) = syms.get(name) {
        match kind {
            DeclKind::Varying => (Op::StoreVarying, loc),
            _ => (Op::Store, loc),
        }
    } else {
        (Op::Store, hash_name(name))
    }
}

/// Hash a name to a local variable slot in `[0, 256)` (used for names that
/// are not in the symbol table).
pub fn hash_name(name: &str) -> (h: u32)
    ensures
        h == spec_hash_name(name@),
        h < 256,
{
    let bytes = name.as_bytes();
    let mut h: u32 = 0;
    let mut i: usize = 0;
    while i < bytes.len()
        invariant
            bytes@ == encode_utf8(name@),
            0 <= i <= bytes@.len(),
            h == spec_hash_bytes(bytes@.subrange(0, i as int)),
        decreases bytes@.len() - i,
    {
        assert(bytes@.subrange(0, i + 1).drop_last() =~= bytes@.subrange(0, i as int));
        h = h.wrapping_mul(31).wrapping_add(bytes[i] as u32);
        i = i + 1;
    }
    assert(bytes@.subrange(0, bytes@.len() as int) =~= bytes@);
    h % 256
}

/// Encode a swizzle mask: each of the first four letters (x/y/z/w, r/g/b/a
/// or s/t/p/q) becomes a 2-bit component index; the count of those letters
/// is stored from bit 8.
pub fn swizzle_mask(field: &str) -> (m: u32)
    ensures
        m == spec_swizzle_mask(field@),
{
    let len = field.unicode_len();
    let n: usize = if len < 4 {
        len
    } else {
        4
    };
    let mut mask: u32 = 0;
    let mut count: u32 = 0;
    while (count as usize) < n
        invariant
            len == field@.len(),
            n == (if field@.len() < 4 { field@.len() as int } else { 4 }),
            0 <= count <= n,
            mask as int == (if count > 0 { spec_swizzle_at(field@, 0) } else { 0 }) + (if count > 1 { 4
                * spec_swizzle_at(field@, 1) } else { 0 }) + (if count > 2 { 16 * spec_swizzle_at(field@, 2) } else { 0 })
                + (if count > 3 { 64 * spec_swizzle_at(field@, 3) } else { 0 }),
        decreases n - count,
    {
        let c = field.get_char(count as usize);
        let idx: u32 = if c == 'x' || c == 'r' || c == 's' {
            0
        } else if c == 'y' || c == 'g' || c == 't' {
            1
        } else if c == 'z' || c == 'b' || c == 'p' {
            2
        } else if c == 'w' || c == 'a' || c == 'q' {
            3
        } else {
            0
        };
        assert(idx == spec_swizzle_index(c));
        let shift = count * 2;
        let m0 = mask;
        mask = mask | (idx << shift);
        assert(mask == m0 + idx * (if count == 0 { 1u32 } else if count == 1 { 4u32 } else if count == 2 { 16u32 } else { 64u32 })) by (bit_vector)
            requires
                mask == m0 | (idx << shift),
                shift == count * 2,
                count < 4,
                idx < 4,
                m0 < (if count == 0 { 1u32 } else if count == 1 { 4u32 } else if count == 2 { 16u32 } else { 64u32 }),
        ;
        count = count + 1;
    }
    let r = mask | (count << 8u32);
    assert(r == mask + count * 256) by (bit_vector)
        requires
            r == mask | (count << 8u32),
            mask < 256,
            count <= 4,
    ;
    r
}

/// Append an instruction; returns its index as an argument value.
fn emit(prog: &mut ShaderProgram, op: Op, arg: u32) -> (idx: u32)
    ensures
        spec_prog(final(prog)) == spec_emit(spec_prog(old(prog)), op, arg),
        idx == spec_next(spec_prog(old(prog))),
        idx as int <= old(prog).instructions@.len(),
        final(prog).entry == old(prog).entry,
{
    let n = prog.instructions.len();
    let idx = n as u32;
    assert(idx as usize <= n) by (bit_vector)
        requires
            idx == n as u32,
    ;
    prog.instructions.push(Instruction { op, arg, float_val: 0 });
    idx
}

/// The index the next instruction will get, as an argument value.
fn next_index(prog: &ShaderProgram) -> (idx: u32)
    ensures
        idx == spec_next(spec_prog(prog)),
{
    prog.instructions.len() as u32
}

/// Set the argument of instruction `at`.
fn patch(prog: &mut ShaderProgram, at: u32, target: u32)
    requires
        (at as int) < old(prog).instructions@.len(),
    ensures
        spec_prog(final(prog)) == spec_patch(spec_prog(old(prog)), at, target),
        final(prog).entry == old(prog).entry,
        final(prog).instructions@.len() == old(prog).instructions@.len(),
{
    let mut ins = prog.instructions[at as usize];
    ins.arg = target;
    prog.instructions.set(at as usize, ins);
}


// ---------------------------------------------------------------------------
// Well-formedness of compiled programs
// ---------------------------------------------------------------------------

/// Every jump (`Jump`, `JumpIfFalse`, `JumpIfTrue`) targets an instruction
/// of the program or its end; every integer push names an entry of the
/// integer pool; every float push names an entry of the float pool holding
/// its value.
pub open spec fn spec_wf(s: ProgState) -> bool {
    &&& forall|k: int|
        0 <= k < s.0.len() && (s.0[k].op == Op::Jump || s.0[k].op == Op::JumpIfFalse || s.0[k].op == Op::JumpIfTrue)
            ==> #[trigger] s.0[k].arg <= s.0.len()
    &&& forall|k: int| 0 <= k < s.0.len() && s.0[k].op == Op::PushInt ==> #[trigger] s.0[k].arg < s.2.len()
    &&& forall|k: int|
        0 <= k < s.0.len() && s.0[k].op == Op::PushFloat ==> #[trigger] s.0[k].arg < s.1.len() && s.1[s.0[k].arg as int]
            == s.0[k].float_val
}

/// `t` extends `s`: the earlier instructions and pool entries are kept.
pub open spec fn spec_extends(s: ProgState, t: ProgState) -> bool {
    &&& s.0.len() <= t.0.len()
    &&& s.1.len() <= t.1.len()
    &&& s.2.len() <= t.2.len()
    &&& forall|k: int| 0 <= k < s.0.len() ==> #[trigger] t.0[k] == s.0[k]
    &&& forall|k: int| 0 <= k < s.1.len() ==> #[trigger] t.1[k] == s.1[k]
    &&& forall|k: int| 0 <= k < s.2.len() ==> #[trigger] t.2[k] == s.2[k]
}

/// The program and its pools are small enough for their indices to fit in
/// an instruction argument.
pub open spec fn spec_small(s: ProgState) -> bool {
    s.0.len() <= u32::MAX && s.1.len() <= u32::MAX && s.2.len() <= u32::MAX
}

proof fn lemma_extends_trans(a: ProgState, b: ProgState, c: ProgState)
    requires
        spec_extends(a, b),
        spec_extends(b, c),
    ensures
        spec_extends(a, c),
{
}

/// Emitting an instruction that is no push of a constant, and whose jump
/// target (if it jumps) is in range, keeps a program well formed.
proof fn lemma_emit_wf(s: ProgState, op: Op, arg: u32)
    requires
        spec_wf(s),
        op != Op::PushInt,
        op != Op::PushFloat,
        (op == Op::Jump || op == Op::JumpIfFalse || op == Op::JumpIfTrue) ==> arg <= s.0.len() + 1,
    ensures
        spec_wf(spec_emit(s, op, arg)),
        spec_extends(s, spec_emit(s, op, arg)),
{
    let t = spec_emit(s, op, arg);
    assert forall|k: int| 0 <= k < s.0.len() implies #[trigger] t.0[k] == s.0[k] by {}
}

/// Pointing an emitted jump at the current end keeps a program well formed.
proof fn lemma_patch_wf(s: ProgState, at: u32)
    requires
        spec_wf(s),
        (at as int) < s.0.len(),
        s.0[at as int].op == Op::Jump || s.0[at as int].op == Op::JumpIfFalse,
        s.0.len() <= u32::MAX,
    ensures
        spec_wf(spec_patch(s, at, spec_next(s))),
        spec_patch(s, at, spec_next(s)).0.len() == s.0.len(),
        spec_patch(s, at, spec_next(s)).1 == s.1,
        spec_patch(s, at, spec_next(s)).2 == s.2,
        forall|k: int| 0 <= k < s.0.len() && k != at ==> #[trigger] spec_patch(s, at, spec_next(s)).0[k] == s.0[k],
        spec_patch(s, at, spec_next(s)).0[at as int].op == s.0[at as int].op,
{
}

/// The code of a compound assignment `x op= v`: a load of `x`, the code of
/// `v` (taking `s1` to `s2`), the operator and a store; it extends the
/// program and keeps it well formed while its indices fit.
proof fn lemma_compound_assign_wf(s: ProgState, lo: Op, la: u32, s2: ProgState, c: Op, so: Op, sa: u32)
    requires
        lo == Op::LoadBuiltin || lo == Op::LoadAttrib || lo == Op::LoadUniform || lo == Op::LoadVarying || lo == Op::Load,
        c == Op::Add || c == Op::Sub || c == Op::Mul || c == Op::Div,
        so == Op::StoreBuiltin || so == Op::StoreVarying || so == Op::Store,
        s2.0.len() > spec_emit(s, lo, la).0.len(),
        spec_small(s2) ==> spec_extends(spec_emit(s, lo, la), s2),
        spec_small(s2) && spec_wf(spec_emit(s, lo, la)) ==> spec_wf(s2),
    ensures
        spec_emit(spec_emit(s2, c, 0), so, sa).0.len() > s.0.len(),
        spec_small(spec_emit(spec_emit(s2, c, 0), so, sa)) ==> spec_extends(s, spec_emit(spec_emit(s2, c, 0), so, sa)),
        spec_small(spec_emit(spec_emit(s2, c, 0), so, sa)) && spec_wf(s) ==> spec_wf(
            spec_emit(spec_emit(s2, c, 0), so, sa),
        ),
{
    let s1 = spec_emit(s, lo, la);
    let s3 = spec_emit(s2, c, 0);
    let t = spec_emit(s3, so, sa);
    lemma_emit_wf_ext(s, lo, la);
    if spec_small(t) {
        lemma_emit_wf_ext(s2, c, 0);
        lemma_emit_wf_ext(s3, so, sa);
        lemma_extends_trans(s, s1, s2);
        lemma_extends_trans(s, s2, s3);
        lemma_extends_trans(s, s3, t);
        if spec_wf(s) {
            lemma_emit_wf(s, lo, la);
            lemma_emit_wf(s2, c, 0);
            lemma_emit_wf(s3, so, sa);
        }
    }
}

/// Compiling an expression appends code and pool entries, and keeps a
/// program well formed while its indices fit in an argument.
#[verifier::spinoff_prover]
#[verifier::rlimit(60)]
pub proof fn lemma_expr_wf(e: Expr, syms: SymbolTable, s: ProgState)
    ensures
        spec_expr(e, syms, s).0.len() > s.0.len(),
        spec_small(spec_expr(e, syms, s)) ==> spec_extends(s, spec_expr(e, syms, s)),
        spec_small(spec_expr(e, syms, s)) && spec_wf(s) ==> spec_wf(spec_expr(e, syms, s)),
    decreases e, 0nat,
{
    let t = spec_expr(e, syms, s);
    match e {
        Expr::Float(f) => {
            assert forall|k: int| 0 <= k < s.0.len() implies #[trigger] t.0[k] == s.0[k] by {}
            assert forall|k: int| 0 <= k < s.1.len() implies #[trigger] t.1[k] == s.1[k] by {}
            if spec_small(t) && spec_wf(s) {
                assert forall|k: int| 0 <= k < t.0.len() && t.0[k].op == Op::PushFloat implies #[trigger] t.0[k].arg
                    < t.1.len() && t.1[t.0[k].arg as int] == t.0[k].float_val by {
                    if k < s.0.len() {
                        assert(t.0[k] == s.0[k]);
                    }
                }
            }
        },
        Expr::Int(i) => {
            assert forall|k: int| 0 <= k < s.0.len() implies #[trigger] t.0[k] == s.0[k] by {}
            assert forall|k: int| 0 <= k < s.2.len() implies #[trigger] t.2[k] == s.2[k] by {}
            if spec_small(t) && spec_wf(s) {
                assert forall|k: int| 0 <= k < t.0.len() && t.0[k].op == Op::PushFloat implies #[trigger] t.0[k].arg
                    < t.1.len() && t.1[t.0[k].arg as int] == t.0[k].float_val by {
                    if k < s.0.len() {
                        assert(t.0[k] == s.0[k]);
                    }
                }
            }
        },
        Expr::Bool(b) => {
            if spec_wf(s) {
                lemma_emit_wf(s, Op::PushBool, if b { 1 } else { 0 });
            }
            assert forall|k: int| 0 <= k < s.0.len() implies #[trigger] t.0[k] == s.0[k] by {}
        },
        Expr::Ident(name) => {
            let (op, arg) = spec_load(syms, name@);
            if spec_wf(s) {
                lemma_emit_wf(s, op, arg);
            }
            assert forall|k: int| 0 <= k < s.0.len() implies #[trigger] t.0[k] == s.0[k] by {}
        },
        Expr::Binary(op, a, b) => {
            let s1 = spec_expr(*a, syms, s);
            let s2 = spec_expr(*b, syms, s1);
            lemma_expr_wf(*a, syms, s);
            lemma_expr_wf(*b, syms, s1);
            if spec_small(t) {
                lemma_emit_wf_ext(s2, spec_binary_op(op), 0);
                lemma_extends_trans(s, s1, s2);
                lemma_extends_trans(s, s2, t);
                if spec_wf(s) {
                    lemma_emit_wf(s2, spec_binary_op(op), 0);
                }
            }
        },
        Expr::Unary(op, x) => {
            let s1 = spec_expr(*x, syms, s);
            lemma_expr_wf(*x, syms, s);
            if spec_small(t) {
                lemma_emit_wf_ext(s1, spec_unary_op(op), 0);
                lemma_extends_trans(s, s1, t);
                if spec_wf(s) {
                    lemma_emit_wf(s1, spec_unary_op(op), 0);
                }
            }
        },
        Expr::Call(name, args) => {
            let s1 = spec_args(args@, syms, s);
            lemma_args_wf(args@, syms, s);
            if spec_small(t) {
                lemma_emit_wf_ext(s1, spec_call_op(name@), 0);
                lemma_extends_trans(s, s1, t);
                if spec_wf(s) {
                    assert(spec_call_op(name@) != Op::PushInt && spec_call_op(name@) != Op::PushFloat);
                    lemma_emit_wf(s1, spec_call_op(name@), 0);
                }
            }
        },
        Expr::Assign(target, op, val) => {
            match *target {
                Expr::Ident(name) => {
                    let (so, sa) = spec_store(syms, name@);
                    match spec_assign_combine(op) {
                        None => {
                            let s1 = spec_expr(*val, syms, s);
                            lemma_expr_wf(*val, syms, s);
                            assert(t == spec_emit(s1, so, sa));
                            if spec_small(t) {
                                lemma_emit_wf_ext(s1, so, sa);
                                lemma_extends_trans(s, s1, t);
                                if spec_wf(s) {
                                    lemma_emit_wf(s1, so, sa);
                                }
                            }
                        },
                        Some(c) => {
                            let (lo, la) = spec_load(syms, name@);
                            let s1 = spec_emit(s, lo, la);
                            lemma_expr_wf(*val, syms, s1);
                            lemma_compound_assign_wf(s, lo, la, spec_expr(*val, syms, s1), c, so, sa);
                        },
                    }
                },
                _ => {
                    let s1 = spec_expr(*val, syms, s);
                    lemma_expr_wf(*val, syms, s);
                    assert(t == spec_emit(s1, Op::Pop, 0));
                    if spec_small(t) {
                        lemma_emit_wf_ext(s1, Op::Pop, 0);
                        lemma_extends_trans(s, s1, t);
                        if spec_wf(s) {
                            lemma_emit_wf(s1, Op::Pop, 0);
                        }
                    }
                },
            }
        },
        Expr::Field(obj, field) => {
            let s1 = spec_expr(*obj, syms, s);
            lemma_expr_wf(*obj, syms, s);
            if spec_small(t) {
                lemma_emit_wf_ext(s1, Op::Swizzle, spec_swizzle_mask(field@));
                lemma_extends_trans(s, s1, t);
                if spec_wf(s) {
                    lemma_emit_wf(s1, Op::Swizzle, spec_swizzle_mask(field@));
                }
            }
        },
        Expr::Index(_, _) => {
            assert forall|k: int| 0 <= k < s.0.len() implies #[trigger] t.0[k] == s.0[k] by {}
            assert forall|k: int| 0 <= k < s.1.len() implies #[trigger] t.1[k] == s.1[k] by {}
            if spec_small(t) && spec_wf(s) {
                assert forall|k: int| 0 <= k < t.0.len() && t.0[k].op == Op::PushFloat implies #[trigger] t.0[k].arg
                    < t.1.len() && t.1[t.0[k].arg as int] == t.0[k].float_val by {
                    if k < s.0.len() {
                        assert(t.0[k] == s.0[k]);
                    }
                }
            }
        },
        Expr::Ternary(c, a, b) => {
            let s1 = spec_expr(*c, syms, s);
            let j = spec_next(s1);
            let s2 = spec_emit(s1, Op::JumpIfFalse, 0);
            let s3 = spec_expr(*a, syms, s2);
            let k = spec_next(s3);
            let s4 = spec_emit(s3, Op::Jump, 0);
            let s5 = spec_patch(s4, j, spec_next(s4));
            let s6 = spec_expr(*b, syms, s5);
            lemma_expr_wf(*c, syms, s);
            lemma_expr_wf(*a, syms, s2);
            lemma_expr_wf(*b, syms, s5);
            if spec_small(t) {
                assert(t.0.len() == s6.0.len());
                lemma_emit_wf_ext(s1, Op::JumpIfFalse, 0);
                lemma_emit_wf_ext(s3, Op::Jump, 0);
                assert(j as int == s1.0.len());
                assert(k as int == s3.0.len());
                lemma_patch_ext(s4, j, spec_next(s4));
                lemma_patch_ext(s6, k, spec_next(s6));
                lemma_extends_trans(s, s1, s2);
                lemma_extends_trans(s, s2, s3);
                lemma_extends_trans(s, s3, s4);
                lemma_patch_after(s, s4, j, spec_next(s4));
                lemma_extends_trans(s, s5, s6);
                assert(s6.0[k as int] == s4.0[k as int]);
                if spec_wf(s) {
                    lemma_emit_wf(s1, Op::JumpIfFalse, 0);
                    lemma_emit_wf(s3, Op::Jump, 0);
                    assert(s4.0[j as int] == s2.0[j as int]);
                    lemma_patch_wf(s4, j);
                    lemma_patch_wf(s6, k);
                }
                lemma_patch_after(s, s6, k, spec_next(s6));
            }
        },
    }
}

/// Patching an instruction that `a` added after `s` keeps `s` a prefix.
proof fn lemma_patch_after(s: ProgState, a: ProgState, at: u32, target: u32)
    requires
        spec_extends(s, a),
        s.0.len() <= at < a.0.len(),
    ensures
        spec_extends(s, spec_patch(a, at, target)),
{
    lemma_patch_ext(a, at, target);
}

/// Emitting extends the program.
proof fn lemma_emit_wf_ext(s: ProgState, op: Op, arg: u32)
    ensures
        spec_extends(s, spec_emit(s, op, arg)),
        spec_emit(s, op, arg).0[s.0.len() as int] == (Instruction { op, arg, float_val: 0 }),
{
    let t = spec_emit(s, op, arg);
    assert forall|k: int| 0 <= k < s.0.len() implies #[trigger] t.0[k] == s.0[k] by {}
}

/// Patching an instruction at or after the end of `s`'s code keeps `s`.
proof fn lemma_patch_ext(s: ProgState, at: u32, target: u32)
    requires
        (at as int) < s.0.len(),
    ensures
        forall|k: int| 0 <= k < s.0.len() && k != at ==> #[trigger] spec_patch(s, at, target).0[k] == s.0[k],
        spec_patch(s, at, target).0.len() == s.0.len(),
        spec_patch(s, at, target).1 == s.1,
        spec_patch(s, at, target).2 == s.2,
{
}

/// [`lemma_expr_wf`] for the arguments of a call.
pub proof fn lemma_args_wf(args: Seq<Expr>, syms: SymbolTable, s: ProgState)
    ensures
        spec_args(args, syms, s).0.len() >= s.0.len(),
        spec_small(spec_args(args, syms, s)) ==> spec_extends(s, spec_args(args, syms, s)),
        spec_small(spec_args(args, syms, s)) && spec_wf(s) ==> spec_wf(spec_args(args, syms, s)),
    decreases args, 1nat,
{
    if args.len() > 0 {
        let rest = args.subrange(0, args.len() - 1);
        let s1 = spec_args(rest, syms, s);
        lemma_args_wf(rest, syms, s);
        lemma_expr_wf(args.last(), syms, s1);
        if spec_small(spec_args(args, syms, s)) {
            lemma_extends_trans(s, s1, spec_args(args, syms, s));
        }
    }
}


/// [`lemma_expr_wf`] for a statement.
pub proof fn lemma_stmt_wf(st: Statement, syms: SymbolTable, s: ProgState)
    ensures
        spec_stmt(st, syms, s).0.len() >= s.0.len(),
        spec_small(spec_stmt(st, syms, s)) ==> spec_extends(s, spec_stmt(st, syms, s)),
        spec_small(spec_stmt(st, syms, s)) && spec_wf(s) ==> spec_wf(spec_stmt(st, syms, s)),
    decreases st, 0nat,
{
    let t = spec_stmt(st, syms, s);
    match st {
        Statement::Expr(e) => {
            let s1 = spec_expr(e, syms, s);
            lemma_expr_wf(e, syms, s);
            if spec_small(t) {
                lemma_emit_wf_ext(s1, Op::Pop, 0);
                lemma_extends_trans(s, s1, t);
                if spec_wf(s) {
                    lemma_emit_wf(s1, Op::Pop, 0);
                }
            }
        },
        Statement::Return(oe) => {
            let s1 = match oe {
                Some(e) => spec_expr(e, syms, s),
                None => s,
            };
            if let Some(e) = oe {
                lemma_expr_wf(e, syms, s);
            }
            if spec_small(t) {
                lemma_emit_wf_ext(s1, Op::Return, 0);
                lemma_extends_trans(s, s1, t);
                if spec_wf(s) {
                    lemma_emit_wf(s1, Op::Return, 0);
                }
            }
        },
        Statement::Discard => {
            lemma_emit_wf_ext(s, Op::Discard, 0);
            if spec_wf(s) {
                lemma_emit_wf(s, Op::Discard, 0);
            }
        },
        Statement::Break => {
            lemma_emit_wf_ext(s, Op::Jump, 0);
            if spec_wf(s) {
                lemma_emit_wf(s, Op::Jump, 0);
            }
        },
        Statement::Continue => {
            lemma_emit_wf_ext(s, Op::Jump, 0);
            if spec_wf(s) {
                lemma_emit_wf(s, Op::Jump, 0);
            }
        },
        Statement::If { cond, then_body, else_body } => {
            let s1 = spec_expr(cond, syms, s);
            let j = spec_next(s1);
            let s2 = spec_emit(s1, Op::JumpIfFalse, 0);
            let s3 = spec_stmts(then_body@, syms, s2);
            lemma_expr_wf(cond, syms, s);
            lemma_stmts_wf(then_body@, syms, s2);
            lemma_emit_wf_ext(s1, Op::JumpIfFalse, 0);
            if else_body@.len() > 0 {
                let k = spec_next(s3);
                let s4 = spec_emit(s3, Op::Jump, 0);
                let s5 = spec_patch(s4, j, spec_next(s4));
                let s6 = spec_stmts(else_body@, syms, s5);
                lemma_stmts_wf(else_body@, syms, s5);
                if spec_small(t) {
                    assert(t.0.len() == s6.0.len());
                    lemma_emit_wf_ext(s3, Op::Jump, 0);
                    assert(j as int == s1.0.len());
                    assert(k as int == s3.0.len());
                    lemma_patch_ext(s4, j, spec_next(s4));
                    lemma_extends_trans(s, s1, s2);
                    lemma_extends_trans(s, s2, s3);
                    lemma_extends_trans(s, s3, s4);
                    lemma_patch_after(s, s4, j, spec_next(s4));
                    lemma_extends_trans(s, s5, s6);
                    if k != 0 {
                        lemma_patch_ext(s6, k, spec_next(s6));
                        lemma_patch_after(s, s6, k, spec_next(s6));
                    }
                    if spec_wf(s) {
                        lemma_emit_wf(s1, Op::JumpIfFalse, 0);
                        lemma_emit_wf(s3, Op::Jump, 0);
                        assert(s4.0[j as int] == s2.0[j as int]);
                        lemma_patch_wf(s4, j);
                        if k != 0 {
                            assert(s6.0[k as int] == s4.0[k as int]);
                            lemma_patch_wf(s6, k);
                        }
                    }
                }
            } else {
                if spec_small(t) {
                    assert(j as int == s1.0.len());
                    lemma_extends_trans(s, s1, s2);
                    lemma_extends_trans(s, s2, s3);
                    lemma_patch_ext(s3, j, spec_next(s3));
                    lemma_patch_after(s, s3, j, spec_next(s3));
                    if spec_wf(s) {
                        lemma_emit_wf(s1, Op::JumpIfFalse, 0);
                        assert(s3.0[j as int] == s2.0[j as int]);
                        lemma_patch_wf(s3, j);
                    }
                }
            }
        },
        Statement::Block(stmts) => {
            lemma_stmts_wf(stmts@, syms, s);
        },
        Statement::Declare { init, .. } => {
            if let Some(e) = init {
                let s1 = spec_expr(e, syms, s);
                lemma_expr_wf(e, syms, s);
                if spec_small(t) {
                    lemma_emit_wf_ext(s1, Op::Pop, 0);
                    lemma_extends_trans(s, s1, t);
                    if spec_wf(s) {
                        lemma_emit_wf(s1, Op::Pop, 0);
                    }
                }
            }
        },
        _ => {},
    }
}

/// [`lemma_expr_wf`] for a statement list.
pub proof fn lemma_stmts_wf(stmts: Seq<Statement>, syms: SymbolTable, s: ProgState)
    ensures
        spec_stmts(stmts, syms, s).0.len() >= s.0.len(),
        spec_small(spec_stmts(stmts, syms, s)) ==> spec_extends(s, spec_stmts(stmts, syms, s)),
        spec_small(spec_stmts(stmts, syms, s)) && spec_wf(s) ==> spec_wf(spec_stmts(stmts, syms, s)),
    decreases stmts, 1nat,
{
    if stmts.len() > 0 {
        let rest = stmts.subrange(0, stmts.len() - 1);
        let s1 = spec_stmts(rest, syms, s);
        lemma_stmts_wf(rest, syms, s);
        lemma_stmt_wf(stmts.last(), syms, s1);
        if spec_small(spec_stmts(stmts, syms, s)) {
            lemma_extends_trans(s, s1, spec_stmts(stmts, syms, s));
        }
    }
}

/// A compiled shader is well formed: every jump lands inside the program
/// (or at its end), and every constant push names its entry in the
/// constant pools, as long as the program and its pools are small enough
/// for their indices to fit in an instruction argument.
pub proof fn lemma_compiled_shader_wf(main_body: Seq<Statement>, syms: SymbolTable)
    ensures
        ({
            let p = spec_stmts(main_body, syms, (Seq::empty(), Seq::empty(), Seq::empty()));
            spec_small(p) ==> spec_wf(p)
        }),
{
    lemma_stmts_wf(main_body, syms, (Seq::empty(), Seq::empty(), Seq::empty()));
}

} // verus!
