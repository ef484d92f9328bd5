//! Translation of a parsed translation unit into the front end's AST.

use vstd::prelude::*;
use crate::glsl::ast::{AssignOp, BinaryOp, DeclKind, Declaration, Expr, Shader, ShaderStage, Statement, Type, UnaryOp, spec_components, str_eq};
use crate::glsl::syntax::{
    SynAssignOp, SynBinaryOp, SynDeclaration, SynExpr, SynExternal, SynFunIdent, SynJump, SynQualifier,
    SynSelectionRest, SynSimple, SynStatement, SynStorage, SynType, SynUnaryOp,
};

verus! {

/// The AST type of a type specifier; types the front end does not
/// distinguish become `float`.
pub open spec fn spec_type(t: SynType) -> Type {
    match t {
        SynType::Void => Type::Void,
        SynType::Float => Type::Float,
        SynType::Int => Type::Int,
        SynType::Bool => Type::Bool,
        SynType::Vec2 => Type::Vec2,
        SynType::Vec3 => Type::Vec3,
        SynType::Vec4 => Type::Vec4,
        SynType::IVec2 => Type::IVec2,
        SynType::IVec3 => Type::IVec3,
        SynType::IVec4 => Type::IVec4,
        SynType::BVec2 => Type::BVec2,
        SynType::BVec3 => Type::BVec3,
        SynType::BVec4 => Type::BVec4,
        SynType::Mat2 => Type::Mat2,
        SynType::Mat3 => Type::Mat3,
        SynType::Mat4 => Type::Mat4,
        SynType::Sampler2D => Type::Sampler2D,
        SynType::SamplerCube => Type::SamplerCube,
        SynType::Other => Type::Float,
    }
}

/// Translate a type specifier.
pub fn translate_type(t: SynType) -> (r: Type)
    ensures
        r == spec_type(t),
{
    match t {
        SynType::Void => Type::Void,
        SynType::Float => Type::Float,
        SynType::Int => Type::Int,
        SynType::Bool => Type::Bool,
        SynType::Vec2 => Type::Vec2,
        SynType::Vec3 => Type::Vec3,
        SynType::Vec4 => Type::Vec4,
        SynType::IVec2 => Type::IVec2,
        SynType::IVec3 => Type::IVec3,
        SynType::IVec4 => Type::IVec4,
        SynType::BVec2 => Type::BVec2,
        SynType::BVec3 => Type::BVec3,
        SynType::BVec4 => Type::BVec4,
        SynType::Mat2 => Type::Mat2,
        SynType::Mat3 => Type::Mat3,
        SynType::Mat4 => Type::Mat4,
        SynType::Sampler2D => Type::Sampler2D,
        SynType::SamplerCube => Type::SamplerCube,
        SynType::Other => Type::Float,
    }
}

/// The AST operator of a binary operator; logical and bitwise exclusive or
/// both become bitwise exclusive or.
pub open spec fn spec_binary_op(op: SynBinaryOp) -> BinaryOp {
    match op {
        SynBinaryOp::Add => BinaryOp::Add,
        SynBinaryOp::Sub => BinaryOp::Sub,
        SynBinaryOp::Mult => BinaryOp::Mul,
        SynBinaryOp::Div => BinaryOp::Div,
        SynBinaryOp::Mod => BinaryOp::Mod,
        SynBinaryOp::Equal => BinaryOp::Equal,
        SynBinaryOp::NonEqual => BinaryOp::NotEqual,
        SynBinaryOp::LT => BinaryOp::Less,
        SynBinaryOp::GT => BinaryOp::Greater,
        SynBinaryOp::LTE => BinaryOp::LessEq,
        SynBinaryOp::GTE => BinaryOp::GreaterEq,
        SynBinaryOp::And => BinaryOp::And,
        SynBinaryOp::Or => BinaryOp::Or,
        SynBinaryOp::BitAnd => BinaryOp::BitAnd,
        SynBinaryOp::BitOr => BinaryOp::BitOr,
        SynBinaryOp::BitXor => BinaryOp::BitXor,
        SynBinaryOp::Xor => BinaryOp::BitXor,
        SynBinaryOp::LShift => BinaryOp::ShiftLeft,
        SynBinaryOp::RShift => BinaryOp::ShiftRight,
    }
}

fn translate_binary_op(op: SynBinaryOp) -> (r: BinaryOp)
    ensures
        r == spec_binary_op(op),
{
    match op {
        SynBinaryOp::Add => BinaryOp::Add,
        SynBinaryOp::Sub => BinaryOp::Sub,
        SynBinaryOp::Mult => BinaryOp::Mul,
        SynBinaryOp::Div => BinaryOp::Div,
        SynBinaryOp::Mod => BinaryOp::Mod,
        SynBinaryOp::Equal => BinaryOp::Equal,
        SynBinaryOp::NonEqual => BinaryOp::NotEqual,
        SynBinaryOp::LT => BinaryOp::Less,
        SynBinaryOp::GT => BinaryOp::Greater,
        SynBinaryOp::LTE => BinaryOp::LessEq,
        SynBinaryOp::GTE => BinaryOp::GreaterEq,
        SynBinaryOp::And => BinaryOp::And,
        SynBinaryOp::Or => BinaryOp::Or,
        SynBinaryOp::BitAnd => BinaryOp::BitAnd,
        SynBinaryOp::BitOr => BinaryOp::BitOr,
        SynBinaryOp::BitXor => BinaryOp::BitXor,
        SynBinaryOp::Xor => BinaryOp::BitXor,
        SynBinaryOp::LShift => BinaryOp::ShiftLeft,
        SynBinaryOp::RShift => BinaryOp::ShiftRight,
    }
}

/// The AST operator of an assignment operator: the four arithmetic
/// compound assignments are kept, every other one becomes plain assignment.
pub open spec fn spec_assign_op(op: SynAssignOp) -> AssignOp {
    match op {
        SynAssignOp::Add => AssignOp::AddAssign,
        SynAssignOp::Sub => AssignOp::SubAssign,
        SynAssignOp::Mult => AssignOp::MulAssign,
        SynAssignOp::Div => AssignOp::DivAssign,
        _ => AssignOp::Assign,
    }
}

fn translate_assign_op(op: SynAssignOp) -> (r: AssignOp)
    ensures
        r == spec_assign_op(op),
{
    match op {
        SynAssignOp::Add => AssignOp::AddAssign,
        SynAssignOp::Sub => AssignOp::SubAssign,
        SynAssignOp::Mult => AssignOp::MulAssign,
        SynAssignOp::Div => AssignOp::DivAssign,
        _ => AssignOp::Assign,
    }
}

/// `e` is the translation of `s`. Unary plus and the comma operator keep
/// only their (first) operand, increments and decrements become compound
/// assignments of 1, unsigned constants are reinterpreted as signed ones,
/// and an index expression keeps its array and indexes it by 0.
pub open spec fn spec_tr_expr(s: SynExpr, e: Expr) -> bool
    decreases s, 1nat,
{
    match s {
        SynExpr::FloatConst(f) => e == Expr::Float(f),
        SynExpr::IntConst(i) => e == Expr::Int(i),
        SynExpr::UIntConst(u) => e == Expr::Int(u as i32),
        SynExpr::BoolConst(b) => e == Expr::Bool(b),
        SynExpr::Variable(n) => e matches Expr::Ident(m) && m@ == n@,
        SynExpr::Unary(op, x) => match op {
            SynUnaryOp::Inc => e matches Expr::Assign(t, o, one) && o == AssignOp::AddAssign && *one == Expr::Int(1)
                && spec_tr_expr(*x, *t),
            SynUnaryOp::Dec => e matches Expr::Assign(t, o, one) && o == AssignOp::SubAssign && *one == Expr::Int(1)
                && spec_tr_expr(*x, *t),
            SynUnaryOp::Add => spec_tr_expr(*x, e),
            SynUnaryOp::Minus => e matches Expr::Unary(o, y) && o == UnaryOp::Neg && spec_tr_expr(*x, *y),
            SynUnaryOp::Not => e matches Expr::Unary(o, y) && o == UnaryOp::Not && spec_tr_expr(*x, *y),
            SynUnaryOp::Complement => e matches Expr::Unary(o, y) && o == UnaryOp::BitNot && spec_tr_expr(*x, *y),
        },
        SynExpr::Binary(op, a, b) => e matches Expr::Binary(o, ea, eb) && o == spec_binary_op(op)
            && spec_tr_expr(*a, *ea) && spec_tr_expr(*b, *eb),
        SynExpr::Assignment(t, op, v) => e matches Expr::Assign(et, o, ev) && o == spec_assign_op(op)
            && spec_tr_expr(*t, *et) && spec_tr_expr(*v, *ev),
        SynExpr::Ternary(c, a, b) => e matches Expr::Ternary(ec, ea, eb) && spec_tr_expr(*c, *ec) && spec_tr_expr(
            *a,
            *ea,
        ) && spec_tr_expr(*b, *eb),
        SynExpr::FunCall(ident, args) => e matches Expr::Call(name, eargs) && name@ == spec_callee(ident)
            && spec_tr_args(args@, eargs@),
        SynExpr::Dot(obj, field) => e matches Expr::Field(eo, f) && f@ == field@ && spec_tr_expr(*obj, *eo),
        SynExpr::Bracket(obj) => e matches Expr::Index(eo, z) && *z == Expr::Int(0) && spec_tr_expr(*obj, *eo),
        SynExpr::PostInc(x) => e matches Expr::Assign(t, o, one) && o == AssignOp::AddAssign && *one == Expr::Int(1)
            && spec_tr_expr(*x, *t),
        SynExpr::PostDec(x) => e matches Expr::Assign(t, o, one) && o == AssignOp::SubAssign && *one == Expr::Int(1)
            && spec_tr_expr(*x, *t),
        SynExpr::Comma(a, _) => spec_tr_expr(*a, e),
    }
}

/// `es` are the translations of `ss`, in order.
pub open spec fn spec_tr_args(ss: Seq<SynExpr>, es: Seq<Expr>) -> bool
    decreases ss, 0nat,
{
    if ss.len() == 0 {
        es.len() == 0
    } else {
        es.len() == ss.len() && spec_tr_args(ss.drop_last(), es.drop_last()) && spec_tr_expr(ss.last(), es.last())
    }
}

/// The name of the variable an expression reduces to under unary plus and
/// the comma operator, or "unknown" when it is no variable.
pub open spec fn spec_var_name(s: SynExpr) -> Seq<char>
    decreases s,
{
    match s {
        SynExpr::Variable(n) => n@,
        SynExpr::Unary(SynUnaryOp::Add, x) => spec_var_name(*x),
        SynExpr::Comma(a, _) => spec_var_name(*a),
        _ => "unknown"@,
    }
}

/// The name a call calls: the identifier, or for an expression the name of
/// the variable it translates to ("unknown" when it is none).
pub open spec fn spec_callee(ident: SynFunIdent) -> Seq<char> {
    match ident {
        SynFunIdent::Identifier(n) => n@,
        SynFunIdent::Expr(x) => spec_var_name(*x),
    }
}

/// The translation of an expression is a variable exactly when the
/// expression reduces to one, and then it names it.
proof fn lemma_var_name(s: SynExpr, e: Expr)
    requires
        spec_tr_expr(s, e),
    ensures
        e matches Expr::Ident(n) ==> n@ == spec_var_name(s),
        !(e is Ident) ==> spec_var_name(s) == "unknown"@,
    decreases s,
{
    match s {
        SynExpr::Unary(op, x) => {
            if op == SynUnaryOp::Add {
                lemma_var_name(*x, e);
            }
        },
        SynExpr::Comma(a, _) => {
            lemma_var_name(*a, e);
        },
        _ => {},
    }
}

/// `x = x op 1` for the translation `t` of `x`.
fn step(t: Expr, op: AssignOp) -> (e: Expr)
    ensures
        e matches Expr::Assign(tt, o, one) && o == op && *one == Expr::Int(1) && *tt == t,
{
    Expr::Assign(Box::new(t), op, Box::new(Expr::Int(1)))
}

/// Translate an expression.
pub fn translate_expr(s: &SynExpr) -> (e: Expr)
    ensures
        spec_tr_expr(*s, e),
    decreases s, 1nat,
{
    match s {
        SynExpr::FloatConst(f) => Expr::Float(*f),
        SynExpr::IntConst(i) => Expr::Int(*i),
        SynExpr::UIntConst(u) => Expr::Int(*u as i32),
        SynExpr::BoolConst(b) => Expr::Bool(*b),
        SynExpr::Variable(n) => Expr::Ident(n.clone()),
        SynExpr::Unary(op, inner) => match op {
            SynUnaryOp::Inc => step(translate_expr(inner), AssignOp::AddAssign),
            SynUnaryOp::Dec => step(translate_expr(inner), AssignOp::SubAssign),
            SynUnaryOp::Add => translate_expr(inner),
            SynUnaryOp::Minus => Expr::Unary(UnaryOp::Neg, Box::new(translate_expr(inner))),
            SynUnaryOp::Not => Expr::Unary(UnaryOp::Not, Box::new(translate_expr(inner))),
            SynUnaryOp::Complement => Expr::Unary(UnaryOp::BitNot, Box::new(translate_expr(inner))),
        },
        SynExpr::Binary(op, a, b) => {
            let bop = translate_binary_op(*op);
            let ea = translate_expr(a);
            let eb = translate_expr(b);
            Expr::Binary(bop, Box::new(ea), Box::new(eb))
        },
        SynExpr::Assignment(target, op, val) => {
            let aop = translate_assign_op(*op);
            let et = translate_expr(target);
            let ev = translate_expr(val);
            Expr::Assign(Box::new(et), aop, Box::new(ev))
        },
        SynExpr::Ternary(c, a, b) => {
            let ec = translate_expr(c);
            let ea = translate_expr(a);
            let eb = translate_expr(b);
            Expr::Ternary(Box::new(ec), Box::new(ea), Box::new(eb))
        },
        SynExpr::FunCall(ident, args) => {
            let name = match ident {
                SynFunIdent::Identifier(n) => n.clone(),
                SynFunIdent::Expr(x) => {
                    let tx = translate_expr(x);
                    proof {
                        lemma_var_name(**x, tx);
                    }
                    match tx {
                        Expr::Ident(n) => n,
                        _ => "unknown".to_owned(),
                    }
                },
            };
            let eargs = translate_exprs(args);
            Expr::Call(name, eargs)
        },
        SynExpr::Dot(obj, field) => Expr::Field(Box::new(translate_expr(obj)), field.clone()),
        SynExpr::Bracket(obj) => Expr::Index(Box::new(translate_expr(obj)), Box::new(Expr::Int(0))),
        SynExpr::PostInc(obj) => step(translate_expr(obj), AssignOp::AddAssign),
        SynExpr::PostDec(obj) => step(translate_expr(obj), AssignOp::SubAssign),
        SynExpr::Comma(a, _) => translate_expr(a),
    }
}

/// Translate a list of expressions, in order.
fn translate_exprs(args: &Vec<SynExpr>) -> (es: Vec<Expr>)
    ensures
        spec_tr_args(args@, es@),
    decreases args, 0nat,
{
    let mut es: Vec<Expr> = Vec::new();
    let mut i: usize = 0;
    while i < args.len()
        invariant
            0 <= i <= args@.len(),
            spec_tr_args(args@.subrange(0, i as int), es@),
        decreases args@.len() - i,
    {
        let e = translate_expr(&args[i]);
        let ghost prev = es@;
        es.push(e);
        proof {
            let sub = args@.subrange(0, i + 1);
            assert(sub.drop_last() =~= args@.subrange(0, i as int));
            assert(es@.drop_last() =~= prev);
        }
        i = i + 1;
    }
    assert(args@.subrange(0, args@.len() as int) =~= args@);
    es
}

/// Whether translating `s` gives a statement: blocks, expression
/// statements with an expression, `if`s and jumps do; local declarations,
/// loops, `switch` and case labels are dropped.
pub open spec fn spec_kept(s: SynStatement) -> bool {
    match s {
        SynStatement::Compound(_) => true,
        SynStatement::Simple(ss) => match *ss {
            SynSimple::Expression(oe) => oe is Some,
            SynSimple::Selection(_, _) => true,
            SynSimple::Jump(_) => true,
            _ => false,
        },
    }
}

/// `st` is the statement that a kept statement `s` translates to.
pub open spec fn spec_tr_stmt(s: SynStatement, st: Statement) -> bool
    decreases s, 2nat,
{
    match s {
        SynStatement::Compound(list) => st matches Statement::Block(v) && spec_tr_stmts(list@, v@),
        SynStatement::Simple(ss) => match *ss {
            SynSimple::Expression(oe) => match oe {
                Some(e) => st matches Statement::Expr(x) && spec_tr_expr(e, x),
                None => false,
            },
            SynSimple::Selection(cond, rest) => st matches Statement::If { cond: c, then_body, else_body }
                && spec_tr_expr(cond, c) && match rest {
                SynSelectionRest::Statement(a) => spec_tr_branch(*a, then_body@) && else_body@.len() == 0,
                SynSelectionRest::Else(a, b) => spec_tr_branch(*a, then_body@) && spec_tr_branch(*b, else_body@),
            },
            SynSimple::Jump(j) => match j {
                SynJump::Continue => st is Continue,
                SynJump::Break => st is Break,
                SynJump::Discard => st is Discard,
                SynJump::Return(oe) => st matches Statement::Return(r) && match oe {
                    None => r is None,
                    Some(e) => r matches Some(x) && spec_tr_expr(e, x),
                },
            },
            _ => false,
        },
    }
}

/// `v` is the body that the branch statement `s` of an `if` translates to:
/// the statement alone, or nothing when it is dropped.
pub open spec fn spec_tr_branch(s: SynStatement, v: Seq<Statement>) -> bool
    decreases s, 3nat,
{
    if spec_kept(s) {
        v.len() == 1 && spec_tr_stmt(s, v[0])
    } else {
        v.len() == 0
    }
}

/// `v` is what a list of statements translates to: the translations of the
/// kept statements, in order.
pub open spec fn spec_tr_stmts(ss: Seq<SynStatement>, v: Seq<Statement>) -> bool
    decreases ss, 0nat,
{
    if ss.len() == 0 {
        v.len() == 0
    } else if spec_kept(ss.last()) {
        v.len() > 0 && spec_tr_stmts(ss.drop_last(), v.drop_last()) && spec_tr_stmt(ss.last(), v.last())
    } else {
        spec_tr_stmts(ss.drop_last(), v)
    }
}

/// Translate a jump statement.
fn translate_jump(j: &SynJump) -> (st: Statement)
    ensures
        spec_tr_stmt(SynStatement::Simple(Box::new(SynSimple::Jump(*j))), st),
{
    match j {
        SynJump::Return(oe) => match oe {
            Some(e) => Statement::Return(Some(translate_expr(e))),
            None => Statement::Return(None),
        },
        SynJump::Break => Statement::Break,
        SynJump::Continue => Statement::Continue,
        SynJump::Discard => Statement::Discard,
    }
}

/// Translate the branch statement of an `if`.
fn translate_branch(s: &SynStatement) -> (v: Vec<Statement>)
    ensures
        spec_tr_branch(*s, v@),
    decreases s, 3nat,
{
    match translate_statement(s) {
        Some(st) => {
            let mut v: Vec<Statement> = Vec::new();
            v.push(st);
            v
        },
        None => Vec::new(),
    }
}

/// Translate a statement; `None` for one that is dropped.
pub fn translate_statement(s: &SynStatement) -> (r: Option<Statement>)
    ensures
        r is Some <==> spec_kept(*s),
        r matches Some(st) ==> spec_tr_stmt(*s, st),
    decreases s, 2nat,
{
    match s {
        SynStatement::Compound(list) => Some(Statement::Block(translate_compound(list))),
        SynStatement::Simple(ss) => match &**ss {
            SynSimple::Expression(oe) => match oe {
                Some(e) => Some(Statement::Expr(translate_expr(e))),
                None => None,
            },
            SynSimple::Selection(cond, rest) => {
                let c = translate_expr(cond);
                match rest {
                    SynSelectionRest::Statement(a) => {
                        let then_body = translate_branch(a);
                        Some(Statement::If { cond: c, then_body, else_body: Vec::new() })
                    },
                    SynSelectionRest::Else(a, b) => {
                        let then_body = translate_branch(a);
                        let else_body = translate_branch(b);
                        Some(Statement::If { cond: c, then_body, else_body })
                    },
                }
            },
            SynSimple::Jump(j) => Some(translate_jump(j)),
            _ => None,
        },
    }
}

/// Translate a list of statements, keeping the translations of the kept
/// ones in order.
pub fn translate_compound(list: &Vec<SynStatement>) -> (v: Vec<Statement>)
    ensures
        spec_tr_stmts(list@, v@),
    decreases list, 0nat,
{
    let mut v: Vec<Statement> = Vec::new();
    let mut i: usize = 0;
    while i < list.len()
        invariant
            0 <= i <= list@.len(),
            spec_tr_stmts(list@.subrange(0, i as int), v@),
        decreases list@.len() - i,
    {
        let r = translate_statement(&list[i]);
        let ghost prev = v@;
        proof {
            let sub = list@.subrange(0, i + 1);
            assert(sub.drop_last() =~= list@.subrange(0, i as int));
            assert(sub.last() == list@[i as int]);
        }
        match r {
            Some(st) => {
                v.push(st);
                proof {
                    assert(v@.drop_last() =~= prev);
                }
            },
            None => {},
        }
        i = i + 1;
    }
    assert(list@.subrange(0, list@.len() as int) =~= list@);
    v
}

/// The kind of a global declaration by its first qualifier: uniform,
/// attribute, varying or const storage; `None` otherwise.
pub open spec fn spec_decl_kind(q: Option<SynQualifier>) -> Option<DeclKind> {
    match q {
        Some(SynQualifier::Storage(st)) => match st {
            SynStorage::Uniform => Some(DeclKind::Uniform),
            SynStorage::Attribute => Some(DeclKind::Attribute),
            SynStorage::Varying => Some(DeclKind::Varying),
            SynStorage::Const => Some(DeclKind::Const),
            SynStorage::Other => None,
        },
        _ => None,
    }
}

fn decl_kind(q: Option<SynQualifier>) -> (k: Option<DeclKind>)
    ensures
        k == spec_decl_kind(q),
{
    match q {
        Some(SynQualifier::Storage(st)) => match st {
            SynStorage::Uniform => Some(DeclKind::Uniform),
            SynStorage::Attribute => Some(DeclKind::Attribute),
            SynStorage::Varying => Some(DeclKind::Varying),
            SynStorage::Const => Some(DeclKind::Const),
            SynStorage::Other => None,
        },
        _ => None,
    }
}

/// The uniform, attribute and varying slot counts after `x`, from `c`: a
/// named uniform, attribute or varying declaration takes one slot more than
/// its type has components.
pub open spec fn spec_count_step(c: (int, int, int), x: SynExternal) -> (int, int, int) {
    match x {
        SynExternal::Declaration(SynDeclaration::InitDeclaratorList { ty, name, qualifier }) => {
            let n = spec_components(spec_type(ty)) as int + 1;
            if name is Some {
                match spec_decl_kind(qualifier) {
                    Some(DeclKind::Uniform) => (c.0 + n, c.1, c.2),
                    Some(DeclKind::Attribute) => (c.0, c.1 + n, c.2),
                    Some(DeclKind::Varying) => (c.0, c.1, c.2 + n),
                    _ => c,
                }
            } else {
                c
            }
        },
        _ => c,
    }
}

/// The slot counts after the externals `exts`.
pub open spec fn spec_counts(exts: Seq<SynExternal>) -> (int, int, int)
    decreases exts.len(),
{
    if exts.len() == 0 {
        (0, 0, 0)
    } else {
        spec_count_step(spec_counts(exts.drop_last()), exts.last())
    }
}

/// The location a declaration of kind `k` gets when the counts are `c`.
pub open spec fn spec_location(c: (int, int, int), k: DeclKind) -> int {
    match k {
        DeclKind::Uniform => c.0,
        DeclKind::Attribute => c.1,
        DeclKind::Varying => c.2,
        DeclKind::Const => 0,
    }
}

/// Whether an external adds a declaration: functions other than `main`,
/// and named variable declarations.
pub open spec fn spec_contributes(x: SynExternal) -> bool {
    match x {
        SynExternal::FunctionDefinition { name, .. } => name@ != "main"@,
        SynExternal::Declaration(SynDeclaration::InitDeclaratorList { name, .. }) => name is Some,
        _ => false,
    }
}

/// `d` is the declaration that `x` adds when the counts are `c`.
pub open spec fn spec_tr_decl(x: SynExternal, c: (int, int, int), d: Declaration) -> bool {
    match x {
        SynExternal::FunctionDefinition { name, return_ty, body } => d matches Declaration::Function {
            name: n,
            params,
            return_ty: rt,
            body: b,
        } && n@ == name@ && params@.len() == 0 && rt == spec_type(return_ty) && spec_tr_stmts(body@, b@),
        SynExternal::Declaration(SynDeclaration::InitDeclaratorList { ty, name, qualifier }) => match name {
            Some(nm) => match spec_decl_kind(qualifier) {
                Some(DeclKind::Uniform) => d matches Declaration::Uniform { name: m, ty: t, location } && m@ == nm@
                    && t == spec_type(ty) && location == c.0,
                Some(DeclKind::Attribute) => d matches Declaration::Attribute { name: m, ty: t, location } && m@
                    == nm@ && t == spec_type(ty) && location == c.1,
                Some(DeclKind::Varying) => d matches Declaration::Varying { name: m, ty: t, location } && m@ == nm@
                    && t == spec_type(ty) && location == c.2,
                _ => d matches Declaration::Global { name: m, ty: t, init } && m@ == nm@ && t == spec_type(ty)
                    && init is None,
            },
            None => false,
        },
        _ => false,
    }
}

/// `ds` are the declarations that the externals `exts` add, in order.
pub open spec fn spec_tr_decls(exts: Seq<SynExternal>, ds: Seq<Declaration>) -> bool
    decreases exts.len(),
{
    if exts.len() == 0 {
        ds.len() == 0
    } else if spec_contributes(exts.last()) {
        ds.len() > 0 && spec_tr_decls(exts.drop_last(), ds.drop_last()) && spec_tr_decl(
            exts.last(),
            spec_counts(exts.drop_last()),
            ds.last(),
        )
    } else {
        spec_tr_decls(exts.drop_last(), ds)
    }
}

/// The symbol that `x` declares when the counts are `c`: a named
/// declaration with a uniform, attribute, varying or const qualifier maps
/// its name to its kind and location.
pub open spec fn spec_declared(x: SynExternal, c: (int, int, int)) -> Option<(Seq<char>, DeclKind, int)> {
    match x {
        SynExternal::Declaration(SynDeclaration::InitDeclaratorList { name, qualifier, .. }) => match name {
            Some(nm) => match spec_decl_kind(qualifier) {
                Some(k) => Some((nm@, k, spec_location(c, k))),
                None => None,
            },
            None => None,
        },
        _ => None,
    }
}

/// What `n` maps to in the symbol table after the externals `exts`: the
/// last declaration of `n` wins.
pub open spec fn spec_symbol(exts: Seq<SynExternal>, n: Seq<char>) -> Option<(DeclKind, u32)>
    decreases exts.len(),
{
    if exts.len() == 0 {
        None
    } else {
        match spec_declared(exts.last(), spec_counts(exts.drop_last())) {
            Some((m, k, loc)) => if m == n {
                Some((k, loc as u32))
            } else {
                spec_symbol(exts.drop_last(), n)
            },
            None => spec_symbol(exts.drop_last(), n),
        }
    }
}

/// Whether `x` defines `main`.
pub open spec fn spec_is_main(x: SynExternal) -> bool {
    x matches SynExternal::FunctionDefinition { name, .. } && name@ == "main"@
}

/// The index of the last definition of `main` among `exts`, or -1.
pub open spec fn spec_main_index(exts: Seq<SynExternal>) -> int
    decreases exts.len(),
{
    if exts.len() == 0 {
        -1
    } else if spec_is_main(exts.last()) {
        exts.len() - 1
    } else {
        spec_main_index(exts.drop_last())
    }
}

/// The slot counts never decrease along a list of externals.
proof fn lemma_counts_monotone(exts: Seq<SynExternal>, i: int)
    requires
        0 <= i <= exts.len(),
    ensures
        spec_counts(exts.subrange(0, i)).0 <= spec_counts(exts).0,
        spec_counts(exts.subrange(0, i)).1 <= spec_counts(exts).1,
        spec_counts(exts.subrange(0, i)).2 <= spec_counts(exts).2,
        0 <= spec_counts(exts.subrange(0, i)).0,
        0 <= spec_counts(exts.subrange(0, i)).1,
        0 <= spec_counts(exts.subrange(0, i)).2,
    decreases exts.len() - i,
{
    if i < exts.len() {
        let sub = exts.subrange(0, i + 1);
        assert(sub.drop_last() =~= exts.subrange(0, i));
        lemma_counts_monotone(exts, i + 1);
        lemma_counts_nonneg(exts.subrange(0, i));
    } else {
        assert(exts.subrange(0, i) =~= exts);
        lemma_counts_nonneg(exts);
    }
}

proof fn lemma_counts_nonneg(exts: Seq<SynExternal>)
    ensures
        0 <= spec_counts(exts).0,
        0 <= spec_counts(exts).1,
        0 <= spec_counts(exts).2,
    decreases exts.len(),
{
    if exts.len() > 0 {
        lemma_counts_nonneg(exts.drop_last());
    }
}

impl Shader {
    /// The slot counts of the shader.
    pub open spec fn spec_counts_of(&self) -> (int, int, int) {
        (self.uniform_count as int, self.attrib_count as int, self.varying_count as int)
    }
}

/// Translate a global declaration into `shader`: a named declaration with a
/// uniform, attribute or varying qualifier takes the next slots of its
/// kind, and with any of these or a const qualifier is also entered in the
/// symbol table; a named declaration without one becomes a plain global.
pub fn translate_declaration(d: &SynDeclaration, shader: &mut Shader)
    requires
        spec_count_step(old(shader).spec_counts_of(), SynExternal::Declaration(*d)).0 <= u32::MAX,
        spec_count_step(old(shader).spec_counts_of(), SynExternal::Declaration(*d)).1 <= u32::MAX,
        spec_count_step(old(shader).spec_counts_of(), SynExternal::Declaration(*d)).2 <= u32::MAX,
    ensures
        ({
            let x = SynExternal::Declaration(*d);
            let c = old(shader).spec_counts_of();
            &&& final(shader).stage == old(shader).stage
            &&& final(shader).main_body == old(shader).main_body
            &&& final(shader).spec_counts_of() == spec_count_step(c, x)
            &&& if spec_contributes(x) {
                &&& final(shader).declarations@.len() == old(shader).declarations@.len() + 1
                &&& final(shader).declarations@.drop_last() == old(shader).declarations@
                &&& spec_tr_decl(x, c, final(shader).declarations@.last())
            } else {
                final(shader).declarations@ == old(shader).declarations@
            }
            &&& forall|n: Seq<char>| #[trigger] final(shader).symbols.spec_get(n) == match spec_declared(x, c) {
                Some((m, k, loc)) => if m == n {
                    Some((k, loc as u32))
                } else {
                    old(shader).symbols.spec_get(n)
                },
                None => old(shader).symbols.spec_get(n),
            }
        }),
{
    match d {
        SynDeclaration::InitDeclaratorList { ty, name, qualifier } => {
            let t = translate_type(*ty);
            match name {
                Some(name) => {
                    match decl_kind(*qualifier) {
                        Some(kind) => {
                            let location = match kind {
                                DeclKind::Uniform => shader.uniform_count,
                                DeclKind::Attribute => shader.attrib_count,
                                DeclKind::Varying => shader.varying_count,
                                DeclKind::Const => 0,
                            };
                            let n = t.components() as u32 + 1;
                            let decl = match kind {
                                DeclKind::Uniform => {
                                    shader.uniform_count = shader.uniform_count + n;
                                    Declaration::Uniform { name: name.clone(), ty: t, location }
                                },
                                DeclKind::Attribute => {
                                    shader.attrib_count = shader.attrib_count + n;
                                    Declaration::Attribute { name: name.clone(), ty: t, location }
                                },
                                DeclKind::Varying => {
                                    shader.varying_count = shader.varying_count + n;
                                    Declaration::Varying { name: name.clone(), ty: t, location }
                                },
                                DeclKind::Const => Declaration::Global { name: name.clone(), ty: t, init: None },
                            };
                            let ghost before = shader.declarations@;
                            shader.declarations.push(decl);
                            assert(shader.declarations@.drop_last() =~= before);
                            shader.symbols.insert(name.clone(), kind, location);
                        },
                        None => {
                            let ghost before = shader.declarations@;
                            shader.declarations.push(Declaration::Global { name: name.clone(), ty: t, init: None });
                            assert(shader.declarations@.drop_last() =~= before);
                        },
                    }
                },
                None => {},
            }
        },
        _ => {},
    }
}

/// Translate one external of a translation unit into `shader`: `main`
/// gives the shader its body, any other function definition becomes a
/// function declaration (without parameters), and declarations go through
/// `translate_declaration`.
pub fn translate_external_declaration(x: &SynExternal, shader: &mut Shader)
    requires
        spec_count_step(old(shader).spec_counts_of(), *x).0 <= u32::MAX,
        spec_count_step(old(shader).spec_counts_of(), *x).1 <= u32::MAX,
        spec_count_step(old(shader).spec_counts_of(), *x).2 <= u32::MAX,
    ensures
        ({
            let c = old(shader).spec_counts_of();
            &&& final(shader).stage == old(shader).stage
            &&& if spec_is_main(*x) {
                (x matches SynExternal::FunctionDefinition { body, .. } && spec_tr_stmts(body@, final(shader).main_body@))
            } else {
                final(shader).main_body == old(shader).main_body
            }
            &&& final(shader).spec_counts_of() == spec_count_step(c, *x)
            &&& if spec_contributes(*x) {
                &&& final(shader).declarations@.len() == old(shader).declarations@.len() + 1
                &&& final(shader).declarations@.drop_last() == old(shader).declarations@
                &&& spec_tr_decl(*x, c, final(shader).declarations@.last())
            } else {
                final(shader).declarations@ == old(shader).declarations@
            }
            &&& forall|n: Seq<char>| #[trigger] final(shader).symbols.spec_get(n) == match spec_declared(*x, c) {
                Some((m, k, loc)) => if m == n {
                    Some((k, loc as u32))
                } else {
                    old(shader).symbols.spec_get(n)
                },
                None => old(shader).symbols.spec_get(n),
            }
        }),
{
    match x {
        SynExternal::FunctionDefinition { name, return_ty, body } => {
            if str_eq(name.as_str(), "main") {
                proof {
                    reveal_strlit("main");
                }
                shader.main_body = translate_compound(body);
            } else {
                proof {
                    reveal_strlit("main");
                }
                let rt = translate_type(*return_ty);
                let b = translate_compound(body);
                let ghost before = shader.declarations@;
                shader.declarations.push(
                    Declaration::Function { name: name.clone(), params: Vec::new(), return_ty: rt, body: b },
                );
                assert(shader.declarations@.drop_last() =~= before);
            }
        },
        SynExternal::Declaration(d) => translate_declaration(d, shader),
        SynExternal::Preprocessor => {},
    }
}

/// The slot counts of `exts` fit in a `u32`, as [`translate_unit`] asks.
pub open spec fn spec_counts_fit(exts: Seq<SynExternal>) -> bool {
    &&& spec_counts(exts).0 <= u32::MAX
    &&& spec_counts(exts).1 <= u32::MAX
    &&& spec_counts(exts).2 <= u32::MAX
}

/// Whether [`translate_unit`] can number the slots of `exts`.
pub fn slot_counts_fit(exts: &Vec<SynExternal>) -> (b: bool)
    ensures
        b == spec_counts_fit(exts@),
{
    let mut c0: u64 = 0;
    let mut c1: u64 = 0;
    let mut c2: u64 = 0;
    let mut i: usize = 0;
    while i < exts.len()
        invariant
            0 <= i <= exts@.len(),
            c0 == spec_counts(exts@.subrange(0, i as int)).0,
            c1 == spec_counts(exts@.subrange(0, i as int)).1,
            c2 == spec_counts(exts@.subrange(0, i as int)).2,
            c0 <= u32::MAX,
            c1 <= u32::MAX,
            c2 <= u32::MAX,
        decreases exts@.len() - i,
    {
        proof {
            assert(exts@.subrange(0, i + 1).drop_last() =~= exts@.subrange(0, i as int));
            lemma_counts_monotone(exts@, i + 1);
        }
        match &exts[i] {
            SynExternal::Declaration(SynDeclaration::InitDeclaratorList { ty, name, qualifier }) => {
                if name.is_some() {
                    let n = translate_type(*ty).components() as u64 + 1;
                    match decl_kind(*qualifier) {
                        Some(DeclKind::Uniform) => {
                            if c0 + n > 0xFFFF_FFFF {
                                return false;
                            }
                            c0 = c0 + n;
                        },
                        Some(DeclKind::Attribute) => {
                            if c1 + n > 0xFFFF_FFFF {
                                return false;
                            }
                            c1 = c1 + n;
                        },
                        Some(DeclKind::Varying) => {
                            if c2 + n > 0xFFFF_FFFF {
                                return false;
                            }
                            c2 = c2 + n;
                        },
                        _ => {},
                    }
                }
            },
            _ => {},
        }
        i = i + 1;
    }
    proof {
        assert(exts@.subrange(0, exts@.len() as int) =~= exts@);
    }
    true
}

/// Translate a whole translation unit into a new shader for `stage`: the
/// declarations in order, the body of the last `main`, the slot counts and
/// the symbol table that `spec_tr_decls`, `spec_counts` and `spec_symbol`
/// describe.
pub fn translate_unit(exts: &Vec<SynExternal>, stage: ShaderStage) -> (shader: Shader)
    requires
        spec_counts(exts@).0 <= u32::MAX,
        spec_counts(exts@).1 <= u32::MAX,
        spec_counts(exts@).2 <= u32::MAX,
    ensures
        shader.stage == stage,
        spec_tr_decls(exts@, shader.declarations@),
        spec_main_index(exts@) == -1 ==> shader.main_body@.len() == 0,
        spec_main_index(exts@) >= 0 ==> (exts@[spec_main_index(exts@)] matches SynExternal::FunctionDefinition {
            body,
            ..
        } && spec_tr_stmts(body@, shader.main_body@)),
        shader.spec_counts_of() == spec_counts(exts@),
        forall|n: Seq<char>| #[trigger] shader.symbols.spec_get(n) == spec_symbol(exts@, n),
{
    let mut shader = Shader::new(stage);
    let mut i: usize = 0;
    while i < exts.len()
        invariant
            0 <= i <= exts@.len(),
            spec_counts(exts@).0 <= u32::MAX,
            spec_counts(exts@).1 <= u32::MAX,
            spec_counts(exts@).2 <= u32::MAX,
            shader.stage == stage,
            spec_tr_decls(exts@.subrange(0, i as int), shader.declarations@),
            spec_main_index(exts@.subrange(0, i as int)) == -1 ==> shader.main_body@.len() == 0,
            spec_main_index(exts@.subrange(0, i as int)) >= 0 ==> (exts@[spec_main_index(
                exts@.subrange(0, i as int),
            )] matches SynExternal::FunctionDefinition { body, .. } && spec_tr_stmts(body@, shader.main_body@)),
            spec_main_index(exts@.subrange(0, i as int)) < i,
            shader.spec_counts_of() == spec_counts(exts@.subrange(0, i as int)),
            forall|n: Seq<char>| #[trigger] shader.symbols.spec_get(n) == spec_symbol(exts@.subrange(0, i as int), n),
        decreases exts@.len() - i,
    {
        proof {
            lemma_counts_monotone(exts@, i + 1);
            assert(exts@.subrange(0, i + 1).drop_last() =~= exts@.subrange(0, i as int));
        }
        let ghost prev = shader;
        translate_external_declaration(&exts[i], &mut shader);
        proof {
            let sub = exts@.subrange(0, i + 1);
            assert(sub.drop_last() =~= exts@.subrange(0, i as int));
            assert(sub.last() == exts@[i as int]);
            assert forall|n: Seq<char>| #[trigger] shader.symbols.spec_get(n) == spec_symbol(sub, n) by {}
            if spec_is_main(exts@[i as int]) {
                assert(spec_main_index(sub) == i);
            } else {
                assert(spec_main_index(sub) == spec_main_index(exts@.subrange(0, i as int)));
            }
        }
        i = i + 1;
    }
    assert(exts@.subrange(0, exts@.len() as int) =~= exts@);
    shader
}

} // verus!
