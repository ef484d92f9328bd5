//! The parts of a parsed GLSL translation unit that the front end reads,
//! as plain values: the parser's syntax tree is carried over into these
//! types one node for one node, and `parser` translates them into the AST.

use vstd::prelude::*;

verus! {

/// A non-array type specifier; `Other` stands for every type the front end
/// does not distinguish.
#[derive(Clone, Copy, Debug, PartialEq, Eq, Structural)]
pub enum SynType {
    Void,
    Float,
    Int,
    Bool,
    Vec2,
    Vec3,
    Vec4,
    IVec2,
    IVec3,
    IVec4,
    BVec2,
    BVec3,
    BVec4,
    Mat2,
    Mat3,
    Mat4,
    Sampler2D,
    SamplerCube,
    Other,
}

/// A storage qualifier; `Other` stands for the ones the front end ignores.
#[derive(Clone, Copy, Debug, PartialEq, Eq, Structural)]
pub enum SynStorage {
    Uniform,
    Attribute,
    Varying,
    Const,
    Other,
}

/// A type qualifier: a storage qualifier, or any other kind of qualifier.
#[derive(Clone, Copy, Debug, PartialEq, Eq, Structural)]
pub enum SynQualifier {
    Storage(SynStorage),
    Other,
}

/// A unary operator.
#[derive(Clone, Copy, Debug, PartialEq, Eq, Structural)]
pub enum SynUnaryOp {
    Inc,
    Dec,
    Add,
    Minus,
    Not,
    Complement,
}

/// A binary operator.
#[derive(Clone, Copy, Debug, PartialEq, Eq, Structural)]
pub enum SynBinaryOp {
    Or,
    Xor,
    And,
    BitOr,
    BitXor,
    BitAnd,
    Equal,
    NonEqual,
    LT,
    GT,
    LTE,
    GTE,
    LShift,
    RShift,
    Add,
    Sub,
    Mult,
    Div,
    Mod,
}

/// An assignment operator; `Other` stands for the compound assignments the
/// front end treats as plain assignment.
#[derive(Clone, Copy, Debug, PartialEq, Eq, Structural)]
pub enum SynAssignOp {
    Equal,
    Mult,
    Div,
    Mod,
    Add,
    Sub,
    Other,
}

/// An expression. Floating-point constants, single or double precision,
/// are held as the IEEE-754 bits of their single-precision value; of an
/// indexing expression only the indexed expression is kept.
#[derive(Debug)]
pub enum SynExpr {
    Variable(String),
    IntConst(i32),
    UIntConst(u32),
    BoolConst(bool),
    FloatConst(u32),
    Unary(SynUnaryOp, Box<SynExpr>),
    Binary(SynBinaryOp, Box<SynExpr>, Box<SynExpr>),
    Ternary(Box<SynExpr>, Box<SynExpr>, Box<SynExpr>),
    Assignment(Box<SynExpr>, SynAssignOp, Box<SynExpr>),
    Bracket(Box<SynExpr>),
    FunCall(SynFunIdent, Vec<SynExpr>),
    Dot(Box<SynExpr>, String),
    PostInc(Box<SynExpr>),
    PostDec(Box<SynExpr>),
    Comma(Box<SynExpr>, Box<SynExpr>),
}

/// What a function call names: a function by name, or an expression.
#[derive(Debug)]
pub enum SynFunIdent {
    Identifier(String),
    Expr(Box<SynExpr>),
}

/// A statement: a block of statements or a simple statement.
#[derive(Debug)]
pub enum SynStatement {
    Compound(Vec<SynStatement>),
    Simple(Box<SynSimple>),
}

/// A simple statement. Local declarations, loops, `switch` and case labels
/// are kept only as what they are.
#[derive(Debug)]
pub enum SynSimple {
    Declaration,
    Expression(Option<SynExpr>),
    Selection(SynExpr, SynSelectionRest),
    Iteration,
    Switch,
    CaseLabel,
    Jump(SynJump),
}

/// The branches of an `if`.
#[derive(Debug)]
pub enum SynSelectionRest {
    Statement(Box<SynStatement>),
    Else(Box<SynStatement>, Box<SynStatement>),
}

/// A jump statement.
#[derive(Debug)]
pub enum SynJump {
    Continue,
    Break,
    Return(Option<SynExpr>),
    Discard,
}

/// A declaration. Of a list of declarators only the first one is kept, with
/// the type of the list and the first of its qualifiers.
#[derive(Debug)]
pub enum SynDeclaration {
    InitDeclaratorList { ty: SynType, name: Option<String>, qualifier: Option<SynQualifier> },
    FunctionPrototype,
    Precision,
    Block,
    Global,
}

/// A top-level item of a translation unit.
#[derive(Debug)]
pub enum SynExternal {
    Preprocessor,
    FunctionDefinition { name: String, return_ty: SynType, body: Vec<SynStatement> },
    Declaration(SynDeclaration),
}

} // verus!
