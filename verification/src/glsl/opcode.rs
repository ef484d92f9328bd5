//! The bytecode of the shader interpreter, a stack machine.

use vstd::prelude::*;

verus! {

/// Opcodes.
#[derive(Clone, Copy, Debug, PartialEq, Eq, Structural)]
pub enum Op {
    PushFloat,
    PushInt,
    PushBool,
    Pop,
    Load,
    Store,
    LoadAttrib,
    LoadUniform,
    LoadVarying,
    LoadBuiltin,
    StoreVarying,
    StoreBuiltin,
    Add,
    Sub,
    Mul,
    Div,
    Mod,
    Equal,
    NotEqual,
    Less,
    Greater,
    LessEq,
    GreaterEq,
    And,
    Or,
    Not,
    Neg,
    Abs,
    Sign,
    Floor,
    Ceil,
    Fract,
    Sin,
    Cos,
    Tan,
    Asin,
    Acos,
    Atan,
    Pow,
    Exp,
    Log,
    Exp2,
    Log2,
    Sqrt,
    Mix,
    Clamp,
    SmoothStep,
    Step,
    Length,
    Distance,
    Normalize,
    Dot,
    Cross,
    Reflect,
    Refract,
    FaceForward,
    Min,
    Max,
    Vec2,
    Vec3,
    Vec4,
    Swizzle,
    MatrixCompMult,
    Transpose,
    Inverse,
    Determinant,
    Texture2D,
    TextureCube,
    Jump,
    JumpIfFalse,
    JumpIfTrue,
    Call,
    Return,
    Discard,
    Nop,
}

/// One instruction: an opcode, its argument (constant index, slot, jump
/// target or swizzle mask) and, for `PushFloat`, the bits of the float.
#[derive(Clone, Copy, Debug, PartialEq, Eq, Structural)]
pub struct Instruction {
    pub op: Op,
    pub arg: u32,
    pub float_val: u32,
}

/// A compiled shader: instructions, constant pools and the entry point.
#[derive(Debug)]
pub struct ShaderProgram {
    pub instructions: Vec<Instruction>,
    pub float_consts: Vec<u32>,
    pub int_consts: Vec<i32>,
    pub entry: u32,
}

impl ShaderProgram {
    /// An empty program.
    pub fn new() -> (p: ShaderProgram)
        ensures
            p.instructions@.len() == 0,
            p.float_consts@.len() == 0,
            p.int_consts@.len() == 0,
            p.entry == 0,
    {
        ShaderProgram { instructions: Vec::new(), float_consts: Vec::new(), int_consts: Vec::new(), entry: 0 }
    }
}

} // verus!
