//! A simplified GLSL AST: declarations, statements and expressions, with a
//! symbol table from names to attribute, uniform and varying slots.
//!
//! Float literals are held as their IEEE-754 bit patterns.

use vstd::prelude::*;

verus! {

/// The kind of a global declaration that owns a slot.
#[derive(Clone, Copy, Debug, PartialEq, Eq, Hash, Structural)]
pub enum DeclKind {
    Uniform,
    Attribute,
    Varying,
    Const,
}

/// Which pipeline stage a shader runs in.
#[derive(Clone, Copy, Debug, PartialEq, Eq, Structural)]
pub enum ShaderStage {
    Vertex,
    Fragment,
}

/// GLSL types.
#[derive(Clone, Copy, Debug, PartialEq, Eq, Structural)]
pub enum Type {
    Void,
    Float,
    Int,
    Bool,
    Vec2,
    Vec3,
    Vec4,
    IVec2,
    IVec3,
    IVec4,
    BVec2,
    BVec3,
    BVec4,
    Mat2,
    Mat3,
    Mat4,
    Sampler2D,
    SamplerCube,
}

/// Number of scalar components of a type.
pub open spec fn spec_components(t: Type) -> usize {
    match t {
        Type::Float | Type::Int | Type::Bool => 1,
        Type::Vec2 | Type::IVec2 | Type::BVec2 => 2,
        Type::Vec3 | Type::IVec3 | Type::BVec3 => 3,
        Type::Vec4 | Type::IVec4 | Type::BVec4 => 4,
        Type::Mat2 => 4,
        Type::Mat3 => 9,
        Type::Mat4 => 16,
        _ => 0,
    }
}

impl Type {
    /// Number of scalar components (for stack accounting); 0 for void and
    /// samplers.
    pub fn components(&self) -> (n: usize)
        ensures
            n == spec_components(*self),
    {
        match self {
            Type::Float | Type::Int | Type::Bool => 1,
            Type::Vec2 | Type::IVec2 | Type::BVec2 => 2,
            Type::Vec3 | Type::IVec3 | Type::BVec3 => 3,
            Type::Vec4 | Type::IVec4 | Type::BVec4 => 4,
            Type::Mat2 => 4,
            Type::Mat3 => 9,
            Type::Mat4 => 16,
            _ => 0,
        }
    }
}

/// How a function parameter is passed.
#[derive(Clone, Copy, Debug, PartialEq, Eq, Structural)]
pub enum ParamQualifier {
    In,
    Out,
    Inout,
}

/// A function parameter.
#[derive(Clone, Debug)]
pub struct Param {
    pub name: String,
    pub ty: Type,
    pub qualifier: ParamQualifier,
}

/// Assignment operators.
#[derive(Clone, Copy, Debug, PartialEq, Eq, Structural)]
pub enum AssignOp {
    Assign,
    AddAssign,
    SubAssign,
    MulAssign,
    DivAssign,
}

/// Unary operators.
#[derive(Clone, Copy, Debug, PartialEq, Eq, Structural)]
pub enum UnaryOp {
    Neg,
    Not,
    BitNot,
}

/// Binary operators.
#[derive(Clone, Copy, Debug, PartialEq, Eq, Structural)]
pub enum BinaryOp {
    Add,
    Sub,
    Mul,
    Div,
    Mod,
    Equal,
    NotEqual,
    Less,
    Greater,
    LessEq,
    GreaterEq,
    And,
    Or,
    BitAnd,
    BitOr,
    BitXor,
    ShiftLeft,
    ShiftRight,
}

/// Expressions. `Float` holds the bit pattern of an `f32` literal.
#[derive(Debug)]
pub enum Expr {
    Float(u32),
    Int(i32),
    Bool(bool),
    Ident(String),
    Field(Box<Expr>, String),
    Index(Box<Expr>, Box<Expr>),
    Call(String, Vec<Expr>),
    Unary(UnaryOp, Box<Expr>),
    Binary(BinaryOp, Box<Expr>, Box<Expr>),
    Ternary(Box<Expr>, Box<Expr>, Box<Expr>),
    Assign(Box<Expr>, AssignOp, Box<Expr>),
}

/// Statements.
#[derive(Debug)]
pub enum Statement {
    Expr(Expr),
    Declare { name: String, ty: Type, init: Option<Expr> },
    Assign { target: Expr, op: AssignOp, value: Expr },
    If { cond: Expr, then_body: Vec<Statement>, else_body: Vec<Statement> },
    For { init: Box<Statement>, cond: Expr, update: Box<Statement>, body: Vec<Statement> },
    While { cond: Expr, body: Vec<Statement> },
    DoWhile { body: Vec<Statement>, cond: Expr },
    Return(Option<Expr>),
    Break,
    Continue,
    Discard,
    Block(Vec<Statement>),
}

/// Global declarations.
#[derive(Debug)]
pub enum Declaration {
    Uniform { name: String, ty: Type, location: u32 },
    Attribute { name: String, ty: Type, location: u32 },
    Varying { name: String, ty: Type, location: u32 },
    Function { name: String, params: Vec<Param>, return_ty: Type, body: Vec<Statement> },
    Global { name: String, ty: Type, init: Option<Expr> },
}

/// Whether two strings are equal.
pub fn str_eq(a: &str, b: &str) -> (r: bool)
    ensures
        r == (a@ == b@),
{
    let n = a.unicode_len();
    if n != b.unicode_len() {
        return false;
    }
    let mut i: usize = 0;
    while i < n
        invariant
            n == a@.len(),
            a@.len() == b@.len(),
            0 <= i <= n,
            forall|k: int| 0 <= k < i ==> a@[k] == b@[k],
        decreases n - i,
    {
        if a.get_char(i) != b.get_char(i) {
            return false;
        }
        i = i + 1;
    }
    assert(a@ =~= b@);
    true
}

/// The entry of a name in a sequence of symbol entries: the first entry
/// with that name.
pub open spec fn spec_lookup(entries: Seq<(String, DeclKind, u32)>, name: Seq<char>) -> Option<(DeclKind, u32)>
    decreases entries.len(),
{
    if entries.len() == 0 {
        None
    } else if entries[0].0@ == name {
        Some((entries[0].1, entries[0].2))
    } else {
        spec_lookup(entries.drop_first(), name)
    }
}

/// Names mapped to the kind and slot of their declaration.
#[derive(Clone, Debug)]
pub struct SymbolTable {
    entries: Vec<(String, DeclKind, u32)>,
}

impl SymbolTable {
    /// The entries, earliest first.
    pub closed spec fn spec_entries(&self) -> Seq<(String, DeclKind, u32)> {
        self.entries@
    }

    /// The kind and slot that `name` maps to.
    pub open spec fn spec_get(&self, name: Seq<char>) -> Option<(DeclKind, u32)> {
        spec_lookup(self.spec_entries(), name)
    }

    /// An empty table.
    pub fn new() -> (t: SymbolTable)
        ensures
            forall|n: Seq<char>| #[trigger] t.spec_get(n) is None,
    {
        let t = SymbolTable { entries: Vec::new() };
        assert forall|n: Seq<char>| #[trigger] t.spec_get(n) is None by {
            assert(t.spec_entries().len() == 0);
        }
        t
    }

    /// The index of the first entry named `name`.
    fn find(&self, name: &str) -> (r: Option<usize>)
        ensures
            r matches Some(i) ==> i < self.entries@.len() && self.entries@[i as int].0@ == name@ && forall|
                k: int,
            | 0 <= k < i ==> self.entries@[k].0@ != name@,
            r is None ==> forall|k: int| 0 <= k < self.entries@.len() ==> self.entries@[k].0@ != name@,
    {
        let mut i: usize = 0;
        while i < self.entries.len()
            invariant
                0 <= i <= self.entries@.len(),
                forall|k: int| 0 <= k < i ==> self.entries@[k].0@ != name@,
            decreases self.entries@.len() - i,
        {
            if str_eq(self.entries[i].0.as_str(), name) {
                return Some(i);
            }
            i = i + 1;
        }
        None
    }

    /// The kind and slot of `name`, if it is in the table.
    pub fn get(&self, name: &str) -> (r: Option<(DeclKind, u32)>)
        ensures
            r == self.spec_get(name@),
    {
        let f = self.find(name);
        proof {
            lemma_lookup_prefix(self.entries@, name@, f);
        }
        match f {
            Some(i) => Some((self.entries[i].1, self.entries[i].2)),
            None => None,
        }
    }

    /// Map `name` to `(kind, location)`, replacing what it mapped to before.
    pub fn insert(&mut self, name: String, kind: DeclKind, location: u32)
        ensures
            final(self).spec_get(name@) == Some((kind, location)),
            forall|n: Seq<char>| n != name@ ==> #[trigger] final(self).spec_get(n) == old(self).spec_get(n),
    {
        let ghost old_entries = self.entries@;
        let ghost nm = name@;
        let f = self.find(name.as_str());
        match f {
            Some(i) => {
                self.entries.set(i, (name, kind, location));
                proof {
                    lemma_lookup_replace(old_entries, i as int, self.entries@);
                }
            },
            None => {
                self.entries.push((name, kind, location));
                proof {
                    lemma_lookup_append(old_entries, self.entries@);
                }
            },
        }
    }
}

/// The first match found by a scan is what the lookup gives.
proof fn lemma_lookup_prefix(entries: Seq<(String, DeclKind, u32)>, name: Seq<char>, f: Option<usize>)
    requires
        f matches Some(i) ==> i < entries.len() && entries[i as int].0@ == name && forall|k: int|
            0 <= k < i ==> entries[k].0@ != name,
        f is None ==> forall|k: int| 0 <= k < entries.len() ==> entries[k].0@ != name,
    ensures
        spec_lookup(entries, name) == match f {
            Some(i) => Some((entries[i as int].1, entries[i as int].2)),
            None => None,
        },
    decreases entries.len(),
{
    if entries.len() > 0 && entries[0].0@ != name {
        let g: Option<usize> = match f {
            Some(i) => Some((i - 1) as usize),
            None => None,
        };
        assert forall|k: int|
            0 <= k < entries.drop_first().len() && (f matches Some(i) && k < i - 1 || f is None) implies entries.drop_first()[k].0@
                != name by {
            assert(entries.drop_first()[k] == entries[k + 1]);
        }
        lemma_lookup_prefix(entries.drop_first(), name, g);
    }
}

/// Replacing the first entry of a name changes only what that name maps to.
proof fn lemma_lookup_replace(old: Seq<(String, DeclKind, u32)>, i: int, new: Seq<(String, DeclKind, u32)>)
    requires
        0 <= i < old.len(),
        new.len() == old.len(),
        new[i].0@ == old[i].0@,
        forall|k: int| 0 <= k < i ==> old[k].0@ != old[i].0@,
        forall|k: int| 0 <= k < old.len() && k != i ==> new[k] == old[k],
    ensures
        spec_lookup(new, old[i].0@) == Some((new[i].1, new[i].2)),
        forall|n: Seq<char>| n != old[i].0@ ==> #[trigger] spec_lookup(new, n) == spec_lookup(old, n),
    decreases old.len(),
{
    if i > 0 {
        assert(new[0] == old[0]);
        lemma_lookup_replace(old.drop_first(), i - 1, new.drop_first());
        assert forall|n: Seq<char>| n != old[i].0@ implies #[trigger] spec_lookup(new, n) == spec_lookup(old, n) by {
            if new[0].0@ != n {
                assert(spec_lookup(new.drop_first(), n) == spec_lookup(old.drop_first(), n));
            }
        }
    } else {
        assert forall|n: Seq<char>| n != old[i].0@ implies #[trigger] spec_lookup(new, n) == spec_lookup(old, n) by {
            assert(new.drop_first() =~= old.drop_first());
        }
    }
}

/// Appending an entry for a name not yet present maps that name and
/// changes nothing else.
proof fn lemma_lookup_append(old: Seq<(String, DeclKind, u32)>, new: Seq<(String, DeclKind, u32)>)
    requires
        new.len() == old.len() + 1,
        forall|k: int| 0 <= k < old.len() ==> new[k] == old[k],
        forall|k: int| 0 <= k < old.len() ==> old[k].0@ != new[old.len() as int].0@,
    ensures
        spec_lookup(new, new[old.len() as int].0@) == Some((new[old.len() as int].1, new[old.len() as int].2)),
        forall|n: Seq<char>| n != new[old.len() as int].0@ ==> #[trigger] spec_lookup(new, n) == spec_lookup(old, n),
    decreases old.len(),
{
    if old.len() > 0 {
        lemma_lookup_append(old.drop_first(), new.drop_first());
        assert forall|n: Seq<char>| n != new[old.len() as int].0@ implies #[trigger] spec_lookup(new, n)
            == spec_lookup(old, n) by {
            assert(new.drop_first()[old.drop_first().len() as int] == new[old.len() as int]);
            if new[0].0@ != n {
                assert(spec_lookup(new.drop_first(), n) == spec_lookup(old.drop_first(), n));
            }
        }
        assert(new.drop_first()[old.drop_first().len() as int] == new[old.len() as int]);
    } else {
        assert forall|n: Seq<char>| n != new[old.len() as int].0@ implies #[trigger] spec_lookup(new, n)
            == spec_lookup(old, n) by {
            reveal_with_fuel(spec_lookup, 2);
            assert(new.drop_first().len() == 0);
        }
    }
}

/// A parsed shader: its stage, global declarations, the body of `main`,
/// the symbol table and the number of uniform, attribute and varying
/// slots in use.
#[derive(Debug)]
pub struct Shader {
    pub stage: ShaderStage,
    pub declarations: Vec<Declaration>,
    pub main_body: Vec<Statement>,
    pub symbols: SymbolTable,
    pub uniform_count: u32,
    pub attrib_count: u32,
    pub varying_count: u32,
}

impl Shader {
    /// An empty shader for `stage`.
    pub fn new(stage: ShaderStage) -> (s: Shader)
        ensures
            s.stage == stage,
            s.declarations@.len() == 0,
            s.main_body@.len() == 0,
            forall|n: Seq<char>| #[trigger] s.symbols.spec_get(n) is None,
            s.uniform_count == 0 && s.attrib_count == 0 && s.varying_count == 0,
    {
        Shader {
            stage,
            declarations: Vec::new(),
            main_body: Vec::new(),
            symbols: SymbolTable::new(),
            uniform_count: 0,
            attrib_count: 0,
            varying_count: 0,
        }
    }
}

} // verus!
