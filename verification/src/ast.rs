//! The expression language: AST types along the operator-precedence chain
//! (logical-or down to primary), constant declarations, and the compile-time
//! constant evaluator.
//!
//! Every node evaluates over a symbol table of already-bound constants; the
//! evaluator is specified by the `*_val` spec functions and implemented by
//! the `get_val` methods, which agree result-for-result, error-for-error.
use crate::arith::{div_wrap, rem_wrap};
use crate::errors::CompileError;
use crate::symbol_table::DataType;
use crate::symbol_table::SymbolTable;
use vstd::prelude::*;

verus! {

/// A whole compilation unit: exactly one function definition.
#[derive(Debug)]
pub struct CompUnit {
    pub func_def: FuncDef,
}

/// One function: its return type, its name, and its body.
#[derive(Debug)]
pub struct FuncDef {
    pub func_type: FuncType,
    pub ident: String,
    pub block: Block,
}

/// Return type of a function; only `int` exists.
#[derive(Debug)]
pub enum FuncType {
    Int,
}

/// A function body: declarations and statements in source order.
#[derive(Debug)]
pub struct Block {
    pub items: Vec<BlockItem>,
}

/// The one supported statement: `return` of an expression.
#[derive(Debug)]
pub struct Stmt {
    pub exp: Exp,
}

/// An expression; the root of the precedence chain.
#[derive(Debug)]
pub struct Exp {
    pub l_or_exp: LOrExp,
}

/// Logical-or level: loosest-binding.
#[derive(Debug)]
pub enum LOrExp {
    LAndExp(LAndExp),
    Or(Box<LOrExp>, LAndExp),
}

/// Logical-and level.
#[derive(Debug)]
pub enum LAndExp {
    EqExp(EqExp),
    And(Box<LAndExp>, EqExp),
}

/// Equality level: `==` and `!=`.
#[derive(Debug)]
pub enum EqExp {
    RelExp(RelExp),
    Eq(Box<EqExp>, EqSign, RelExp),
}

/// Which equality operator an `EqExp::Eq` carries.
#[derive(Debug)]
pub enum EqSign {
    Eq,
    Neq,
}

/// Relational level: `<`, `>`, `<=`, `>=`.
#[derive(Debug)]
pub enum RelExp {
    AddExp(AddExp),
    Cmp(Box<RelExp>, CmpSign, AddExp),
}

/// Which relational operator a `RelExp::Cmp` carries.
#[derive(Debug)]
pub enum CmpSign {
    Less,
    More,
    Leq,
    Meq,
}

/// Additive level: `+` and `-`.
#[derive(Debug)]
pub enum AddExp {
    MulExp(MulExp),
    AddExp(Box<AddExp>, AddSign, MulExp),
}

/// Which additive operator an `AddExp::AddExp` carries.
#[derive(Debug)]
pub enum AddSign {
    Add,
    Sub,
}

/// Multiplicative level: `*`, `/`, `%`.
#[derive(Debug)]
pub enum MulExp {
    UnaryExp(UnaryExp),
    MulExp(Box<MulExp>, MulSign, UnaryExp),
}

/// Which multiplicative operator a `MulExp::MulExp` carries.
#[derive(Debug)]
pub enum MulSign {
    Mul,
    Div,
    Mod,
}

/// Primary level: a parenthesized expression, a literal, or a name.
#[derive(Debug)]
pub enum PrimaryExp {
    Exp(Box<Exp>),
    Number(Number),
    LVal(LVal),
}

/// An integer literal.
#[derive(Debug)]
pub struct Number {
    pub num: i32,
}

/// Unary level: a primary or a unary operator applied to a unary.
#[derive(Debug)]
pub enum UnaryExp {
    PrimaryExp(PrimaryExp),
    Unary(UnaryOp, Box<UnaryExp>),
}

/// The unary operators: arithmetic negation and logical not.
#[derive(Debug)]
pub enum UnaryOp {
    Negative,
    Bang,
}

/// A declaration statement; only constant declarations exist.
#[derive(Debug)]
pub struct Decl {
    pub const_decl: ConstDecl,
}

/// `const int` followed by one or more definitions.
#[derive(Debug)]
pub struct ConstDecl {
    pub typ: BType,
    pub defs: Vec<ConstDef>,
}

/// Base type of a declaration; only `int` exists.
#[derive(Debug)]
pub enum BType {
    I32,
}

/// One `name = initializer` inside a constant declaration.
#[derive(Debug)]
pub struct ConstDef {
    pub ident: String,
    pub val: ConstInitVal,
}

/// The initializer of a constant definition.
#[derive(Debug)]
pub struct ConstInitVal {
    pub exp: ConstExp,
}

/// An expression that must evaluate at compile time.
#[derive(Debug)]
pub struct ConstExp {
    pub exp: Exp,
}

/// An item of a block: a declaration or a statement.
#[derive(Debug)]
pub enum BlockItem {
    Decl(Decl),
    Stmt(Stmt),
}

/// A use of a declared name.
#[derive(Debug)]
pub struct LVal {
    pub ident: String,
}

/// How constant evaluation can fail: an unresolved identifier, or division
/// (or remainder) by zero.
pub enum EvalErr {
    Undefined(Seq<char>),
    DivByZero,
}

/// 1 for true, 0 for false: how the language represents booleans.
pub open spec fn bool_i32(b: bool) -> i32 {
    if b {
        1
    } else {
        0
    }
}

/// Value of an expression under table `t`.
pub open spec fn exp_val(e: Exp, t: Map<Seq<char>, DataType>) -> Result<i32, EvalErr>
    decreases e,
{
    lor_val(e.l_or_exp, t)
}

/// Value at the logical-or level. Both operands are evaluated (there is no
/// short-circuiting), each is normalized to 0/1, then combined.
pub open spec fn lor_val(e: LOrExp, t: Map<Seq<char>, DataType>) -> Result<i32, EvalErr>
    decreases e,
{
    match e {
        LOrExp::LAndExp(a) => land_val(a, t),
        LOrExp::Or(l, r) => match lor_val(*l, t) {
            Err(x) => Err(x),
            Ok(v1) => match land_val(r, t) {
                Err(x) => Err(x),
                Ok(v2) => Ok(bool_i32(v1 != 0 || v2 != 0)),
            },
        },
    }
}

/// Value at the logical-and level; like logical-or, never short-circuits.
pub open spec fn land_val(e: LAndExp, t: Map<Seq<char>, DataType>) -> Result<i32, EvalErr>
    decreases e,
{
    match e {
        LAndExp::EqExp(a) => eq_val(a, t),
        LAndExp::And(l, r) => match land_val(*l, t) {
            Err(x) => Err(x),
            Ok(v1) => match eq_val(r, t) {
                Err(x) => Err(x),
                Ok(v2) => Ok(bool_i32(v1 != 0 && v2 != 0)),
            },
        },
    }
}

/// Value at the equality level: 0 or 1.
pub open spec fn eq_val(e: EqExp, t: Map<Seq<char>, DataType>) -> Result<i32, EvalErr>
    decreases e,
{
    match e {
        EqExp::RelExp(a) => rel_val(a, t),
        EqExp::Eq(l, sign, r) => match eq_val(*l, t) {
            Err(x) => Err(x),
            Ok(v1) => match rel_val(r, t) {
                Err(x) => Err(x),
                Ok(v2) => Ok(
                    match sign {
                        EqSign::Eq => bool_i32(v1 == v2),
                        EqSign::Neq => bool_i32(v1 != v2),
                    },
                ),
            },
        },
    }
}

/// Value at the relational level: 0 or 1.
pub open spec fn rel_val(e: RelExp, t: Map<Seq<char>, DataType>) -> Result<i32, EvalErr>
    decreases e,
{
    match e {
        RelExp::AddExp(a) => add_val(a, t),
        RelExp::Cmp(l, sign, r) => match rel_val(*l, t) {
            Err(x) => Err(x),
            Ok(v1) => match add_val(r, t) {
                Err(x) => Err(x),
                Ok(v2) => Ok(
                    match sign {
                        CmpSign::Less => bool_i32(v1 < v2),
                        CmpSign::More => bool_i32(v1 > v2),
                        CmpSign::Leq => bool_i32(v1 <= v2),
                        CmpSign::Meq => bool_i32(v1 >= v2),
                    },
                ),
            },
        },
    }
}

/// Value at the additive level: two's-complement add and subtract.
pub open spec fn add_val(e: AddExp, t: Map<Seq<char>, DataType>) -> Result<i32, EvalErr>
    decreases e,
{
    match e {
        AddExp::MulExp(a) => mul_val(a, t),
        AddExp::AddExp(l, sign, r) => match add_val(*l, t) {
            Err(x) => Err(x),
            Ok(v1) => match mul_val(r, t) {
                Err(x) => Err(x),
                Ok(v2) => Ok(
                    match sign {
                        AddSign::Add => v1.wrapping_add(v2),
                        AddSign::Sub => v1.wrapping_sub(v2),
                    },
                ),
            },
        },
    }
}

/// Value at the multiplicative level: two's-complement multiply, truncating
/// divide and remainder; a zero divisor is an evaluation fault.
pub open spec fn mul_val(e: MulExp, t: Map<Seq<char>, DataType>) -> Result<i32, EvalErr>
    decreases e,
{
    match e {
        MulExp::UnaryExp(a) => unary_val(a, t),
        MulExp::MulExp(l, sign, r) => match mul_val(*l, t) {
            Err(x) => Err(x),
            Ok(v1) => match unary_val(r, t) {
                Err(x) => Err(x),
                Ok(v2) => match sign {
                    MulSign::Mul => Ok(v1.wrapping_mul(v2)),
                    MulSign::Div => if v2 == 0 {
                        Err(EvalErr::DivByZero)
                    } else {
                        Ok(div_wrap(v1, v2))
                    },
                    MulSign::Mod => if v2 == 0 {
                        Err(EvalErr::DivByZero)
                    } else {
                        Ok(rem_wrap(v1, v2))
                    },
                },
            },
        },
    }
}

/// Value at the unary level: negation is `0 - v`, logical not is `v == 0`.
pub open spec fn unary_val(e: UnaryExp, t: Map<Seq<char>, DataType>) -> Result<i32, EvalErr>
    decreases e,
{
    match e {
        UnaryExp::PrimaryExp(p) => primary_val(p, t),
        UnaryExp::Unary(op, inner) => match unary_val(*inner, t) {
            Err(x) => Err(x),
            Ok(v) => Ok(
                match op {
                    UnaryOp::Negative => (0i32).wrapping_sub(v),
                    UnaryOp::Bang => bool_i32(v == 0),
                },
            ),
        },
    }
}

/// Value at the primary level.
pub open spec fn primary_val(e: PrimaryExp, t: Map<Seq<char>, DataType>) -> Result<i32, EvalErr>
    decreases e,
{
    match e {
        PrimaryExp::Exp(inner) => exp_val(*inner, t),
        PrimaryExp::Number(n) => Ok(n.num),
        PrimaryExp::LVal(l) => lval_val(l, t),
    }
}

/// Value of a name: the constant it was bound to. A name that is unbound —
/// or bound by the reserved, non-constant tag — is undefined here.
pub open spec fn lval_val(e: LVal, t: Map<Seq<char>, DataType>) -> Result<i32, EvalErr> {
    if t.contains_key(e.ident@) {
        match t[e.ident@] {
            DataType::ConstInt(v) => Ok(v),
            DataType::Int => Err(EvalErr::Undefined(e.ident@)),
        }
    } else {
        Err(EvalErr::Undefined(e.ident@))
    }
}

/// Value of a constant initializer.
pub open spec fn const_init_val_spec(e: ConstInitVal, t: Map<Seq<char>, DataType>) -> Result<
    i32,
    EvalErr,
> {
    exp_val(e.exp.exp, t)
}

/// The executable evaluator returns exactly the specified value, and on
/// failure exactly the specified diagnostic.
pub open spec fn eval_matches(r: Result<i32, CompileError>, s: Result<i32, EvalErr>) -> bool {
    match (r, s) {
        (Ok(v), Ok(w)) => v == w,
        (Err(CompileError::UndefinedSymbol(n)), Err(EvalErr::Undefined(m))) => n@ == m,
        (Err(CompileError::ArithmeticFault), Err(EvalErr::DivByZero)) => true,
        _ => false,
    }
}

impl Exp {
    /// Evaluates the expression against the bound constants.
    pub fn get_val(&self, table: &SymbolTable) -> (r: Result<i32, CompileError>)
        ensures
            eval_matches(r, exp_val(*self, table@)),
        decreases *self,
    {
        self.l_or_exp.get_val(table)
    }
}

impl LOrExp {
    /// Evaluates both operands, normalizes each to 0/1, and takes their or.
    pub fn get_val(&self, table: &SymbolTable) -> (r: Result<i32, CompileError>)
        ensures
            eval_matches(r, lor_val(*self, table@)),
        decreases *self,
    {
        match self {
            LOrExp::LAndExp(a) => a.get_val(table),
            LOrExp::Or(l, r2) => {
                let v1 = match l.get_val(table) {
                    Ok(v) => v,
                    Err(e) => return Err(e),
                };
                let v2 = match r2.get_val(table) {
                    Ok(v) => v,
                    Err(e) => return Err(e),
                };
                Ok(
                    if v1 != 0 || v2 != 0 {
                        1
                    } else {
                        0
                    },
                )
            },
        }
    }
}

impl LAndExp {
    /// Evaluates both operands, normalizes each to 0/1, and takes their and.
    pub fn get_val(&self, table: &SymbolTable) -> (r: Result<i32, CompileError>)
        ensures
            eval_matches(r, land_val(*self, table@)),
        decreases *self,
    {
        match self {
            LAndExp::EqExp(a) => a.get_val(table),
            LAndExp::And(l, r2) => {
                let v1 = match l.get_val(table) {
                    Ok(v) => v,
                    Err(e) => return Err(e),
                };
                let v2 = match r2.get_val(table) {
                    Ok(v) => v,
                    Err(e) => return Err(e),
                };
                Ok(
                    if v1 != 0 && v2 != 0 {
                        1
                    } else {
                        0
                    },
                )
            },
        }
    }
}

impl EqExp {
    /// Evaluates an equality comparison to 0 or 1.
    pub fn get_val(&self, table: &SymbolTable) -> (r: Result<i32, CompileError>)
        ensures
            eval_matches(r, eq_val(*self, table@)),
        decreases *self,
    {
        match self {
            EqExp::RelExp(a) => a.get_val(table),
            EqExp::Eq(l, sign, r2) => {
                let v1 = match l.get_val(table) {
                    Ok(v) => v,
                    Err(e) => return Err(e),
                };
                let v2 = match r2.get_val(table) {
                    Ok(v) => v,
                    Err(e) => return Err(e),
                };
                match sign {
                    EqSign::Eq => Ok(
                        if v1 == v2 {
                            1
                        } else {
                            0
                        },
                    ),
                    EqSign::Neq => Ok(
                        if v1 != v2 {
                            1
                        } else {
                            0
                        },
                    ),
                }
            },
        }
    }
}

impl RelExp {
    /// Evaluates a relational comparison to 0 or 1.
    pub fn get_val(&self, table: &SymbolTable) -> (r: Result<i32, CompileError>)
        ensures
            eval_matches(r, rel_val(*self, table@)),
        decreases *self,
    {
        match self {
            RelExp::AddExp(a) => a.get_val(table),
            RelExp::Cmp(l, sign, r2) => {
                let v1 = match l.get_val(table) {
                    Ok(v) => v,
                    Err(e) => return Err(e),
                };
                let v2 = match r2.get_val(table) {
                    Ok(v) => v,
                    Err(e) => return Err(e),
                };
                match sign {
                    CmpSign::Less => Ok(
                        if v1 < v2 {
                            1
                        } else {
                            0
                        },
                    ),
                    CmpSign::More => Ok(
                        if v1 > v2 {
                            1
                        } else {
                            0
                        },
                    ),
                    CmpSign::Leq => Ok(
                        if v1 <= v2 {
                            1
                        } else {
                            0
                        },
                    ),
                    CmpSign::Meq => Ok(
                        if v1 >= v2 {
                            1
                        } else {
                            0
                        },
                    ),
                }
            },
        }
    }
}

impl AddExp {
    /// Evaluates a sum or difference with two's-complement wrap-around.
    pub fn get_val(&self, table: &SymbolTable) -> (r: Result<i32, CompileError>)
        ensures
            eval_matches(r, add_val(*self, table@)),
        decreases *self,
    {
        match self {
            AddExp::MulExp(a) => a.get_val(table),
            AddExp::AddExp(l, sign, r2) => {
                let v1 = match l.get_val(table) {
                    Ok(v) => v,
                    Err(e) => return Err(e),
                };
                let v2 = match r2.get_val(table) {
                    Ok(v) => v,
                    Err(e) => return Err(e),
                };
                match sign {
                    AddSign::Add => Ok(v1.wrapping_add(v2)),
                    AddSign::Sub => Ok(v1.wrapping_sub(v2)),
                }
            },
        }
    }
}

impl MulExp {
    /// Evaluates a product, quotient, or remainder; a zero divisor is an
    /// arithmetic fault.
    pub fn get_val(&self, table: &SymbolTable) -> (r: Result<i32, CompileError>)
        ensures
            eval_matches(r, mul_val(*self, table@)),
        decreases *self,
    {
        match self {
            MulExp::UnaryExp(a) => a.get_val(table),
            MulExp::MulExp(l, sign, r2) => {
                let v1 = match l.get_val(table) {
                    Ok(v) => v,
                    Err(e) => return Err(e),
                };
                let v2 = match r2.get_val(table) {
                    Ok(v) => v,
                    Err(e) => return Err(e),
                };
                match sign {
                    MulSign::Mul => Ok(v1.wrapping_mul(v2)),
                    MulSign::Div => if v2 == 0 {
                        Err(CompileError::ArithmeticFault)
                    } else {
                        Ok(crate::arith::eval_div(v1, v2))
                    },
                    MulSign::Mod => if v2 == 0 {
                        Err(CompileError::ArithmeticFault)
                    } else {
                        Ok(crate::arith::eval_rem(v1, v2))
                    },
                }
            },
        }
    }
}

impl UnaryExp {
    /// Evaluates negation as `0 - v` and logical not as `v == 0`.
    pub fn get_val(&self, table: &SymbolTable) -> (r: Result<i32, CompileError>)
        ensures
            eval_matches(r, unary_val(*self, table@)),
        decreases *self,
    {
        match self {
            UnaryExp::PrimaryExp(p) => p.get_val(table),
            UnaryExp::Unary(op, inner) => {
                let v = match inner.get_val(table) {
                    Ok(v) => v,
                    Err(e) => return Err(e),
                };
                match op {
                    UnaryOp::Negative => Ok(0i32.wrapping_sub(v)),
                    UnaryOp::Bang => Ok(
                        if v == 0 {
                            1
                        } else {
                            0
                        },
                    ),
                }
            },
        }
    }
}

impl PrimaryExp {
    /// Evaluates a parenthesized expression, a literal, or a name.
    pub fn get_val(&self, table: &SymbolTable) -> (r: Result<i32, CompileError>)
        ensures
            eval_matches(r, primary_val(*self, table@)),
        decreases *self,
    {
        match self {
            PrimaryExp::Exp(inner) => inner.get_val(table),
            PrimaryExp::Number(n) => Ok(n.generate()),
            PrimaryExp::LVal(l) => l.get_val(table),
        }
    }
}

impl Number {
    /// The literal's value.
    pub fn generate(&self) -> (r: i32)
        ensures
            r == self.num,
    {
        self.num
    }
}

impl LVal {
    /// The constant bound to this name; unbound names are a hard failure
    /// carrying the name.
    pub fn get_val(&self, table: &SymbolTable) -> (r: Result<i32, CompileError>)
        ensures
            eval_matches(r, lval_val(*self, table@)),
    {
        match table.lookup(&self.ident) {
            Some(DataType::ConstInt(v)) => Ok(v),
            Some(DataType::Int) => Err(CompileError::UndefinedSymbol(self.ident.clone())),
            None => Err(CompileError::UndefinedSymbol(self.ident.clone())),
        }
    }
}

impl ConstInitVal {
    /// Evaluates the initializer.
    pub fn get_val(&self, table: &SymbolTable) -> (r: Result<i32, CompileError>)
        ensures
            eval_matches(r, const_init_val_spec(*self, table@)),
    {
        self.exp.get_val(table)
    }
}

impl ConstExp {
    /// Evaluates the compile-time expression.
    pub fn get_val(&self, table: &SymbolTable) -> (r: Result<i32, CompileError>)
        ensures
            eval_matches(r, exp_val(self.exp, table@)),
    {
        self.exp.get_val(table)
    }
}

} // verus!
