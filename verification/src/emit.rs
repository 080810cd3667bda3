//! AST-to-IR emission: a post-order walk that appends one instruction per
//! non-trivial operation to the single entry block, represents literals as
//! inline integer values, and resolves constant declarations against the
//! symbol table without emitting anything for them.
//!
//! The `emit_*` spec functions are the exact statement of what each
//! `generate` method appends and which operand it hands back.
use crate::ast::{
    AddExp, AddSign, Block, BlockItem, CmpSign, CompUnit, ConstDecl, ConstDef, Decl, EqExp,
    EqSign, EvalErr, Exp, FuncDef, FuncType, LAndExp, LOrExp, LVal, MulExp, MulSign, Number,
    PrimaryExp, RelExp, Stmt, UnaryExp, UnaryOp,
};
use crate::ast::{const_init_val_spec, lval_val};
use crate::errors::CompileError;
use crate::ir::{BasicBlock, BinOp, IrFunction, IrValue, Program};
use crate::symbol_table::{DataType, SymbolTable};
use vstd::prelude::*;

verus! {

/// The value table and entry-block instruction list of the function being
/// emitted, as mathematical sequences.
pub struct EmitSt {
    pub vals: Seq<IrValue>,
    pub insts: Seq<usize>,
}

/// Appends an integer value; no instruction is emitted for a literal.
pub open spec fn st_add_integer(st: EmitSt, v: i32) -> (EmitSt, int) {
    (
        EmitSt { vals: st.vals.push(IrValue::Integer(v)), insts: st.insts },
        st.vals.len() as int,
    )
}

/// Appends a value and schedules it as the next instruction of the block.
pub open spec fn st_add_inst(st: EmitSt, v: IrValue) -> (EmitSt, int) {
    (
        EmitSt {
            vals: st.vals.push(v),
            insts: st.insts.push(st.vals.len() as usize),
        },
        st.vals.len() as int,
    )
}

/// Normalizes an operand to 0/1 by comparing it against a fresh zero:
/// the `ne x, 0` step both logical operators lower through.
pub open spec fn st_to_logic(st: EmitSt, x: int) -> (EmitSt, int) {
    let (st1, z) = st_add_integer(st, 0);
    st_add_inst(st1, IrValue::Binary(BinOp::NotEq, x as usize, z as usize))
}

/// What emitting an expression appends and which operand it returns.
pub open spec fn emit_exp(e: Exp, t: Map<Seq<char>, DataType>, st: EmitSt) -> Result<
    (EmitSt, int),
    EvalErr,
>
    decreases e,
{
    emit_lor(e.l_or_exp, t, st)
}

/// Logical-or: normalize the left result, normalize the right result, then
/// combine with a bitwise `or` instruction — three instructions in all.
pub open spec fn emit_lor(e: LOrExp, t: Map<Seq<char>, DataType>, st: EmitSt) -> Result<
    (EmitSt, int),
    EvalErr,
>
    decreases e,
{
    match e {
        LOrExp::LAndExp(a) => emit_land(a, t, st),
        LOrExp::Or(l, r) => match emit_lor(*l, t, st) {
            Err(x) => Err(x),
            Ok((st1, o1)) => {
                let (st2, n1) = st_to_logic(st1, o1);
                match emit_land(r, t, st2) {
                    Err(x) => Err(x),
                    Ok((st3, o2)) => {
                        let (st4, n2) = st_to_logic(st3, o2);
                        Ok(
                            st_add_inst(
                                st4,
                                IrValue::Binary(BinOp::Or, n1 as usize, n2 as usize),
                            ),
                        )
                    },
                }
            },
        },
    }
}

/// Logical-and, lowered like logical-or but combined with `and`.
pub open spec fn emit_land(e: LAndExp, t: Map<Seq<char>, DataType>, st: EmitSt) -> Result<
    (EmitSt, int),
    EvalErr,
>
    decreases e,
{
    match e {
        LAndExp::EqExp(a) => emit_eq(a, t, st),
        LAndExp::And(l, r) => match emit_land(*l, t, st) {
            Err(x) => Err(x),
            Ok((st1, o1)) => {
                let (st2, n1) = st_to_logic(st1, o1);
                match emit_eq(r, t, st2) {
                    Err(x) => Err(x),
                    Ok((st3, o2)) => {
                        let (st4, n2) = st_to_logic(st3, o2);
                        Ok(
                            st_add_inst(
                                st4,
                                IrValue::Binary(BinOp::And, n1 as usize, n2 as usize),
                            ),
                        )
                    },
                }
            },
        },
    }
}

/// Equality: one `eq` or `ne` instruction over the two operands.
pub open spec fn emit_eq(e: EqExp, t: Map<Seq<char>, DataType>, st: EmitSt) -> Result<
    (EmitSt, int),
    EvalErr,
>
    decreases e,
{
    match e {
        EqExp::RelExp(a) => emit_rel(a, t, st),
        EqExp::Eq(l, sign, r) => match emit_eq(*l, t, st) {
            Err(x) => Err(x),
            Ok((st1, o1)) => match emit_rel(r, t, st1) {
                Err(x) => Err(x),
                Ok((st2, o2)) => {
                    let op = match sign {
                        EqSign::Eq => BinOp::Eq,
                        EqSign::Neq => BinOp::NotEq,
                    };
                    Ok(st_add_inst(st2, IrValue::Binary(op, o1 as usize, o2 as usize)))
                },
            },
        },
    }
}

/// Relational: one `lt`/`gt`/`le`/`ge` instruction over the two operands.
pub open spec fn emit_rel(e: RelExp, t: Map<Seq<char>, DataType>, st: EmitSt) -> Result<
    (EmitSt, int),
    EvalErr,
>
    decreases e,
{
    match e {
        RelExp::AddExp(a) => emit_add(a, t, st),
        RelExp::Cmp(l, sign, r) => match emit_rel(*l, t, st) {
            Err(x) => Err(x),
            Ok((st1, o1)) => match emit_add(r, t, st1) {
                Err(x) => Err(x),
                Ok((st2, o2)) => {
                    let op = match sign {
                        CmpSign::Less => BinOp::Lt,
                        CmpSign::More => BinOp::Gt,
                        CmpSign::Leq => BinOp::Le,
                        CmpSign::Meq => BinOp::Ge,
                    };
                    Ok(st_add_inst(st2, IrValue::Binary(op, o1 as usize, o2 as usize)))
                },
            },
        },
    }
}

/// Additive: one `add` or `sub` instruction over the two operands.
pub open spec fn emit_add(e: AddExp, t: Map<Seq<char>, DataType>, st: EmitSt) -> Result<
    (EmitSt, int),
    EvalErr,
>
    decreases e,
{
    match e {
        AddExp::MulExp(a) => emit_mul(a, t, st),
        AddExp::AddExp(l, sign, r) => match emit_add(*l, t, st) {
            Err(x) => Err(x),
            Ok((st1, o1)) => match emit_mul(r, t, st1) {
                Err(x) => Err(x),
                Ok((st2, o2)) => {
                    let op = match sign {
                        AddSign::Add => BinOp::Add,
                        AddSign::Sub => BinOp::Sub,
                    };
                    Ok(st_add_inst(st2, IrValue::Binary(op, o1 as usize, o2 as usize)))
                },
            },
        },
    }
}

/// Multiplicative: one `mul`/`div`/`mod` instruction over the two operands.
pub open spec fn emit_mul(e: MulExp, t: Map<Seq<char>, DataType>, st: EmitSt) -> Result<
    (EmitSt, int),
    EvalErr,
>
    decreases e,
{
    match e {
        MulExp::UnaryExp(a) => emit_unary(a, t, st),
        MulExp::MulExp(l, sign, r) => match emit_mul(*l, t, st) {
            Err(x) => Err(x),
            Ok((st1, o1)) => match emit_unary(r, t, st1) {
                Err(x) => Err(x),
                Ok((st2, o2)) => {
                    let op = match sign {
                        MulSign::Mul => BinOp::Mul,
                        MulSign::Div => BinOp::Div,
                        MulSign::Mod => BinOp::Mod,
                    };
                    Ok(st_add_inst(st2, IrValue::Binary(op, o1 as usize, o2 as usize)))
                },
            },
        },
    }
}

/// Unary: logical not lowers to `eq x, 0`; negation lowers to `sub 0, x`.
pub open spec fn emit_unary(e: UnaryExp, t: Map<Seq<char>, DataType>, st: EmitSt) -> Result<
    (EmitSt, int),
    EvalErr,
>
    decreases e,
{
    match e {
        UnaryExp::PrimaryExp(p) => emit_primary(p, t, st),
        UnaryExp::Unary(op, inner) => match emit_unary(*inner, t, st) {
            Err(x) => Err(x),
            Ok((st1, o)) => {
                let (st2, z) = st_add_integer(st1, 0);
                match op {
                    UnaryOp::Bang => Ok(
                        st_add_inst(st2, IrValue::Binary(BinOp::Eq, o as usize, z as usize)),
                    ),
                    UnaryOp::Negative => Ok(
                        st_add_inst(st2, IrValue::Binary(BinOp::Sub, z as usize, o as usize)),
                    ),
                }
            },
        },
    }
}

/// Primary: a literal becomes an inline integer value; a name becomes the
/// inline literal it is bound to; parentheses pass through.
pub open spec fn emit_primary(e: PrimaryExp, t: Map<Seq<char>, DataType>, st: EmitSt) -> Result<
    (EmitSt, int),
    EvalErr,
>
    decreases e,
{
    match e {
        PrimaryExp::Exp(inner) => emit_exp(*inner, t, st),
        PrimaryExp::Number(n) => Ok(st_add_integer(st, n.num)),
        PrimaryExp::LVal(l) => emit_lval(l, t, st),
    }
}

/// A name: the constant it is bound to becomes an inline integer value —
/// substitution happens at emission time, nothing of the name survives.
pub open spec fn emit_lval(e: LVal, t: Map<Seq<char>, DataType>, st: EmitSt) -> Result<
    (EmitSt, int),
    EvalErr,
> {
    match lval_val(e, t) {
        Err(x) => Err(x),
        Ok(v) => Ok(st_add_integer(st, v)),
    }
}

/// The executable emitter agrees with its specification: on success the
/// builder holds exactly the specified state and the returned operand is the
/// specified one; on failure the diagnostic is the specified one.
pub open spec fn emit_matches(
    r: Result<usize, CompileError>,
    s: Result<(EmitSt, int), EvalErr>,
    b: FuncBuilder,
) -> bool {
    match (r, s) {
        (Ok(id), Ok(p)) => b.values@ == p.0.vals && b.insts@ == p.0.insts && id as int == p.1,
        (Err(CompileError::UndefinedSymbol(n)), Err(EvalErr::Undefined(m))) => n@ == m,
        (Err(CompileError::ArithmeticFault), Err(EvalErr::DivByZero)) => true,
        _ => false,
    }
}

/// The state a builder holds.
pub open spec fn builder_st(b: FuncBuilder) -> EmitSt {
    EmitSt { vals: b.values@, insts: b.insts@ }
}

/// Builds one function's value table and entry-block instruction list.
pub struct FuncBuilder {
    pub values: Vec<IrValue>,
    pub insts: Vec<usize>,
}

impl FuncBuilder {
    /// An empty function under construction.
    pub fn new() -> (r: Self)
        ensures
            r.values@ == Seq::<IrValue>::empty(),
            r.insts@ == Seq::<usize>::empty(),
    {
        FuncBuilder { values: Vec::new(), insts: Vec::new() }
    }

    /// Appends an integer value and returns its index; literals emit no
    /// instruction.
    pub fn add_integer(&mut self, v: i32) -> (id: usize)
        ensures
            builder_st(*final(self)) == st_add_integer(builder_st(*old(self)), v).0,
            id as int == st_add_integer(builder_st(*old(self)), v).1,
    {
        let id = self.values.len();
        self.values.push(IrValue::Integer(v));
        id
    }

    /// Appends a value and schedules it as the next instruction.
    pub fn add_inst(&mut self, v: IrValue) -> (id: usize)
        ensures
            builder_st(*final(self)) == st_add_inst(builder_st(*old(self)), v).0,
            id as int == st_add_inst(builder_st(*old(self)), v).1,
    {
        let id = self.values.len();
        self.values.push(v);
        self.insts.push(id);
        id
    }
}

/// Appends the `ne x, 0` normalization step and returns its index.
pub fn to_logic(x: usize, b: &mut FuncBuilder) -> (r: usize)
    ensures
        builder_st(*final(b)) == st_to_logic(builder_st(*old(b)), x as int).0,
        r as int == st_to_logic(builder_st(*old(b)), x as int).1,
{
    let z = b.add_integer(0);
    b.add_inst(IrValue::Binary(BinOp::NotEq, x, z))
}

impl Exp {
    /// Emits the expression, returning the operand index of its result.
    pub fn generate(&self, b: &mut FuncBuilder, table: &SymbolTable) -> (r: Result<
        usize,
        CompileError,
    >)
        ensures
            emit_matches(r, emit_exp(*self, table@, builder_st(*old(b))), *final(b)),
        decreases *self,
    {
        self.l_or_exp.generate(b, table)
    }
}

impl LOrExp {
    /// Emits a logical-or: both operands are emitted and normalized — there
    /// is no short-circuiting — then combined with `or`.
    pub fn generate(&self, b: &mut FuncBuilder, table: &SymbolTable) -> (r: Result<
        usize,
        CompileError,
    >)
        ensures
            emit_matches(r, emit_lor(*self, table@, builder_st(*old(b))), *final(b)),
        decreases *self,
    {
        match self {
            LOrExp::LAndExp(a) => a.generate(b, table),
            LOrExp::Or(l, r2) => {
                let o1 = match l.generate(b, table) {
                    Ok(v) => v,
                    Err(e) => return Err(e),
                };
                let n1 = to_logic(o1, b);
                let o2 = match r2.generate(b, table) {
                    Ok(v) => v,
                    Err(e) => return Err(e),
                };
                let n2 = to_logic(o2, b);
                Ok(b.add_inst(IrValue::Binary(BinOp::Or, n1, n2)))
            },
        }
    }
}

impl LAndExp {
    /// Emits a logical-and, lowered like logical-or but combined with `and`.
    pub fn generate(&self, b: &mut FuncBuilder, table: &SymbolTable) -> (r: Result<
        usize,
        CompileError,
    >)
        ensures
            emit_matches(r, emit_land(*self, table@, builder_st(*old(b))), *final(b)),
        decreases *self,
    {
        match self {
            LAndExp::EqExp(a) => a.generate(b, table),
            LAndExp::And(l, r2) => {
                let o1 = match l.generate(b, table) {
                    Ok(v) => v,
                    Err(e) => return Err(e),
                };
                let n1 = to_logic(o1, b);
                let o2 = match r2.generate(b, table) {
                    Ok(v) => v,
                    Err(e) => return Err(e),
                };
                let n2 = to_logic(o2, b);
                Ok(b.add_inst(IrValue::Binary(BinOp::And, n1, n2)))
            },
        }
    }
}

impl EqExp {
    /// Emits an equality comparison as one `eq` or `ne` instruction.
    pub fn generate(&self, b: &mut FuncBuilder, table: &SymbolTable) -> (r: Result<
        usize,
        CompileError,
    >)
        ensures
            emit_matches(r, emit_eq(*self, table@, builder_st(*old(b))), *final(b)),
        decreases *self,
    {
        match self {
            EqExp::RelExp(a) => a.generate(b, table),
            EqExp::Eq(l, sign, r2) => {
                let o1 = match l.generate(b, table) {
                    Ok(v) => v,
                    Err(e) => return Err(e),
                };
                let o2 = match r2.generate(b, table) {
                    Ok(v) => v,
                    Err(e) => return Err(e),
                };
                let op = match sign {
                    EqSign::Eq => BinOp::Eq,
                    EqSign::Neq => BinOp::NotEq,
                };
                Ok(b.add_inst(IrValue::Binary(op, o1, o2)))
            },
        }
    }
}

impl RelExp {
    /// Emits a relational comparison as one `lt`/`gt`/`le`/`ge` instruction.
    pub fn generate(&self, b: &mut FuncBuilder, table: &SymbolTable) -> (r: Result<
        usize,
        CompileError,
    >)
        ensures
            emit_matches(r, emit_rel(*self, table@, builder_st(*old(b))), *final(b)),
        decreases *self,
    {
        match self {
            RelExp::AddExp(a) => a.generate(b, table),
            RelExp::Cmp(l, sign, r2) => {
                let o1 = match l.generate(b, table) {
                    Ok(v) => v,
                    Err(e) => return Err(e),
                };
                let o2 = match r2.generate(b, table) {
                    Ok(v) => v,
                    Err(e) => return Err(e),
                };
                let op = match sign {
                    CmpSign::Less => BinOp::Lt,
                    CmpSign::More => BinOp::Gt,
                    CmpSign::Leq => BinOp::Le,
                    CmpSign::Meq => BinOp::Ge,
                };
                Ok(b.add_inst(IrValue::Binary(op, o1, o2)))
            },
        }
    }
}

impl AddExp {
    /// Emits a sum or difference as one `add` or `sub` instruction.
    pub fn generate(&self, b: &mut FuncBuilder, table: &SymbolTable) -> (r: Result<
        usize,
        CompileError,
    >)
        ensures
            emit_matches(r, emit_add(*self, table@, builder_st(*old(b))), *final(b)),
        decreases *self,
    {
        match self {
            AddExp::MulExp(a) => a.generate(b, table),
            AddExp::AddExp(l, sign, r2) => {
                let o1 = match l.generate(b, table) {
                    Ok(v) => v,
                    Err(e) => return Err(e),
                };
                let o2 = match r2.generate(b, table) {
                    Ok(v) => v,
                    Err(e) => return Err(e),
                };
                let op = match sign {
                    AddSign::Add => BinOp::Add,
                    AddSign::Sub => BinOp::Sub,
                };
                Ok(b.add_inst(IrValue::Binary(op, o1, o2)))
            },
        }
    }
}

impl MulExp {
    /// Emits a product, quotient, or remainder as one instruction.
    pub fn generate(&self, b: &mut FuncBuilder, table: &SymbolTable) -> (r: Result<
        usize,
        CompileError,
    >)
        ensures
            emit_matches(r, emit_mul(*self, table@, builder_st(*old(b))), *final(b)),
        decreases *self,
    {
        match self {
            MulExp::UnaryExp(a) => a.generate(b, table),
            MulExp::MulExp(l, sign, r2) => {
                let o1 = match l.generate(b, table) {
                    Ok(v) => v,
                    Err(e) => return Err(e),
                };
                let o2 = match r2.generate(b, table) {
                    Ok(v) => v,
                    Err(e) => return Err(e),
                };
                let op = match sign {
                    MulSign::Mul => BinOp::Mul,
                    MulSign::Div => BinOp::Div,
                    MulSign::Mod => BinOp::Mod,
                };
                Ok(b.add_inst(IrValue::Binary(op, o1, o2)))
            },
        }
    }
}

impl UnaryExp {
    /// Emits logical not as `eq x, 0` and negation as `sub 0, x`.
    pub fn generate(&self, b: &mut FuncBuilder, table: &SymbolTable) -> (r: Result<
        usize,
        CompileError,
    >)
        ensures
            emit_matches(r, emit_unary(*self, table@, builder_st(*old(b))), *final(b)),
        decreases *self,
    {
        match self {
            UnaryExp::PrimaryExp(p) => p.generate(b, table),
            UnaryExp::Unary(op, inner) => {
                let o = match inner.generate(b, table) {
                    Ok(v) => v,
                    Err(e) => return Err(e),
                };
                let z = b.add_integer(0);
                match op {
                    UnaryOp::Bang => Ok(b.add_inst(IrValue::Binary(BinOp::Eq, o, z))),
                    UnaryOp::Negative => Ok(b.add_inst(IrValue::Binary(BinOp::Sub, z, o))),
                }
            },
        }
    }
}

impl PrimaryExp {
    /// Emits a parenthesized expression, a literal, or a name.
    pub fn generate(&self, b: &mut FuncBuilder, table: &SymbolTable) -> (r: Result<
        usize,
        CompileError,
    >)
        ensures
            emit_matches(r, emit_primary(*self, table@, builder_st(*old(b))), *final(b)),
        decreases *self,
    {
        match self {
            PrimaryExp::Exp(inner) => inner.generate(b, table),
            PrimaryExp::Number(n) => Ok(b.add_integer(n.generate())),
            PrimaryExp::LVal(l) => l.generate(b, table),
        }
    }
}

impl LVal {
    /// Emits a name as the inline literal it is bound to.
    pub fn generate(&self, b: &mut FuncBuilder, table: &SymbolTable) -> (r: Result<
        usize,
        CompileError,
    >)
        ensures
            emit_matches(r, emit_lval(*self, table@, builder_st(*old(b))), *final(b)),
    {
        match table.lookup(&self.ident) {
            Some(DataType::ConstInt(v)) => Ok(b.add_integer(v)),
            Some(DataType::Int) => Err(CompileError::UndefinedSymbol(self.ident.clone())),
            None => Err(CompileError::UndefinedSymbol(self.ident.clone())),
        }
    }
}

/// What one constant definition does: evaluate its initializer against the
/// bindings made so far, then bind the name. Nothing is emitted.
#[verifier::opaque]
pub open spec fn def_bind(d: ConstDef, t: Map<Seq<char>, DataType>) -> Result<
    Map<Seq<char>, DataType>,
    EvalErr,
> {
    match const_init_val_spec(d.val, t) {
        Err(x) => Err(x),
        Ok(v) => Ok(t.insert(d.ident@, DataType::ConstInt(v))),
    }
}

/// What a list of constant definitions does, in order.
#[verifier::opaque]
pub open spec fn emit_defs(defs: Seq<ConstDef>, t: Map<Seq<char>, DataType>) -> Result<
    Map<Seq<char>, DataType>,
    EvalErr,
>
    decreases defs.len(),
{
    if defs.len() == 0 {
        Ok(t)
    } else {
        match def_bind(defs[0], t) {
            Err(x) => Err(x),
            Ok(t1) => emit_defs(defs.drop_first(), t1),
        }
    }
}

/// What emitting a statement appends: the expression, then a return of it.
#[verifier::opaque]
pub open spec fn emit_stmt(s: Stmt, t: Map<Seq<char>, DataType>, st: EmitSt) -> Result<
    EmitSt,
    EvalErr,
> {
    match emit_exp(s.exp, t, st) {
        Err(x) => Err(x),
        Ok((st1, o)) => Ok(st_add_inst(st1, IrValue::Return(Some(o as usize))).0),
    }
}

/// What one block item does to the table and the emitted state.
#[verifier::opaque]
pub open spec fn emit_item(item: BlockItem, t: Map<Seq<char>, DataType>, st: EmitSt) -> Result<
    (Map<Seq<char>, DataType>, EmitSt),
    EvalErr,
> {
    match item {
        BlockItem::Decl(d) => match emit_defs(d.const_decl.defs@, t) {
            Err(x) => Err(x),
            Ok(t1) => Ok((t1, st)),
        },
        BlockItem::Stmt(s) => match emit_stmt(s, t, st) {
            Err(x) => Err(x),
            Ok(st1) => Ok((t, st1)),
        },
    }
}

/// What a list of block items does, in source order.
#[verifier::opaque]
pub open spec fn emit_items(
    items: Seq<BlockItem>,
    t: Map<Seq<char>, DataType>,
    st: EmitSt,
) -> Result<(Map<Seq<char>, DataType>, EmitSt), EvalErr>
    decreases items.len(),
{
    if items.len() == 0 {
        Ok((t, st))
    } else {
        match emit_item(items[0], t, st) {
            Err(x) => Err(x),
            Ok((t1, st1)) => emit_items(items.drop_first(), t1, st1),
        }
    }
}

/// What emitting a whole function body yields, starting from an empty value
/// table and an empty symbol table state `t`.
pub open spec fn emit_func_def(f: FuncDef, t: Map<Seq<char>, DataType>) -> Result<
    EmitSt,
    EvalErr,
> {
    match emit_items(f.block.items@, t, EmitSt { vals: Seq::empty(), insts: Seq::empty() }) {
        Err(x) => Err(x),
        Ok((_t1, st)) => Ok(st),
    }
}

/// The executable emitter for state-only steps agrees with its spec.
pub open spec fn unit_matches(r: Result<(), CompileError>, ok: bool, e: EvalErr) -> bool {
    match r {
        Ok(u) => ok,
        Err(ce) => !ok && match (ce, e) {
            (CompileError::UndefinedSymbol(n), EvalErr::Undefined(m)) => n@ == m,
            (CompileError::ArithmeticFault, EvalErr::DivByZero) => true,
            _ => false,
        },
    }
}

impl ConstDef {
    /// Evaluates the initializer and binds the name; emits nothing.
    pub fn generate(&self, table: &mut SymbolTable) -> (r: Result<(), CompileError>)
        ensures
            match def_bind(*self, old(table)@) {
                Ok(t1) => r is Ok && final(table)@ == t1,
                Err(e) => unit_matches(r, false, e),
            },
    {
        reveal(def_bind);
        let v = match self.val.get_val(table) {
            Ok(v) => v,
            Err(e) => return Err(e),
        };
        table.insert(self.ident.clone(), DataType::ConstInt(v));
        Ok(())
    }
}

impl ConstDecl {
    /// Processes the definitions from position `i` on, in order.
    fn generate_from(&self, i: usize, table: &mut SymbolTable) -> (r: Result<(), CompileError>)
        requires
            i <= self.defs@.len(),
        ensures
            match emit_defs(self.defs@.skip(i as int), old(table)@) {
                Ok(t1) => r is Ok && final(table)@ == t1,
                Err(e) => unit_matches(r, false, e),
            },
        decreases self.defs@.len() - i,
    {
        reveal(emit_defs);
        if i == self.defs.len() {
            proof {
                assert(self.defs@.skip(i as int) =~= Seq::<ConstDef>::empty());
            }
            Ok(())
        } else {
            let r0 = self.defs[i].generate(table);
            proof {
                assert(self.defs@.skip(i as int)[0] == self.defs@[i as int]);
                assert(self.defs@.skip(i as int).drop_first() =~= self.defs@.skip(i + 1));
            }
            match r0 {
                Ok(u) => self.generate_from(i + 1, table),
                Err(e) => Err(e),
            }
        }
    }

    /// Processes each definition in order against the table.
    pub fn generate(&self, table: &mut SymbolTable) -> (r: Result<(), CompileError>)
        ensures
            match emit_defs(self.defs@, old(table)@) {
                Ok(t1) => r is Ok && final(table)@ == t1,
                Err(e) => unit_matches(r, false, e),
            },
    {
        proof {
            assert(self.defs@.skip(0) =~= self.defs@);
        }
        self.generate_from(0, table)
    }
}

impl Decl {
    /// Processes the constant declaration; declarations emit nothing.
    pub fn generate(&self, table: &mut SymbolTable) -> (r: Result<(), CompileError>)
        ensures
            match emit_defs(self.const_decl.defs@, old(table)@) {
                Ok(t1) => r is Ok && final(table)@ == t1,
                Err(e) => unit_matches(r, false, e),
            },
    {
        self.const_decl.generate(table)
    }
}

impl Stmt {
    /// Emits the returned expression, then the return instruction.
    pub fn generate(&self, b: &mut FuncBuilder, table: &SymbolTable) -> (r: Result<
        (),
        CompileError,
    >)
        ensures
            match emit_stmt(*self, table@, builder_st(*old(b))) {
                Ok(st1) => r is Ok && builder_st(*final(b)) == st1,
                Err(e) => unit_matches(r, false, e),
            },
    {
        reveal(emit_stmt);
        let o = match self.exp.generate(b, table) {
            Ok(v) => v,
            Err(e) => return Err(e),
        };
        b.add_inst(IrValue::Return(Some(o)));
        Ok(())
    }
}

impl BlockItem {
    /// A declaration updates the table; a statement extends the block.
    pub fn generate(&self, b: &mut FuncBuilder, table: &mut SymbolTable) -> (r: Result<
        (),
        CompileError,
    >)
        ensures
            match emit_item(*self, old(table)@, builder_st(*old(b))) {
                Ok(p) => r is Ok && final(table)@ == p.0 && builder_st(*final(b)) == p.1,
                Err(e) => unit_matches(r, false, e),
            },
    {
        reveal(emit_item);
        match self {
            BlockItem::Decl(d) => d.generate(table),
            BlockItem::Stmt(s) => s.generate(b, table),
        }
    }
}

impl Block {
    /// Emits every item of the body, in source order, into the entry block.
    pub fn generate(&self, b: &mut FuncBuilder, table: &mut SymbolTable) -> (r: Result<
        (),
        CompileError,
    >)
        ensures
            match emit_items(self.items@, old(table)@, builder_st(*old(b))) {
                Ok(p) => r is Ok && final(table)@ == p.0 && builder_st(*final(b)) == p.1,
                Err(e) => unit_matches(r, false, e),
            },
    {
        proof {
            assert(self.items@.skip(0) =~= self.items@);
        }
        self.generate_from(0, b, table)
    }

    /// Emits the items from position `i` on, in source order.
    fn generate_from(&self, i: usize, b: &mut FuncBuilder, table: &mut SymbolTable) -> (r: Result<
        (),
        CompileError,
    >)
        requires
            i <= self.items@.len(),
        ensures
            match emit_items(self.items@.skip(i as int), old(table)@, builder_st(*old(b))) {
                Ok(p) => r is Ok && final(table)@ == p.0 && builder_st(*final(b)) == p.1,
                Err(e) => unit_matches(r, false, e),
            },
        decreases self.items@.len() - i,
    {
        reveal(emit_items);
        if i == self.items.len() {
            proof {
                assert(self.items@.skip(i as int) =~= Seq::<BlockItem>::empty());
            }
            Ok(())
        } else {
            let r0 = self.items[i].generate(b, table);
            proof {
                assert(self.items@.skip(i as int)[0] == self.items@[i as int]);
                assert(self.items@.skip(i as int).drop_first() =~= self.items@.skip(i + 1));
            }
            match r0 {
                Ok(u) => self.generate_from(i + 1, b, table),
                Err(e) => Err(e),
            }
        }
    }
}

impl FuncType {
    /// The representation's spelling of the return type.
    pub fn generate(&self) -> (r: &'static str)
        ensures
            r@ == "i32"@,
    {
        "i32"
    }
}

impl FuncDef {
    /// Emits the function: its name, one entry block, and its body.
    pub fn generate(&self, table: &mut SymbolTable) -> (r: Result<IrFunction, CompileError>)
        ensures
            match emit_func_def(*self, old(table)@) {
                Ok(st) => r matches Ok(f) && f.name@ == self.ident@ && f.values@ == st.vals
                    && f.blocks@.len() == 1 && f.blocks@[0].name@ == "entry"@
                    && f.blocks@[0].insts@ == st.insts,
                Err(e) => r matches Err(ce) && unit_matches(Err::<(), CompileError>(ce), false, e),
            },
    {
        let mut b = FuncBuilder::new();
        match self.block.generate(&mut b, table) {
            Ok(u) => {},
            Err(e) => {
                return Err(e);
            },
        }
        let name = crate::text::str_chars(self.ident.as_str());
        let entry = crate::text::str_chars("entry");
        let blocks_one = BasicBlock { name: entry, insts: b.insts };
        let mut blocks: Vec<BasicBlock> = Vec::new();
        blocks.push(blocks_one);
        Ok(IrFunction { name, values: b.values, blocks })
    }
}

impl CompUnit {
    /// Compiles the unit to its intermediate representation: a fresh symbol
    /// table, then the one function.
    pub fn generate(&self) -> (r: Result<Program, CompileError>)
        ensures
            match emit_func_def(self.func_def, Map::empty()) {
                Ok(st) => r matches Ok(p) && p.funcs@.len() == 1 && p.funcs@[0].name@
                    == self.func_def.ident@ && p.funcs@[0].values@ == st.vals
                    && p.funcs@[0].blocks@.len() == 1 && p.funcs@[0].blocks@[0].name@ == "entry"@
                    && p.funcs@[0].blocks@[0].insts@ == st.insts,
                Err(e) => r matches Err(ce) && unit_matches(Err::<(), CompileError>(ce), false, e),
            },
    {
        let mut table = SymbolTable::new();
        match self.func_def.generate(&mut table) {
            Ok(f) => {
                let mut funcs: Vec<IrFunction> = Vec::new();
                funcs.push(f);
                Ok(Program { funcs })
            },
            Err(e) => Err(e),
        }
    }
}

} // verus!
