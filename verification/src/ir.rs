//! The linear intermediate representation as a navigable value graph: one
//! program holds functions, a function holds its typed values and its basic
//! blocks, a block lists its instructions in layout order.
//!
//! A value is referred to by its index into the owning function's value
//! table; instruction operands always point at earlier indices, which is what
//! the emitter produces and what the generator's recursion relies on.
use crate::arith::{div_wrap, rem_wrap};
use crate::ast::bool_i32;
use vstd::prelude::*;

verus! {

/// The binary operators the representation knows.
#[derive(Clone, Copy, Debug, PartialEq, Eq, Structural)]
pub enum BinOp {
    Add,
    Sub,
    Mul,
    Div,
    Mod,
    Lt,
    Gt,
    Le,
    Ge,
    Eq,
    NotEq,
    And,
    Or,
}

/// One value of a function: an integer literal, a binary operation over two
/// earlier values, a return, or some construct this backend does not handle.
#[derive(Clone, Copy, Debug, PartialEq, Eq)]
pub enum IrValue {
    Integer(i32),
    Binary(BinOp, usize, usize),
    Return(Option<usize>),
    Other,
}

/// A basic block: its label and its instructions in layout order.
#[derive(Debug)]
pub struct BasicBlock {
    pub name: Vec<char>,
    pub insts: Vec<usize>,
}

/// A function: its symbol name (without the leading sigil), its value table,
/// and its basic blocks in layout order.
#[derive(Debug)]
pub struct IrFunction {
    pub name: Vec<char>,
    pub values: Vec<IrValue>,
    pub blocks: Vec<BasicBlock>,
}

/// A whole program: its functions in layout order.
#[derive(Debug)]
pub struct Program {
    pub funcs: Vec<IrFunction>,
}

/// How folding a value to a constant can fail: the value divides by zero, or
/// it is not a constant-only computation.
#[derive(Clone, Copy, Debug, PartialEq, Eq, Structural)]
pub enum FoldErr {
    DivByZero,
    NotConst,
}

/// One binary operation on constants, with the generation-time semantics:
/// two's-complement add/sub/mul, truncating div/rem, 0/1 comparisons, and
/// bitwise and/or.
pub open spec fn apply_binop(op: BinOp, a: i32, b: i32) -> Result<i32, FoldErr> {
    match op {
        BinOp::Add => Ok(a.wrapping_add(b)),
        BinOp::Sub => Ok(a.wrapping_sub(b)),
        BinOp::Mul => Ok(a.wrapping_mul(b)),
        BinOp::Div => if b == 0 {
            Err(FoldErr::DivByZero)
        } else {
            Ok(div_wrap(a, b))
        },
        BinOp::Mod => if b == 0 {
            Err(FoldErr::DivByZero)
        } else {
            Ok(rem_wrap(a, b))
        },
        BinOp::Lt => Ok(bool_i32(a < b)),
        BinOp::Gt => Ok(bool_i32(a > b)),
        BinOp::Le => Ok(bool_i32(a <= b)),
        BinOp::Ge => Ok(bool_i32(a >= b)),
        BinOp::Eq => Ok(bool_i32(a == b)),
        BinOp::NotEq => Ok(bool_i32(a != b)),
        BinOp::And => Ok(a & b),
        BinOp::Or => Ok(a | b),
    }
}

/// Folds value `i` of the table to a constant by generation-time arithmetic.
/// Only literals and binary operations over foldable operands fold.
pub open spec fn fold_value(vals: Seq<IrValue>, i: int) -> Result<i32, FoldErr>
    decreases i,
{
    if 0 <= i < vals.len() {
        match vals[i] {
            IrValue::Integer(v) => Ok(v),
            IrValue::Binary(op, l, r) => if l < i && r < i {
                match fold_value(vals, l as int) {
                    Err(e) => Err(e),
                    Ok(a) => match fold_value(vals, r as int) {
                        Err(e) => Err(e),
                        Ok(b) => apply_binop(op, a, b),
                    },
                }
            } else {
                Err(FoldErr::NotConst)
            },
            IrValue::Return(_) => Err(FoldErr::NotConst),
            IrValue::Other => Err(FoldErr::NotConst),
        }
    } else {
        Err(FoldErr::NotConst)
    }
}

/// Executable counterpart of `apply_binop`.
pub fn exec_binop(op: BinOp, a: i32, b: i32) -> (r: Result<i32, FoldErr>)
    ensures
        r == apply_binop(op, a, b),
{
    match op {
        BinOp::Add => Ok(a.wrapping_add(b)),
        BinOp::Sub => Ok(a.wrapping_sub(b)),
        BinOp::Mul => Ok(a.wrapping_mul(b)),
        BinOp::Div => if b == 0 {
            Err(FoldErr::DivByZero)
        } else {
            Ok(crate::arith::eval_div(a, b))
        },
        BinOp::Mod => if b == 0 {
            Err(FoldErr::DivByZero)
        } else {
            Ok(crate::arith::eval_rem(a, b))
        },
        BinOp::Lt => Ok(
            if a < b {
                1
            } else {
                0
            },
        ),
        BinOp::Gt => Ok(
            if a > b {
                1
            } else {
                0
            },
        ),
        BinOp::Le => Ok(
            if a <= b {
                1
            } else {
                0
            },
        ),
        BinOp::Ge => Ok(
            if a >= b {
                1
            } else {
                0
            },
        ),
        BinOp::Eq => Ok(
            if a == b {
                1
            } else {
                0
            },
        ),
        BinOp::NotEq => Ok(
            if a != b {
                1
            } else {
                0
            },
        ),
        BinOp::And => Ok(a & b),
        BinOp::Or => Ok(a | b),
    }
}

impl IrFunction {
    /// Folds value `i` to a constant, exactly as `fold_value` specifies.
    pub fn fold(&self, i: usize) -> (r: Result<i32, FoldErr>)
        ensures
            r == fold_value(self.values@, i as int),
        decreases i,
    {
        if i >= self.values.len() {
            return Err(FoldErr::NotConst);
        }
        match self.values[i] {
            IrValue::Integer(v) => Ok(v),
            IrValue::Binary(op, l, r) => {
                if l < i && r < i {
                    let a = match self.fold(l) {
                        Ok(v) => v,
                        Err(e) => return Err(e),
                    };
                    let b = match self.fold(r) {
                        Ok(v) => v,
                        Err(e) => return Err(e),
                    };
                    exec_binop(op, a, b)
                } else {
                    Err(FoldErr::NotConst)
                }
            },
            IrValue::Return(_) => Err(FoldErr::NotConst),
            IrValue::Other => Err(FoldErr::NotConst),
        }
    }
}

/// How many of the values below index `i` are binary operations: those are
/// the values that carry a `%N` name in the textual form, numbered by one
/// counter that never resets within a compilation.
pub open spec fn binary_count(vals: Seq<IrValue>, i: int) -> int
    decreases i,
{
    if i <= 0 {
        0
    } else {
        binary_count(vals, i - 1) + if vals[i - 1] is Binary {
            1int
        } else {
            0int
        }
    }
}

/// The name counter is non-negative and bounded by the index.
pub proof fn lemma_binary_count_bounds(vals: Seq<IrValue>, i: int)
    requires
        i >= 0,
    ensures
        0 <= binary_count(vals, i) <= i,
    decreases i,
{
    if i > 0 {
        lemma_binary_count_bounds(vals, i - 1);
    }
}

/// The textual spelling of an operand: a literal integer inline, a named
/// binary value as `%N`; `base` is the name counter's value at the start of
/// the owning function.
pub open spec fn render_operand(vals: Seq<IrValue>, base: int, o: int) -> Seq<char> {
    if 0 <= o < vals.len() {
        match vals[o] {
            IrValue::Integer(v) => crate::text::int_chars(v as int),
            IrValue::Binary(_, _, _) => seq!['%'] + crate::text::dec_digits(
                base + binary_count(vals, o),
            ),
            IrValue::Return(_) => Seq::empty(),
            IrValue::Other => Seq::empty(),
        }
    } else {
        Seq::empty()
    }
}

/// The textual name of a binary operator in the representation.
pub open spec fn op_text(op: BinOp) -> Seq<char> {
    match op {
        BinOp::Add => "add"@,
        BinOp::Sub => "sub"@,
        BinOp::Mul => "mul"@,
        BinOp::Div => "div"@,
        BinOp::Mod => "mod"@,
        BinOp::Lt => "lt"@,
        BinOp::Gt => "gt"@,
        BinOp::Le => "le"@,
        BinOp::Ge => "ge"@,
        BinOp::Eq => "eq"@,
        BinOp::NotEq => "ne"@,
        BinOp::And => "and"@,
        BinOp::Or => "or"@,
    }
}

/// The textual line of one instruction: a binary operation binds a fresh
/// name to an operator over two operands; a return lists its operand, if
/// any; literals have no line of their own.
pub open spec fn render_inst(vals: Seq<IrValue>, base: int, i: int) -> Seq<char> {
    if 0 <= i < vals.len() {
        match vals[i] {
            IrValue::Binary(op, l, r) => "    "@ + seq!['%'] + crate::text::dec_digits(
                base + binary_count(vals, i),
            ) + " = "@ + op_text(op) + " "@ + render_operand(vals, base, l as int) + ", "@
                + render_operand(vals, base, r as int) + "\n"@,
            IrValue::Return(opt) => match opt {
                None => "    ret\n"@,
                Some(v) => "    ret "@ + render_operand(vals, base, v as int) + "\n"@,
            },
            IrValue::Integer(_) => Seq::empty(),
            IrValue::Other => Seq::empty(),
        }
    } else {
        Seq::empty()
    }
}

/// The lines of a block's instructions, in layout order.
#[verifier::opaque]
pub open spec fn render_insts(vals: Seq<IrValue>, base: int, insts: Seq<usize>) -> Seq<char>
    decreases insts.len(),
{
    if insts.len() == 0 {
        Seq::empty()
    } else {
        render_inst(vals, base, insts[0] as int) + render_insts(vals, base, insts.drop_first())
    }
}

/// A block: its label line, then its instructions.
pub open spec fn render_block(vals: Seq<IrValue>, base: int, b: BasicBlock) -> Seq<char> {
    "%"@ + b.name@ + ":\n"@ + render_insts(vals, base, b.insts@)
}

/// A function's blocks, in layout order.
#[verifier::opaque]
pub open spec fn render_blocks(vals: Seq<IrValue>, base: int, blocks: Seq<BasicBlock>) -> Seq<
    char,
>
    decreases blocks.len(),
{
    if blocks.len() == 0 {
        Seq::empty()
    } else {
        render_block(vals, base, blocks[0]) + render_blocks(vals, base, blocks.drop_first())
    }
}

/// A function: its header line with name and return type, its blocks, and
/// the closing brace.
pub open spec fn render_function(f: IrFunction, base: int) -> Seq<char> {
    "fun @"@ + f.name@ + "(): i32 {\n"@ + render_blocks(f.values@, base, f.blocks@) + "}\n"@
}

/// The functions in order; the name counter threads through them and never
/// resets within one compilation.
#[verifier::opaque]
pub open spec fn render_funcs(funcs: Seq<IrFunction>, base: int) -> Seq<char>
    decreases funcs.len(),
{
    if funcs.len() == 0 {
        Seq::empty()
    } else {
        render_function(funcs[0], base) + render_funcs(
            funcs.drop_first(),
            base + binary_count(funcs[0].values@, funcs[0].values@.len() as int),
        )
    }
}

/// The whole textual form of a program.
pub open spec fn render_program(p: Program) -> Seq<char> {
    render_funcs(p.funcs@, 0)
}

/// The sum of the name counters all functions consume.
#[verifier::opaque]
pub open spec fn total_binaries(funcs: Seq<IrFunction>) -> int
    decreases funcs.len(),
{
    if funcs.len() == 0 {
        0
    } else {
        binary_count(funcs[0].values@, funcs[0].values@.len() as int) + total_binaries(
            funcs.drop_first(),
        )
    }
}

/// The name counter never decreases along the value table.
pub proof fn lemma_binary_count_mono(vals: Seq<IrValue>, i: int, j: int)
    requires
        0 <= i <= j,
    ensures
        binary_count(vals, i) <= binary_count(vals, j),
    decreases j,
{
    if i < j {
        lemma_binary_count_mono(vals, i, j - 1);
    }
}

/// The whole program consumes a non-negative number of names.
pub proof fn lemma_total_binaries_nonneg(funcs: Seq<IrFunction>)
    ensures
        total_binaries(funcs) >= 0,
    decreases funcs.len(),
{
    reveal(total_binaries);
    if funcs.len() > 0 {
        lemma_binary_count_bounds(funcs[0].values@, funcs[0].values@.len() as int);
        lemma_total_binaries_nonneg(funcs.drop_first());
    }
}

/// Appends the `%N` spelling of name number `id`.
pub fn gen_var_name(out: &mut Vec<char>, id: u64)
    ensures
        final(out)@ == old(out)@ + seq!['%'] + crate::text::dec_digits(id as int),
{
    out.push('%');
    crate::text::push_udec(out, id);
    proof {
        assert(out@ =~= old(out)@ + seq!['%'] + crate::text::dec_digits(id as int));
    }
}

/// Counts the binary values below index `i`.
pub fn count_binaries(vals: &Vec<IrValue>, i: usize) -> (r: usize)
    requires
        i <= vals@.len(),
    ensures
        r as int == binary_count(vals@, i as int),
{
    let mut c: usize = 0;
    let mut j: usize = 0;
    while j < i
        invariant
            j <= i,
            i <= vals@.len(),
            c as int == binary_count(vals@, j as int),
            c <= j,
        decreases i - j,
    {
        if matches!(vals[j], IrValue::Binary(_, _, _)) {
            c = c + 1;
        }
        j = j + 1;
    }
    c
}

/// Appends the spelling of one operand.
fn render_operand_into(vals: &Vec<IrValue>, base: u64, o: usize, out: &mut Vec<char>)
    requires
        base as int + binary_count(vals@, vals@.len() as int) <= u64::MAX,
    ensures
        final(out)@ == old(out)@ + render_operand(vals@, base as int, o as int),
{
    if o >= vals.len() {
        proof {
            assert(out@ =~= old(out)@ + Seq::<char>::empty());
        }
        return ;
    }
    proof {
        lemma_binary_count_bounds(vals@, o as int);
        lemma_binary_count_mono(vals@, o as int, vals@.len() as int);
    }
    match vals[o] {
        IrValue::Integer(v) => {
            crate::text::push_int(out, v);
        },
        IrValue::Binary(_, _, _) => {
            let c = count_binaries(vals, o);
            gen_var_name(out, base + (c as u64));
            proof {
                assert(out@ =~= old(out)@ + render_operand(vals@, base as int, o as int));
            }
        },
        IrValue::Return(_) => {
            proof {
                assert(out@ =~= old(out)@ + Seq::<char>::empty());
            }
        },
        IrValue::Other => {
            proof {
                assert(out@ =~= old(out)@ + Seq::<char>::empty());
            }
        },
    }
}

/// Appends the mnemonic of a binary operator.
fn push_op_text(op: BinOp, out: &mut Vec<char>)
    ensures
        final(out)@ == old(out)@ + op_text(op),
{
    match op {
        BinOp::Add => crate::text::push_str(out, "add"),
        BinOp::Sub => crate::text::push_str(out, "sub"),
        BinOp::Mul => crate::text::push_str(out, "mul"),
        BinOp::Div => crate::text::push_str(out, "div"),
        BinOp::Mod => crate::text::push_str(out, "mod"),
        BinOp::Lt => crate::text::push_str(out, "lt"),
        BinOp::Gt => crate::text::push_str(out, "gt"),
        BinOp::Le => crate::text::push_str(out, "le"),
        BinOp::Ge => crate::text::push_str(out, "ge"),
        BinOp::Eq => crate::text::push_str(out, "eq"),
        BinOp::NotEq => crate::text::push_str(out, "ne"),
        BinOp::And => crate::text::push_str(out, "and"),
        BinOp::Or => crate::text::push_str(out, "or"),
    }
}

/// Appends the line of one instruction.
fn render_inst_into(vals: &Vec<IrValue>, base: u64, i: usize, out: &mut Vec<char>)
    requires
        base as int + binary_count(vals@, vals@.len() as int) <= u64::MAX,
    ensures
        final(out)@ == old(out)@ + render_inst(vals@, base as int, i as int),
{
    if i >= vals.len() {
        proof {
            assert(out@ =~= old(out)@ + Seq::<char>::empty());
        }
        return ;
    }
    proof {
        lemma_binary_count_bounds(vals@, i as int);
        lemma_binary_count_mono(vals@, i as int, vals@.len() as int);
    }
    match vals[i] {
        IrValue::Binary(op, l, r) => {
            crate::text::push_str(out, "    ");
            let c = count_binaries(vals, i);
            gen_var_name(out, base + (c as u64));
            crate::text::push_str(out, " = ");
            push_op_text(op, out);
            crate::text::push_str(out, " ");
            render_operand_into(vals, base, l, out);
            crate::text::push_str(out, ", ");
            render_operand_into(vals, base, r, out);
            crate::text::push_str(out, "\n");
            proof {
                assert(out@ =~= old(out)@ + render_inst(vals@, base as int, i as int));
            }
        },
        IrValue::Return(opt) => match opt {
            None => {
                crate::text::push_str(out, "    ret\n");
            },
            Some(v) => {
                crate::text::push_str(out, "    ret ");
                render_operand_into(vals, base, v, out);
                crate::text::push_str(out, "\n");
                proof {
                    assert(out@ =~= old(out)@ + render_inst(vals@, base as int, i as int));
                }
            },
        },
        IrValue::Integer(_) => {
            proof {
                assert(out@ =~= old(out)@ + Seq::<char>::empty());
            }
        },
        IrValue::Other => {
            proof {
                assert(out@ =~= old(out)@ + Seq::<char>::empty());
            }
        },
    }
}

/// Appends the lines of the instructions from position `j` on.
fn render_insts_from(vals: &Vec<IrValue>, base: u64, insts: &Vec<usize>, j: usize, out: &mut Vec<
    char,
>)
    requires
        j <= insts@.len(),
        base as int + binary_count(vals@, vals@.len() as int) <= u64::MAX,
    ensures
        final(out)@ == old(out)@ + render_insts(vals@, base as int, insts@.skip(j as int)),
    decreases insts@.len() - j,
{
    reveal(render_insts);
    if j == insts.len() {
        proof {
            assert(insts@.skip(j as int) =~= Seq::<usize>::empty());
            assert(out@ =~= old(out)@ + Seq::<char>::empty());
        }
    } else {
        proof {
            assert(insts@.skip(j as int)[0] == insts@[j as int]);
            assert(insts@.skip(j as int).drop_first() =~= insts@.skip(j + 1));
        }
        render_inst_into(vals, base, insts[j], out);
        render_insts_from(vals, base, insts, j + 1, out);
        proof {
            assert(out@ =~= old(out)@ + render_insts(
                vals@,
                base as int,
                insts@.skip(j as int),
            ));
        }
    }
}

impl IrFunction {
    /// Appends the textual form of the function, its names starting at
    /// `base`.
    pub fn render_into(&self, base: u64, out: &mut Vec<char>)
        requires
            base as int + binary_count(self.values@, self.values@.len() as int) <= u64::MAX,
        ensures
            final(out)@ == old(out)@ + render_function(*self, base as int),
    {
        crate::text::push_str(out, "fun @");
        crate::text::push_chars(out, &self.name);
        crate::text::push_str(out, "(): i32 {\n");
        self.render_blocks_from(base, 0, out);
        crate::text::push_str(out, "}\n");
        proof {
            assert(self.blocks@.skip(0) =~= self.blocks@);
            assert(out@ =~= old(out)@ + render_function(*self, base as int));
        }
    }

    /// Appends the blocks from position `j` on.
    fn render_blocks_from(&self, base: u64, j: usize, out: &mut Vec<char>)
        requires
            j <= self.blocks@.len(),
            base as int + binary_count(self.values@, self.values@.len() as int) <= u64::MAX,
        ensures
            final(out)@ == old(out)@ + render_blocks(
                self.values@,
                base as int,
                self.blocks@.skip(j as int),
            ),
        decreases self.blocks@.len() - j,
    {
        reveal(render_blocks);
        if j == self.blocks.len() {
            proof {
                assert(self.blocks@.skip(j as int) =~= Seq::<BasicBlock>::empty());
                assert(out@ =~= old(out)@ + Seq::<char>::empty());
            }
        } else {
            proof {
                assert(self.blocks@.skip(j as int)[0] == self.blocks@[j as int]);
                assert(self.blocks@.skip(j as int).drop_first() =~= self.blocks@.skip(j + 1));
            }
            crate::text::push_str(out, "%");
            crate::text::push_chars(out, &self.blocks[j].name);
            crate::text::push_str(out, ":\n");
            render_insts_from(&self.values, base, &self.blocks[j].insts, 0, out);
            proof {
                assert(self.blocks@[j as int].insts@.skip(0) =~= self.blocks@[j as int].insts@);
            }
            self.render_blocks_from(base, j + 1, out);
            proof {
                assert(out@ =~= old(out)@ + render_blocks(
                    self.values@,
                    base as int,
                    self.blocks@.skip(j as int),
                ));
            }
        }
    }
}

impl Program {
    /// The whole textual form of the program.
    pub fn render(&self) -> (r: Vec<char>)
        requires
            total_binaries(self.funcs@) <= u64::MAX,
        ensures
            r@ == render_program(*self),
    {
        let mut out: Vec<char> = Vec::new();
        proof {
            assert(self.funcs@.skip(0) =~= self.funcs@);
            lemma_total_binaries_nonneg(self.funcs@);
        }
        self.render_funcs_from(0, 0, &mut out);
        out
    }

    /// Appends the functions from position `j` on, threading the counter.
    fn render_funcs_from(&self, j: usize, base: u64, out: &mut Vec<char>)
        requires
            j <= self.funcs@.len(),
            base as int + total_binaries(self.funcs@.skip(j as int)) <= u64::MAX,
            total_binaries(self.funcs@.skip(j as int)) >= 0,
        ensures
            final(out)@ == old(out)@ + render_funcs(self.funcs@.skip(j as int), base as int),
        decreases self.funcs@.len() - j,
    {
        reveal(render_funcs);
        reveal(total_binaries);
        if j == self.funcs.len() {
            proof {
                assert(self.funcs@.skip(j as int) =~= Seq::<IrFunction>::empty());
                assert(out@ =~= old(out)@ + Seq::<char>::empty());
            }
        } else {
            proof {
                assert(self.funcs@.skip(j as int)[0] == self.funcs@[j as int]);
                assert(self.funcs@.skip(j as int).drop_first() =~= self.funcs@.skip(j + 1));
                lemma_binary_count_bounds(
                    self.funcs@[j as int].values@,
                    self.funcs@[j as int].values@.len() as int,
                );
                lemma_total_binaries_nonneg(self.funcs@.skip(j + 1));
            }
            self.funcs[j].render_into(base, out);
            let c = count_binaries(&self.funcs[j].values, self.funcs[j].values.len());
            self.render_funcs_from(j + 1, base + (c as u64), out);
            proof {
                assert(out@ =~= old(out)@ + render_funcs(
                    self.funcs@.skip(j as int),
                    base as int,
                ));
            }
        }
    }
}

/// Extending the value table never changes what an existing value folds to:
/// folding only ever reads indices at or below the one it starts from.
pub proof fn lemma_fold_frame(vals: Seq<IrValue>, ext: Seq<IrValue>, i: int)
    requires
        0 <= i < vals.len(),
    ensures
        fold_value(vals + ext, i) == fold_value(vals, i),
    decreases i,
{
    assert((vals + ext)[i] == vals[i]);
    match vals[i] {
        IrValue::Binary(op, l, r) => {
            if l < i && r < i {
                lemma_fold_frame(vals, ext, l as int);
                lemma_fold_frame(vals, ext, r as int);
            }
        },
        _ => {},
    }
}

} // verus!
