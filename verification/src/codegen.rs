//! Assembly generation: a walk over the value graph that memoizes per-value
//! results, draws output registers from a fixed pool with no reclamation,
//! and emits target instruction text per value kind.
//!
//! The `gen_*_spec` functions state exactly which text each step appends,
//! which register it resolves to, and how the allocator state moves; the
//! executable functions are proved to agree with them step for step.
use crate::errors::CompileError;
use crate::ir::{BasicBlock, BinOp, IrFunction, IrValue, Program};
use crate::text::int_chars;
use vstd::prelude::*;

verus! {

/// A physical register: the hard-wired zero register, or one of the fixed
/// ordered pool of 15 general-purpose registers.
#[derive(Clone, Copy, Debug, PartialEq, Eq, Structural)]
pub enum Reg {
    Zero,
    Pool(u8),
}

/// A pool register index must name one of the 15 pool members.
pub open spec fn reg_valid(r: Reg) -> bool {
    r matches Reg::Pool(i) ==> i < 15
}

/// The name of pool member `i`, in allocation order.
pub open spec fn pool_chars(i: u8) -> Seq<char> {
    if i == 0 {
        "t0"@
    } else if i == 1 {
        "t1"@
    } else if i == 2 {
        "t2"@
    } else if i == 3 {
        "t3"@
    } else if i == 4 {
        "t4"@
    } else if i == 5 {
        "t5"@
    } else if i == 6 {
        "t6"@
    } else if i == 7 {
        "a0"@
    } else if i == 8 {
        "a1"@
    } else if i == 9 {
        "a2"@
    } else if i == 10 {
        "a3"@
    } else if i == 11 {
        "a4"@
    } else if i == 12 {
        "a5"@
    } else if i == 13 {
        "a6"@
    } else {
        "a7"@
    }
}

/// The textual name of a register.
pub open spec fn reg_chars(r: Reg) -> Seq<char> {
    match r {
        Reg::Zero => "x0"@,
        Reg::Pool(i) => pool_chars(i),
    }
}

/// The generator's mutable state: the per-value memo of already-assigned
/// registers, and the pool allocation counter.
pub struct GenSt {
    pub memo: Seq<Option<Reg>>,
    pub rig: int,
}

/// Every memoized register names a pool member or the zero register.
pub open spec fn st_valid(st: GenSt) -> bool {
    forall|i: int|
        0 <= i < st.memo.len() && st.memo[i] is Some ==> reg_valid(#[trigger] st.memo[i]->0)
}

/// Allocates the next pool register; an exhausted pool is a terminal
/// failure, there is no spill path.
pub open spec fn fresh_reg(st: GenSt) -> Result<(GenSt, Reg), CompileError> {
    if st.rig >= 15 {
        Err(CompileError::RegisterPoolExhausted)
    } else {
        Ok((GenSt { memo: st.memo, rig: st.rig + 1 }, Reg::Pool(st.rig as u8)))
    }
}

/// The load-immediate line for a nonzero literal.
pub open spec fn li_chars(r: Reg, v: i32) -> Seq<char> {
    "    li "@ + reg_chars(r) + ", "@ + int_chars(v as int) + "\n"@
}

/// One three-register instruction line.
pub open spec fn bin_line(m: Seq<char>, out: Reg, a: Reg, b: Reg) -> Seq<char> {
    "    "@ + m + " "@ + reg_chars(out) + ", "@ + reg_chars(a) + ", "@ + reg_chars(b) + "\n"@
}

/// The `seqz`/`snez` follow-up line that folds a comparison into 0/1.
pub open spec fn set_line(m: Seq<char>, out: Reg) -> Seq<char> {
    "    "@ + m + " "@ + reg_chars(out) + ", "@ + reg_chars(out) + "\n"@
}

/// The instruction sequence lowering one binary operator: most map to a
/// single native instruction; `le`, `ge`, `eq` and `ne` take the inverted
/// or xored comparison plus a set-if line.
pub open spec fn binop_text(op: BinOp, out: Reg, a: Reg, b: Reg) -> Seq<char> {
    match op {
        BinOp::Add => bin_line("add"@, out, a, b),
        BinOp::Sub => bin_line("sub"@, out, a, b),
        BinOp::Mul => bin_line("mul"@, out, a, b),
        BinOp::Div => bin_line("div"@, out, a, b),
        BinOp::Mod => bin_line("rem"@, out, a, b),
        BinOp::Lt => bin_line("slt"@, out, a, b),
        BinOp::Gt => bin_line("sgt"@, out, a, b),
        BinOp::Le => bin_line("sgt"@, out, a, b) + set_line("seqz"@, out),
        BinOp::Ge => bin_line("slt"@, out, a, b) + set_line("seqz"@, out),
        BinOp::Eq => bin_line("xor"@, out, a, b) + set_line("seqz"@, out),
        BinOp::NotEq => bin_line("xor"@, out, a, b) + set_line("snez"@, out),
        BinOp::And => bin_line("and"@, out, a, b),
        BinOp::Or => bin_line("or"@, out, a, b),
    }
}

/// The output-register heuristic: reuse an operand's register when that
/// operand is a literal integer (its value is dead after this instruction),
/// never reuse the unwritable zero register, else allocate fresh.
pub open spec fn pick_output(
    vals: Seq<IrValue>,
    l: int,
    r: int,
    lhs: Reg,
    rhs: Reg,
    st: GenSt,
) -> Result<(GenSt, Reg), CompileError> {
    if lhs != Reg::Zero && rhs != Reg::Zero {
        if vals[l] is Integer {
            Ok((st, lhs))
        } else if vals[r] is Integer {
            Ok((st, rhs))
        } else {
            fresh_reg(st)
        }
    } else if lhs != Reg::Zero {
        if vals[l] is Integer {
            Ok((st, lhs))
        } else {
            fresh_reg(st)
        }
    } else if rhs != Reg::Zero {
        if vals[r] is Integer {
            Ok((st, rhs))
        } else {
            fresh_reg(st)
        }
    } else {
        fresh_reg(st)
    }
}

/// Generating one operand value: a zero literal is the zero register for
/// free; another literal loads into a fresh register; a binary operation is
/// answered from the memo when present, else generated once and memoized.
pub open spec fn gen_operand_spec(vals: Seq<IrValue>, i: int, st: GenSt) -> Result<
    (GenSt, Seq<char>, Reg),
    CompileError,
>
    decreases i,
{
    if 0 <= i < vals.len() {
        match vals[i] {
            IrValue::Integer(v) => if v == 0 {
                Ok((st, Seq::empty(), Reg::Zero))
            } else {
                match fresh_reg(st) {
                    Err(e) => Err(e),
                    Ok((st1, reg)) => Ok((st1, li_chars(reg, v), reg)),
                }
            },
            IrValue::Binary(op, l, r) => if 0 <= i < st.memo.len() && st.memo[i] is Some {
                Ok((st, Seq::empty(), st.memo[i]->0))
            } else if l < i && r < i {
                match gen_operand_spec(vals, l as int, st) {
                    Err(e) => Err(e),
                    Ok((st1, txt1, lhs)) => match gen_operand_spec(vals, r as int, st1) {
                        Err(e) => Err(e),
                        Ok((st2, txt2, rhs)) => match pick_output(
                            vals,
                            l as int,
                            r as int,
                            lhs,
                            rhs,
                            st2,
                        ) {
                            Err(e) => Err(e),
                            Ok((st3, out)) => Ok(
                                (
                                    GenSt { memo: st3.memo.update(i, Some(out)), rig: st3.rig },
                                    txt1 + txt2 + binop_text(op, out, lhs, rhs),
                                    out,
                                ),
                            ),
                        },
                    },
                }
            } else {
                Err(CompileError::UnsupportedConstruct)
            },
            IrValue::Return(_) => Err(CompileError::UnsupportedConstruct),
            IrValue::Other => Err(CompileError::UnsupportedConstruct),
        }
    } else {
        Err(CompileError::UnsupportedConstruct)
    }
}

/// Generating one layout instruction: a return emits its operand, a move
/// into the return register, and `ret`; other supported kinds generate as
/// operands with the resulting register dropped.
pub open spec fn gen_inst_spec(vals: Seq<IrValue>, i: int, st: GenSt) -> Result<
    (GenSt, Seq<char>),
    CompileError,
> {
    if 0 <= i < vals.len() {
        match vals[i] {
            IrValue::Return(opt) => match opt {
                None => Ok((st, "    ret\n"@)),
                Some(v) => if v < i {
                    match gen_operand_spec(vals, v as int, st) {
                        Err(e) => Err(e),
                        Ok((st1, txt, reg)) => Ok(
                            (st1, txt + "    mv a0, "@ + reg_chars(reg) + "\n    ret\n"@),
                        ),
                    }
                } else {
                    Err(CompileError::UnsupportedConstruct)
                },
            },
            IrValue::Integer(_) => match gen_operand_spec(vals, i, st) {
                Err(e) => Err(e),
                Ok((st1, txt, reg)) => Ok((st1, txt)),
            },
            IrValue::Binary(_, _, _) => match gen_operand_spec(vals, i, st) {
                Err(e) => Err(e),
                Ok((st1, txt, reg)) => Ok((st1, txt)),
            },
            IrValue::Other => Err(CompileError::UnsupportedConstruct),
        }
    } else {
        Err(CompileError::UnsupportedConstruct)
    }
}

/// Generating a block's instructions, in layout order.
#[verifier::opaque]
pub open spec fn gen_insts_spec(vals: Seq<IrValue>, insts: Seq<usize>, st: GenSt) -> Result<
    (GenSt, Seq<char>),
    CompileError,
>
    decreases insts.len(),
{
    if insts.len() == 0 {
        Ok((st, Seq::empty()))
    } else {
        match gen_inst_spec(vals, insts[0] as int, st) {
            Err(e) => Err(e),
            Ok((st1, t1)) => match gen_insts_spec(vals, insts.drop_first(), st1) {
                Err(e) => Err(e),
                Ok((st2, t2)) => Ok((st2, t1 + t2)),
            },
        }
    }
}

/// Generating a function's blocks, in layout order; block labels are not
/// printed in the assembly, only the function label is.
#[verifier::opaque]
pub open spec fn gen_blocks_spec(vals: Seq<IrValue>, blocks: Seq<BasicBlock>, st: GenSt) -> Result<
    (GenSt, Seq<char>),
    CompileError,
>
    decreases blocks.len(),
{
    if blocks.len() == 0 {
        Ok((st, Seq::empty()))
    } else {
        match gen_insts_spec(vals, blocks[0].insts@, st) {
            Err(e) => Err(e),
            Ok((st1, t1)) => match gen_blocks_spec(vals, blocks.drop_first(), st1) {
                Err(e) => Err(e),
                Ok((st2, t2)) => Ok((st2, t1 + t2)),
            },
        }
    }
}

/// Generating one function: its label, then its blocks, starting from an
/// empty memo — the memo is scoped to one function — while the register
/// counter carries across the whole program.
pub open spec fn gen_function_spec(f: IrFunction, rig: int) -> Result<
    (int, Seq<char>),
    CompileError,
> {
    match gen_blocks_spec(
        f.values@,
        f.blocks@,
        GenSt { memo: Seq::new(f.values@.len(), |i: int| None), rig },
    ) {
        Err(e) => Err(e),
        Ok((st1, txt)) => Ok((st1.rig, f.name@ + ":\n"@ + txt)),
    }
}

/// One `.globl` declaration per function.
#[verifier::opaque]
pub open spec fn globl_lines(funcs: Seq<IrFunction>) -> Seq<char>
    decreases funcs.len(),
{
    if funcs.len() == 0 {
        Seq::empty()
    } else {
        "    .globl "@ + funcs[0].name@ + "\n"@ + globl_lines(funcs.drop_first())
    }
}

/// Generating the functions in layout order, threading the register counter.
#[verifier::opaque]
pub open spec fn gen_funcs_spec(funcs: Seq<IrFunction>, rig: int) -> Result<
    (int, Seq<char>),
    CompileError,
>
    decreases funcs.len(),
{
    if funcs.len() == 0 {
        Ok((rig, Seq::empty()))
    } else {
        match gen_function_spec(funcs[0], rig) {
            Err(e) => Err(e),
            Ok((rig1, t1)) => match gen_funcs_spec(funcs.drop_first(), rig1) {
                Err(e) => Err(e),
                Ok((rig2, t2)) => Ok((rig2, t1 + t2)),
            },
        }
    }
}

/// The whole assembly text: the text-section directive, one global-symbol
/// declaration per function, then each function's code.
pub open spec fn gen_program_spec(p: Program) -> Result<Seq<char>, CompileError> {
    match gen_funcs_spec(p.funcs@, 0) {
        Err(e) => Err(e),
        Ok((rig, txt)) => Ok("    .text\n"@ + globl_lines(p.funcs@) + txt),
    }
}

/// The generator's mutable state: the per-value register memo and the pool
/// allocation counter, scoped as one function's context.
pub struct ProgramInfo {
    pub values: Vec<Option<Reg>>,
    pub rig_id: usize,
}

/// The state a `ProgramInfo` holds.
pub open spec fn info_st(info: ProgramInfo) -> GenSt {
    GenSt { memo: info.values@, rig: info.rig_id as int }
}

impl ProgramInfo {
    /// A fresh context for a function of `n` values, with the register
    /// counter carried in from the functions generated before it.
    pub fn new(n: usize, rig: usize) -> (r: Self)
        ensures
            r.values@ == Seq::new(n as nat, |i: int| None::<Reg>),
            r.rig_id == rig,
    {
        let mut values: Vec<Option<Reg>> = Vec::new();
        let mut k: usize = 0;
        while k < n
            invariant
                k <= n,
                values@.len() == k as int,
                forall|j: int| 0 <= j < k ==> values@[j] is None,
            decreases n - k,
        {
            values.push(None);
            k = k + 1;
        }
        proof {
            assert(values@ =~= Seq::new(n as nat, |i: int| None::<Reg>));
        }
        ProgramInfo { values, rig_id: rig }
    }
}

/// The printable name of a register.
pub fn reg_str(r: Reg) -> (s: &'static str)
    requires
        reg_valid(r),
    ensures
        s@ == reg_chars(r),
{
    match r {
        Reg::Zero => "x0",
        Reg::Pool(i) => match i {
            0 => "t0",
            1 => "t1",
            2 => "t2",
            3 => "t3",
            4 => "t4",
            5 => "t5",
            6 => "t6",
            7 => "a0",
            8 => "a1",
            9 => "a2",
            10 => "a3",
            11 => "a4",
            12 => "a5",
            13 => "a6",
            _ => {
                proof {
                    assert(i == 14);
                }
                "a7"
            },
        },
    }
}

/// Draws the next name from the register pool; exhaustion is terminal.
pub fn gen_rig_name(info: &mut ProgramInfo) -> (r: Result<Reg, CompileError>)
    ensures
        final(info).values@ == old(info).values@,
        match fresh_reg(info_st(*old(info))) {
            Ok(p) => r matches Ok(reg) && reg == p.1 && info_st(*final(info)) == p.0 && reg_valid(
                reg,
            ),
            Err(e) => r matches Err(e2) && e2 == e && *final(info) == *old(info),
        },
{
    if info.rig_id >= 15 {
        Err(CompileError::RegisterPoolExhausted)
    } else {
        let reg = Reg::Pool(info.rig_id as u8);
        info.rig_id = info.rig_id + 1;
        Ok(reg)
    }
}

/// Picks the output register for a binary operation by the reuse heuristic.
pub fn get_output_for_binary(
    f: &IrFunction,
    l: usize,
    r: usize,
    lhs: Reg,
    rhs: Reg,
    info: &mut ProgramInfo,
) -> (res: Result<Reg, CompileError>)
    requires
        l < f.values@.len(),
        r < f.values@.len(),
    ensures
        final(info).values@ == old(info).values@,
        match pick_output(f.values@, l as int, r as int, lhs, rhs, info_st(*old(info))) {
            Ok(p) => res matches Ok(reg) && reg == p.1 && info_st(*final(info)) == p.0 && (
            reg_valid(lhs) && reg_valid(rhs) ==> reg_valid(reg)),
            Err(e) => res matches Err(e2) && e2 == e,
        },
{
    if lhs != Reg::Zero && rhs != Reg::Zero {
        if matches!(f.values[l], IrValue::Integer(_)) {
            Ok(lhs)
        } else if matches!(f.values[r], IrValue::Integer(_)) {
            Ok(rhs)
        } else {
            gen_rig_name(info)
        }
    } else if lhs != Reg::Zero {
        if matches!(f.values[l], IrValue::Integer(_)) {
            Ok(lhs)
        } else {
            gen_rig_name(info)
        }
    } else if rhs != Reg::Zero {
        if matches!(f.values[r], IrValue::Integer(_)) {
            Ok(rhs)
        } else {
            gen_rig_name(info)
        }
    } else {
        gen_rig_name(info)
    }
}

/// Appends one three-register instruction line.
fn push_line(out: &mut Vec<char>, m: &str, o: Reg, a: Reg, b: Reg)
    requires
        reg_valid(o),
        reg_valid(a),
        reg_valid(b),
    ensures
        final(out)@ == old(out)@ + bin_line(m@, o, a, b),
{
    crate::text::push_str(out, "    ");
    crate::text::push_str(out, m);
    crate::text::push_str(out, " ");
    crate::text::push_str(out, reg_str(o));
    crate::text::push_str(out, ", ");
    crate::text::push_str(out, reg_str(a));
    crate::text::push_str(out, ", ");
    crate::text::push_str(out, reg_str(b));
    crate::text::push_str(out, "\n");
    proof {
        assert(out@ =~= old(out)@ + bin_line(m@, o, a, b));
    }
}

/// Appends one `seqz`/`snez` follow-up line.
fn push_set(out: &mut Vec<char>, m: &str, o: Reg)
    requires
        reg_valid(o),
    ensures
        final(out)@ == old(out)@ + set_line(m@, o),
{
    crate::text::push_str(out, "    ");
    crate::text::push_str(out, m);
    crate::text::push_str(out, " ");
    crate::text::push_str(out, reg_str(o));
    crate::text::push_str(out, ", ");
    crate::text::push_str(out, reg_str(o));
    crate::text::push_str(out, "\n");
    proof {
        assert(out@ =~= old(out)@ + set_line(m@, o));
    }
}

/// Appends the instruction sequence lowering one binary operator.
fn push_binop(out: &mut Vec<char>, op: BinOp, o: Reg, a: Reg, b: Reg)
    requires
        reg_valid(o),
        reg_valid(a),
        reg_valid(b),
    ensures
        final(out)@ == old(out)@ + binop_text(op, o, a, b),
{
    match op {
        BinOp::Add => push_line(out, "add", o, a, b),
        BinOp::Sub => push_line(out, "sub", o, a, b),
        BinOp::Mul => push_line(out, "mul", o, a, b),
        BinOp::Div => push_line(out, "div", o, a, b),
        BinOp::Mod => push_line(out, "rem", o, a, b),
        BinOp::Lt => push_line(out, "slt", o, a, b),
        BinOp::Gt => push_line(out, "sgt", o, a, b),
        BinOp::Le => {
            push_line(out, "sgt", o, a, b);
            push_set(out, "seqz", o);
            proof {
                assert(out@ =~= old(out)@ + binop_text(op, o, a, b));
            }
        },
        BinOp::Ge => {
            push_line(out, "slt", o, a, b);
            push_set(out, "seqz", o);
            proof {
                assert(out@ =~= old(out)@ + binop_text(op, o, a, b));
            }
        },
        BinOp::Eq => {
            push_line(out, "xor", o, a, b);
            push_set(out, "seqz", o);
            proof {
                assert(out@ =~= old(out)@ + binop_text(op, o, a, b));
            }
        },
        BinOp::NotEq => {
            push_line(out, "xor", o, a, b);
            push_set(out, "snez", o);
            proof {
                assert(out@ =~= old(out)@ + binop_text(op, o, a, b));
            }
        },
        BinOp::And => push_line(out, "and", o, a, b),
        BinOp::Or => push_line(out, "or", o, a, b),
    }
}

/// Generates one value to a register: zero is free, another literal loads
/// into a fresh register, and a binary operation is generated once and
/// answered from the memo ever after.
pub fn generate_value(f: &IrFunction, i: usize, info: &mut ProgramInfo, out: &mut Vec<char>) -> (r:
    Result<Reg, CompileError>)
    requires
        old(info).values@.len() == f.values@.len(),
        st_valid(info_st(*old(info))),
    ensures
        final(info).values@.len() == f.values@.len(),
        st_valid(info_st(*final(info))),
        match gen_operand_spec(f.values@, i as int, info_st(*old(info))) {
            Ok(p) => r matches Ok(reg) && reg == p.2 && info_st(*final(info)) == p.0
                && final(out)@ == old(out)@ + p.1 && reg_valid(reg),
            Err(e) => r matches Err(e2) && e2 == e,
        },
    decreases i,
{
    if i >= f.values.len() {
        return Err(CompileError::UnsupportedConstruct);
    }
    match f.values[i] {
        IrValue::Integer(v) => {
            if v == 0 {
                proof {
                    assert(final(out)@ =~= old(out)@ + Seq::<char>::empty());
                }
                Ok(Reg::Zero)
            } else {
                let reg = match gen_rig_name(info) {
                    Ok(rg) => rg,
                    Err(e) => return Err(e),
                };
                crate::text::push_str(out, "    li ");
                crate::text::push_str(out, reg_str(reg));
                crate::text::push_str(out, ", ");
                crate::text::push_int(out, v);
                crate::text::push_str(out, "\n");
                proof {
                    assert(out@ =~= old(out)@ + li_chars(reg, v));
                }
                Ok(reg)
            }
        },
        IrValue::Binary(op, l, r2) => {
            match info.values[i] {
                Some(reg) => {
                    proof {
                        assert(final(out)@ =~= old(out)@ + Seq::<char>::empty());
                    }
                    return Ok(reg);
                },
                None => {},
            }
            if !(l < i && r2 < i) {
                return Err(CompileError::UnsupportedConstruct);
            }
            let lhs = match generate_value(f, l, info, out) {
                Ok(x) => x,
                Err(e) => return Err(e),
            };
            let rhs = match generate_value(f, r2, info, out) {
                Ok(x) => x,
                Err(e) => return Err(e),
            };
            let outreg = match get_output_for_binary(f, l, r2, lhs, rhs, info) {
                Ok(x) => x,
                Err(e) => return Err(e),
            };
            push_binop(out, op, outreg, lhs, rhs);
            info.values.set(i, Some(outreg));
            proof {
                assert(out@ =~= old(out)@ + (gen_operand_spec(
                    f.values@,
                    i as int,
                    info_st(*old(info)),
                )->Ok_0).1);
            }
            Ok(outreg)
        },
        IrValue::Return(_) => Err(CompileError::UnsupportedConstruct),
        IrValue::Other => Err(CompileError::UnsupportedConstruct),
    }
}

/// Generates one layout instruction.
pub fn generate_inst(f: &IrFunction, i: usize, info: &mut ProgramInfo, out: &mut Vec<char>) -> (r:
    Result<(), CompileError>)
    requires
        old(info).values@.len() == f.values@.len(),
        st_valid(info_st(*old(info))),
    ensures
        final(info).values@.len() == f.values@.len(),
        st_valid(info_st(*final(info))),
        match gen_inst_spec(f.values@, i as int, info_st(*old(info))) {
            Ok(p) => r is Ok && info_st(*final(info)) == p.0 && final(out)@ == old(out)@ + p.1,
            Err(e) => r matches Err(e2) && e2 == e,
        },
{
    if i >= f.values.len() {
        return Err(CompileError::UnsupportedConstruct);
    }
    match f.values[i] {
        IrValue::Return(opt) => match opt {
            None => {
                crate::text::push_str(out, "    ret\n");
                Ok(())
            },
            Some(v) => {
                if !(v < i) {
                    return Err(CompileError::UnsupportedConstruct);
                }
                let reg = match generate_value(f, v, info, out) {
                    Ok(x) => x,
                    Err(e) => return Err(e),
                };
                crate::text::push_str(out, "    mv a0, ");
                crate::text::push_str(out, reg_str(reg));
                crate::text::push_str(out, "\n    ret\n");
                proof {
                    assert(out@ =~= old(out)@ + (gen_inst_spec(
                        f.values@,
                        i as int,
                        info_st(*old(info)),
                    )->Ok_0).1);
                }
                Ok(())
            },
        },
        IrValue::Integer(_) => match generate_value(f, i, info, out) {
            Ok(x) => Ok(()),
            Err(e) => Err(e),
        },
        IrValue::Binary(_, _, _) => match generate_value(f, i, info, out) {
            Ok(x) => Ok(()),
            Err(e) => Err(e),
        },
        IrValue::Other => Err(CompileError::UnsupportedConstruct),
    }
}

impl BasicBlock {
    /// Generates the block's instructions, in layout order.
    pub fn generate(&self, f: &IrFunction, info: &mut ProgramInfo, out: &mut Vec<char>) -> (r:
        Result<(), CompileError>)
        requires
            old(info).values@.len() == f.values@.len(),
            st_valid(info_st(*old(info))),
        ensures
            final(info).values@.len() == f.values@.len(),
            st_valid(info_st(*final(info))),
            match gen_insts_spec(f.values@, self.insts@, info_st(*old(info))) {
                Ok(p) => r is Ok && info_st(*final(info)) == p.0 && final(out)@ == old(out)@
                    + p.1,
                Err(e) => r matches Err(e2) && e2 == e,
            },
    {
        proof {
            assert(self.insts@.skip(0) =~= self.insts@);
        }
        self.generate_from(0, f, info, out)
    }

    /// Generates the instructions from position `j` on.
    fn generate_from(&self, j: usize, f: &IrFunction, info: &mut ProgramInfo, out: &mut Vec<
        char,
    >) -> (r: Result<(), CompileError>)
        requires
            j <= self.insts@.len(),
            old(info).values@.len() == f.values@.len(),
            st_valid(info_st(*old(info))),
        ensures
            final(info).values@.len() == f.values@.len(),
            st_valid(info_st(*final(info))),
            match gen_insts_spec(f.values@, self.insts@.skip(j as int), info_st(*old(info))) {
                Ok(p) => r is Ok && info_st(*final(info)) == p.0 && final(out)@ == old(out)@
                    + p.1,
                Err(e) => r matches Err(e2) && e2 == e,
            },
        decreases self.insts@.len() - j,
    {
        reveal(gen_insts_spec);
        if j == self.insts.len() {
            proof {
                assert(self.insts@.skip(j as int) =~= Seq::<usize>::empty());
                assert(final(out)@ =~= old(out)@ + Seq::<char>::empty());
            }
            Ok(())
        } else {
            proof {
                assert(self.insts@.skip(j as int)[0] == self.insts@[j as int]);
                assert(self.insts@.skip(j as int).drop_first() =~= self.insts@.skip(j + 1));
            }
            match generate_inst(f, self.insts[j], info, out) {
                Ok(u) => {},
                Err(e) => {
                    return Err(e);
                },
            }
            let r = self.generate_from(j + 1, f, info, out);
            proof {
                match gen_insts_spec(f.values@, self.insts@.skip(j as int), info_st(*old(info))) {
                    Ok(p) => {
                        assert(final(out)@ =~= old(out)@ + p.1);
                    },
                    Err(e) => {},
                }
            }
            r
        }
    }
}

impl IrFunction {
    /// Generates the function: its label, then its blocks, with a fresh
    /// memo and the carried-in register counter; returns the counter.
    pub fn generate(&self, rig: usize, out: &mut Vec<char>) -> (r: Result<usize, CompileError>)
        ensures
            match gen_function_spec(*self, rig as int) {
                Ok(p) => r matches Ok(g) && g as int == p.0 && final(out)@ == old(out)@ + p.1,
                Err(e) => r matches Err(e2) && e2 == e,
            },
    {
        crate::text::push_chars(out, &self.name);
        crate::text::push_str(out, ":\n");
        let mut info = ProgramInfo::new(self.values.len(), rig);
        match self.generate_blocks_from(0, &mut info, out) {
            Ok(u) => {
                proof {
                    assert(self.blocks@.skip(0) =~= self.blocks@);
                    match gen_function_spec(*self, rig as int) {
                        Ok(p) => {
                            assert(final(out)@ =~= old(out)@ + p.1);
                        },
                        Err(e) => {},
                    }
                }
                Ok(info.rig_id)
            },
            Err(e) => {
                proof {
                    assert(self.blocks@.skip(0) =~= self.blocks@);
                }
                Err(e)
            },
        }
    }

    /// Generates the blocks from position `j` on.
    fn generate_blocks_from(&self, j: usize, info: &mut ProgramInfo, out: &mut Vec<char>) -> (r:
        Result<(), CompileError>)
        requires
            j <= self.blocks@.len(),
            old(info).values@.len() == self.values@.len(),
            st_valid(info_st(*old(info))),
        ensures
            final(info).values@.len() == self.values@.len(),
            st_valid(info_st(*final(info))),
            match gen_blocks_spec(self.values@, self.blocks@.skip(j as int), info_st(*old(info))) {
                Ok(p) => r is Ok && info_st(*final(info)) == p.0 && final(out)@ == old(out)@
                    + p.1,
                Err(e) => r matches Err(e2) && e2 == e,
            },
        decreases self.blocks@.len() - j,
    {
        reveal(gen_blocks_spec);
        if j == self.blocks.len() {
            proof {
                assert(self.blocks@.skip(j as int) =~= Seq::<BasicBlock>::empty());
                assert(final(out)@ =~= old(out)@ + Seq::<char>::empty());
            }
            Ok(())
        } else {
            proof {
                assert(self.blocks@.skip(j as int)[0] == self.blocks@[j as int]);
                assert(self.blocks@.skip(j as int).drop_first() =~= self.blocks@.skip(j + 1));
            }
            match self.blocks[j].generate(self, info, out) {
                Ok(u) => {},
                Err(e) => {
                    return Err(e);
                },
            }
            let r = self.generate_blocks_from(j + 1, info, out);
            proof {
                match gen_blocks_spec(self.values@, self.blocks@.skip(j as int), info_st(
                    *old(info),
                )) {
                    Ok(p) => {
                        assert(final(out)@ =~= old(out)@ + p.1);
                    },
                    Err(e) => {},
                }
            }
            r
        }
    }
}

impl Program {
    /// Generates the whole assembly text: the text-section directive, the
    /// global-symbol declarations, then each function in layout order.
    pub fn generate(&self) -> (r: Result<Vec<char>, CompileError>)
        ensures
            match gen_program_spec(*self) {
                Ok(txt) => r matches Ok(v) && v@ == txt,
                Err(e) => r matches Err(e2) && e2 == e,
            },
    {
        let mut out: Vec<char> = Vec::new();
        crate::text::push_str(&mut out, "    .text\n");
        self.push_globl_from(0, &mut out);
        match self.generate_funcs_from(0, 0, &mut out) {
            Ok(g) => {
                proof {
                    assert(self.funcs@.skip(0) =~= self.funcs@);
                    match gen_program_spec(*self) {
                        Ok(txt) => {
                            assert(out@ =~= txt);
                        },
                        Err(e) => {},
                    }
                }
                Ok(out)
            },
            Err(e) => {
                proof {
                    assert(self.funcs@.skip(0) =~= self.funcs@);
                }
                Err(e)
            },
        }
    }

    /// Appends the `.globl` declarations from position `j` on.
    fn push_globl_from(&self, j: usize, out: &mut Vec<char>)
        requires
            j <= self.funcs@.len(),
        ensures
            final(out)@ == old(out)@ + globl_lines(self.funcs@.skip(j as int)),
        decreases self.funcs@.len() - j,
    {
        reveal(globl_lines);
        if j == self.funcs.len() {
            proof {
                assert(self.funcs@.skip(j as int) =~= Seq::<IrFunction>::empty());
                assert(final(out)@ =~= old(out)@ + Seq::<char>::empty());
            }
        } else {
            proof {
                assert(self.funcs@.skip(j as int)[0] == self.funcs@[j as int]);
                assert(self.funcs@.skip(j as int).drop_first() =~= self.funcs@.skip(j + 1));
            }
            crate::text::push_str(out, "    .globl ");
            crate::text::push_chars(out, &self.funcs[j].name);
            crate::text::push_str(out, "\n");
            self.push_globl_from(j + 1, out);
            proof {
                assert(final(out)@ =~= old(out)@ + globl_lines(self.funcs@.skip(j as int)));
            }
        }
    }

    /// Generates the functions from position `j` on, threading the counter.
    fn generate_funcs_from(&self, j: usize, rig: usize, out: &mut Vec<char>) -> (r: Result<
        usize,
        CompileError,
    >)
        requires
            j <= self.funcs@.len(),
        ensures
            match gen_funcs_spec(self.funcs@.skip(j as int), rig as int) {
                Ok(p) => r matches Ok(g) && g as int == p.0 && final(out)@ == old(out)@ + p.1,
                Err(e) => r matches Err(e2) && e2 == e,
            },
        decreases self.funcs@.len() - j,
    {
        reveal(gen_funcs_spec);
        if j == self.funcs.len() {
            proof {
                assert(self.funcs@.skip(j as int) =~= Seq::<IrFunction>::empty());
                assert(final(out)@ =~= old(out)@ + Seq::<char>::empty());
            }
            Ok(rig)
        } else {
            proof {
                assert(self.funcs@.skip(j as int)[0] == self.funcs@[j as int]);
                assert(self.funcs@.skip(j as int).drop_first() =~= self.funcs@.skip(j + 1));
            }
            let rig1 = match self.funcs[j].generate(rig, out) {
                Ok(g) => g,
                Err(e) => {
                    return Err(e);
                },
            };
            let r = self.generate_funcs_from(j + 1, rig1, out);
            proof {
                match gen_funcs_spec(self.funcs@.skip(j as int), rig as int) {
                    Ok(p) => {
                        assert(final(out)@ =~= old(out)@ + p.1);
                    },
                    Err(e) => {},
                }
            }
            r
        }
    }
}

} // verus!
