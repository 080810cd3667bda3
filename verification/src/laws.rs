//! The guarantees that tie the pipeline's stages together, stated over the
//! specification functions the stages' contracts use.
//!
//! Dual-path consistency: a constant expression evaluates to the same value
//! directly as by emitting its instructions and folding them back with
//! generation-time arithmetic. Zero-cost zero: an integer value of 0 emits
//! nothing and resolves to the hard-wired zero register. Memoization
//! idempotence: a binary value generated once is answered from the memo
//! ever after, with no new text and the identical register.
use crate::ast::{
    add_val, bool_i32, eq_val, exp_val, land_val, lor_val, lval_val, mul_val, primary_val,
    rel_val, unary_val, AddExp, AddSign, CmpSign, EqExp, EqSign, EvalErr, Exp, LAndExp, LOrExp,
    MulExp, MulSign, PrimaryExp, RelExp, UnaryExp, UnaryOp,
};
use crate::codegen::{gen_operand_spec, GenSt, Reg};
use crate::emit::{
    builder_st, emit_add, emit_eq, emit_exp, emit_land, emit_lor, emit_mul, emit_primary,
    emit_rel, emit_unary, st_add_inst, st_add_integer, st_to_logic, EmitSt, FuncBuilder,
};
use crate::errors::CompileError;
use crate::ir::{apply_binop, fold_value, lemma_fold_frame, BinOp, FoldErr, IrValue};
use crate::symbol_table::DataType;
use vstd::prelude::*;

verus! {

/// Folding the emitted instructions gives what the evaluator answers: the same
/// integer on success, and a division fault exactly where evaluation faults.
pub open spec fn fold_matches_eval(f: Result<i32, FoldErr>, s: Result<i32, EvalErr>) -> bool {
    match (f, s) {
        (Ok(a), Ok(b)) => a == b,
        (Err(FoldErr::DivByZero), Err(EvalErr::DivByZero)) => true,
        _ => false,
    }
}

/// What the 0/1 normalization step does to an evaluation result.
pub open spec fn norm_eval(ev: Result<i32, EvalErr>) -> Result<i32, EvalErr> {
    match ev {
        Ok(v) => Ok(bool_i32(v != 0)),
        Err(x) => Err(x),
    }
}

/// The claim each emission lemma proves: on success the state only grows,
/// the old values stay as a prefix, the returned operand is a fresh index,
/// and folding it matches evaluation; on failure evaluation fails too.
pub open spec fn emit_ok_claim(
    st: EmitSt,
    res: Result<(EmitSt, int), EvalErr>,
    ev: Result<i32, EvalErr>,
) -> bool {
    match res {
        Ok(p) => {
            &&& st.vals.len() <= p.0.vals.len()
            &&& (p.0.vals.len() <= usize::MAX ==> {
                &&& p.0.vals.take(st.vals.len() as int) == st.vals
                &&& st.vals.len() <= p.1 < p.0.vals.len()
                &&& fold_matches_eval(fold_value(p.0.vals, p.1), ev)
            })
        },
        Err(x) => ev is Err,
    }
}

/// On 0/1 inputs, bitwise or is logical or.
proof fn lemma_or_01(a: i32, b: i32)
    requires
        a == 0 || a == 1,
        b == 0 || b == 1,
    ensures
        (a | b) == bool_i32(a != 0 || b != 0),
{
    assert((a | b) == (if a != 0 || b != 0 {
        1i32
    } else {
        0i32
    })) by (bit_vector)
        requires
            (a == 0 || a == 1) && (b == 0 || b == 1),
    ;
}

/// On 0/1 inputs, bitwise and is logical and.
proof fn lemma_and_01(a: i32, b: i32)
    requires
        a == 0 || a == 1,
        b == 0 || b == 1,
    ensures
        (a & b) == bool_i32(a != 0 && b != 0),
{
    assert((a & b) == (if a != 0 && b != 0 {
        1i32
    } else {
        0i32
    })) by (bit_vector)
        requires
            (a == 0 || a == 1) && (b == 0 || b == 1),
    ;
}

/// A prefix of a prefix is a prefix.
proof fn lemma_prefix_trans(a: Seq<IrValue>, b: Seq<IrValue>, c: Seq<IrValue>)
    requires
        a.len() <= b.len() <= c.len(),
        b.take(a.len() as int) == a,
        c.take(b.len() as int) == b,
    ensures
        c.take(a.len() as int) == a,
{
    assert(c.take(a.len() as int) =~= a) by {
        assert(forall|k: int|
            0 <= k < a.len() ==> c.take(a.len() as int)[k] == c.take(b.len() as int)[k]);
    }
}

/// Folding an operand that lies within a prefix ignores the values after it.
proof fn lemma_fold_in_prefix(a: Seq<IrValue>, c: Seq<IrValue>, o: int)
    requires
        a.len() <= c.len(),
        c.take(a.len() as int) == a,
        0 <= o < a.len(),
    ensures
        fold_value(c, o) == fold_value(a, o),
{
    assert(c =~= a + c.skip(a.len() as int));
    lemma_fold_frame(a, c.skip(a.len() as int), o);
}

/// The 0/1 normalization step: it appends a zero literal and a `ne x, 0`
/// instruction, and folding the latter yields the normalized result.
proof fn lemma_to_logic(sta: EmitSt, o: int, ev: Result<i32, EvalErr>)
    requires
        0 <= o < sta.vals.len(),
        sta.vals.len() + 2 <= usize::MAX,
        fold_matches_eval(fold_value(sta.vals, o), ev),
    ensures
        ({
            let (stb, n) = st_to_logic(sta, o);
            &&& stb.vals.len() == sta.vals.len() + 2
            &&& stb.insts.len() == sta.insts.len() + 1
            &&& n == sta.vals.len() + 1
            &&& stb.vals.take(sta.vals.len() as int) == sta.vals
            &&& fold_matches_eval(fold_value(stb.vals, n), norm_eval(ev))
            &&& (norm_eval(ev) matches Ok(v) ==> (v == 0 || v == 1))
        }),
{
    let (stb, n) = st_to_logic(sta, o);
    let z = sta.vals.len() as int;
    assert(stb.vals.take(sta.vals.len() as int) =~= sta.vals);
    lemma_fold_in_prefix(sta.vals, stb.vals, o);
    assert(stb.vals[n] == IrValue::Binary(BinOp::NotEq, o as usize, z as usize));
    assert(stb.vals[z] == IrValue::Integer(0i32));
    assert(fold_value(stb.vals, z) == Ok::<i32, FoldErr>(0i32));
}

/// Dual-path consistency at the expression root.
proof fn lemma_fold_exp(e: Exp, t: Map<Seq<char>, DataType>, st: EmitSt)
    ensures
        emit_ok_claim(st, emit_exp(e, t, st), exp_val(e, t)),
    decreases e,
{
    lemma_fold_lor(e.l_or_exp, t, st);
}

/// Dual-path consistency at the logical-or level.
proof fn lemma_fold_lor(e: LOrExp, t: Map<Seq<char>, DataType>, st: EmitSt)
    ensures
        emit_ok_claim(st, emit_lor(e, t, st), lor_val(e, t)),
    decreases e,
{
    match e {
        LOrExp::LAndExp(a) => {
            lemma_fold_land(a, t, st);
        },
        LOrExp::Or(l, r) => {
            lemma_fold_lor(*l, t, st);
            match emit_lor(*l, t, st) {
                Err(x) => {},
                Ok((st1, o1)) => {
                    let (st2, n1) = st_to_logic(st1, o1);
                    lemma_fold_land(r, t, st2);
                    match emit_land(r, t, st2) {
                        Err(x) => {},
                        Ok((st3, o2)) => {
                            let (st4, n2) = st_to_logic(st3, o2);
                            let (st5, o5) = st_add_inst(
                                st4,
                                IrValue::Binary(BinOp::Or, n1 as usize, n2 as usize),
                            );
                            if st5.vals.len() <= usize::MAX {
                                lemma_to_logic(st1, o1, lor_val(*l, t));
                                lemma_to_logic(st3, o2, land_val(r, t));
                                assert(st5.vals.take(st4.vals.len() as int) =~= st4.vals);
                                assert(st4.vals.take(st3.vals.len() as int) =~= st3.vals);
                                // prefix chain up to the final state
                                lemma_prefix_trans(st2.vals, st3.vals, st4.vals);
                                lemma_prefix_trans(st2.vals, st4.vals, st5.vals);
                                lemma_prefix_trans(st1.vals, st2.vals, st5.vals);
                                lemma_prefix_trans(st.vals, st1.vals, st5.vals);
                                // the two normalized operands keep their folds
                                lemma_fold_in_prefix(st2.vals, st5.vals, n1);
                                lemma_fold_in_prefix(st4.vals, st5.vals, n2);
                                assert(st4.vals.take(st2.vals.len() as int) == st2.vals);
                                assert(fold_value(st4.vals, n1) == fold_value(st2.vals, n1)) by {
                                    lemma_fold_in_prefix(st2.vals, st4.vals, n1);
                                }
                                assert(st5.vals[o5] == IrValue::Binary(
                                    BinOp::Or,
                                    n1 as usize,
                                    n2 as usize,
                                ));
                                match (norm_eval(lor_val(*l, t)), norm_eval(land_val(r, t))) {
                                    (Ok(b1), Ok(b2)) => {
                                        lemma_or_01(b1, b2);
                                    },
                                    _ => {},
                                }
                            }
                        },
                    }
                },
            }
        },
    }
}

/// Dual-path consistency at the logical-and level.
proof fn lemma_fold_land(e: LAndExp, t: Map<Seq<char>, DataType>, st: EmitSt)
    ensures
        emit_ok_claim(st, emit_land(e, t, st), land_val(e, t)),
    decreases e,
{
    match e {
        LAndExp::EqExp(a) => {
            lemma_fold_eq(a, t, st);
        },
        LAndExp::And(l, r) => {
            lemma_fold_land(*l, t, st);
            match emit_land(*l, t, st) {
                Err(x) => {},
                Ok((st1, o1)) => {
                    let (st2, n1) = st_to_logic(st1, o1);
                    lemma_fold_eq(r, t, st2);
                    match emit_eq(r, t, st2) {
                        Err(x) => {},
                        Ok((st3, o2)) => {
                            let (st4, n2) = st_to_logic(st3, o2);
                            let (st5, o5) = st_add_inst(
                                st4,
                                IrValue::Binary(BinOp::And, n1 as usize, n2 as usize),
                            );
                            if st5.vals.len() <= usize::MAX {
                                lemma_to_logic(st1, o1, land_val(*l, t));
                                lemma_to_logic(st3, o2, eq_val(r, t));
                                assert(st5.vals.take(st4.vals.len() as int) =~= st4.vals);
                                assert(st4.vals.take(st3.vals.len() as int) =~= st3.vals);
                                lemma_prefix_trans(st2.vals, st3.vals, st4.vals);
                                lemma_prefix_trans(st2.vals, st4.vals, st5.vals);
                                lemma_prefix_trans(st1.vals, st2.vals, st5.vals);
                                lemma_prefix_trans(st.vals, st1.vals, st5.vals);
                                lemma_fold_in_prefix(st2.vals, st5.vals, n1);
                                lemma_fold_in_prefix(st4.vals, st5.vals, n2);
                                assert(fold_value(st4.vals, n1) == fold_value(st2.vals, n1)) by {
                                    lemma_fold_in_prefix(st2.vals, st4.vals, n1);
                                }
                                assert(st5.vals[o5] == IrValue::Binary(
                                    BinOp::And,
                                    n1 as usize,
                                    n2 as usize,
                                ));
                                match (norm_eval(land_val(*l, t)), norm_eval(eq_val(r, t))) {
                                    (Ok(b1), Ok(b2)) => {
                                        lemma_and_01(b1, b2);
                                    },
                                    _ => {},
                                }
                            }
                        },
                    }
                },
            }
        },
    }
}

/// The shared shape of the four plain binary levels and of the unary
/// lowerings: two already-emitted operands, one instruction appended whose
/// fold combines the operand folds exactly.
proof fn lemma_fold_plain_binary(st: EmitSt, st1: EmitSt, o1: int, st2: EmitSt, o2: int, op: BinOp)
    requires
        st.vals.len() <= st1.vals.len() <= st2.vals.len(),
        st2.vals.len() + 1 <= usize::MAX,
        st2.vals.take(st1.vals.len() as int) == st1.vals,
        st1.vals.take(st.vals.len() as int) == st.vals,
        0 <= o1 < st1.vals.len(),
        0 <= o2 < st2.vals.len(),
    ensures
        ({
            let (st3, o3) = st_add_inst(st2, IrValue::Binary(op, o1 as usize, o2 as usize));
            &&& st3.vals.len() == st2.vals.len() + 1
            &&& st3.vals.take(st.vals.len() as int) == st.vals
            &&& st.vals.len() <= o3 < st3.vals.len()
            &&& fold_value(st3.vals, o3) == (match (
                fold_value(st1.vals, o1),
                fold_value(st2.vals, o2),
            ) {
                (Ok(a), Ok(b)) => apply_binop(op, a, b),
                (Err(x), _) => Err::<i32, FoldErr>(x),
                (Ok(a), Err(y)) => Err::<i32, FoldErr>(y),
            })
        }),
{
    let (st3, o3) = st_add_inst(st2, IrValue::Binary(op, o1 as usize, o2 as usize));
    assert(st3.vals.take(st2.vals.len() as int) =~= st2.vals);
    lemma_prefix_trans(st1.vals, st2.vals, st3.vals);
    lemma_prefix_trans(st.vals, st1.vals, st3.vals);
    lemma_fold_in_prefix(st1.vals, st3.vals, o1);
    lemma_fold_in_prefix(st2.vals, st3.vals, o2);
    assert(fold_value(st3.vals, o1) == fold_value(st1.vals, o1));
    assert(st3.vals[o3] == IrValue::Binary(op, o1 as usize, o2 as usize));
    assert(o3 >= st.vals.len()) by {
        assert(st3.vals.len() == st2.vals.len() + 1);
    }
}

/// Dual-path consistency at the equality level.
proof fn lemma_fold_eq(e: EqExp, t: Map<Seq<char>, DataType>, st: EmitSt)
    ensures
        emit_ok_claim(st, emit_eq(e, t, st), eq_val(e, t)),
    decreases e,
{
    match e {
        EqExp::RelExp(a) => {
            lemma_fold_rel(a, t, st);
        },
        EqExp::Eq(l, sign, r) => {
            lemma_fold_eq(*l, t, st);
            match emit_eq(*l, t, st) {
                Err(x) => {},
                Ok((st1, o1)) => {
                    lemma_fold_rel(r, t, st1);
                    match emit_rel(r, t, st1) {
                        Err(x) => {},
                        Ok((st2, o2)) => {
                            let op = match sign {
                                EqSign::Eq => BinOp::Eq,
                                EqSign::Neq => BinOp::NotEq,
                            };
                            let (st3, o3) = st_add_inst(
                                st2,
                                IrValue::Binary(op, o1 as usize, o2 as usize),
                            );
                            if st3.vals.len() <= usize::MAX {
                                assert(st1.vals.len() <= st2.vals.len() < usize::MAX);
                                lemma_fold_plain_binary(st, st1, o1, st2, o2, op);
                            }
                        },
                    }
                },
            }
        },
    }
}

/// Dual-path consistency at the relational level.
proof fn lemma_fold_rel(e: RelExp, t: Map<Seq<char>, DataType>, st: EmitSt)
    ensures
        emit_ok_claim(st, emit_rel(e, t, st), rel_val(e, t)),
    decreases e,
{
    match e {
        RelExp::AddExp(a) => {
            lemma_fold_add(a, t, st);
        },
        RelExp::Cmp(l, sign, r) => {
            lemma_fold_rel(*l, t, st);
            match emit_rel(*l, t, st) {
                Err(x) => {},
                Ok((st1, o1)) => {
                    lemma_fold_add(r, t, st1);
                    match emit_add(r, t, st1) {
                        Err(x) => {},
                        Ok((st2, o2)) => {
                            let op = match sign {
                                CmpSign::Less => BinOp::Lt,
                                CmpSign::More => BinOp::Gt,
                                CmpSign::Leq => BinOp::Le,
                                CmpSign::Meq => BinOp::Ge,
                            };
                            let (st3, o3) = st_add_inst(
                                st2,
                                IrValue::Binary(op, o1 as usize, o2 as usize),
                            );
                            if st3.vals.len() <= usize::MAX {
                                assert(st1.vals.len() <= st2.vals.len() < usize::MAX);
                                lemma_fold_plain_binary(st, st1, o1, st2, o2, op);
                            }
                        },
                    }
                },
            }
        },
    }
}

/// Dual-path consistency at the additive level.
proof fn lemma_fold_add(e: AddExp, t: Map<Seq<char>, DataType>, st: EmitSt)
    ensures
        emit_ok_claim(st, emit_add(e, t, st), add_val(e, t)),
    decreases e,
{
    match e {
        AddExp::MulExp(a) => {
            lemma_fold_mul(a, t, st);
        },
        AddExp::AddExp(l, sign, r) => {
            lemma_fold_add(*l, t, st);
            match emit_add(*l, t, st) {
                Err(x) => {},
                Ok((st1, o1)) => {
                    lemma_fold_mul(r, t, st1);
                    match emit_mul(r, t, st1) {
                        Err(x) => {},
                        Ok((st2, o2)) => {
                            let op = match sign {
                                AddSign::Add => BinOp::Add,
                                AddSign::Sub => BinOp::Sub,
                            };
                            let (st3, o3) = st_add_inst(
                                st2,
                                IrValue::Binary(op, o1 as usize, o2 as usize),
                            );
                            if st3.vals.len() <= usize::MAX {
                                assert(st1.vals.len() <= st2.vals.len() < usize::MAX);
                                lemma_fold_plain_binary(st, st1, o1, st2, o2, op);
                            }
                        },
                    }
                },
            }
        },
    }
}

/// Dual-path consistency at the multiplicative level.
proof fn lemma_fold_mul(e: MulExp, t: Map<Seq<char>, DataType>, st: EmitSt)
    ensures
        emit_ok_claim(st, emit_mul(e, t, st), mul_val(e, t)),
    decreases e,
{
    match e {
        MulExp::UnaryExp(a) => {
            lemma_fold_unary(a, t, st);
        },
        MulExp::MulExp(l, sign, r) => {
            lemma_fold_mul(*l, t, st);
            match emit_mul(*l, t, st) {
                Err(x) => {},
                Ok((st1, o1)) => {
                    lemma_fold_unary(r, t, st1);
                    match emit_unary(r, t, st1) {
                        Err(x) => {},
                        Ok((st2, o2)) => {
                            let op = match sign {
                                MulSign::Mul => BinOp::Mul,
                                MulSign::Div => BinOp::Div,
                                MulSign::Mod => BinOp::Mod,
                            };
                            let (st3, o3) = st_add_inst(
                                st2,
                                IrValue::Binary(op, o1 as usize, o2 as usize),
                            );
                            if st3.vals.len() <= usize::MAX {
                                assert(st1.vals.len() <= st2.vals.len() < usize::MAX);
                                lemma_fold_plain_binary(st, st1, o1, st2, o2, op);
                            }
                        },
                    }
                },
            }
        },
    }
}

/// Dual-path consistency at the unary level: both unary operators lower to
/// one binary instruction against a fresh zero literal.
proof fn lemma_fold_unary(e: UnaryExp, t: Map<Seq<char>, DataType>, st: EmitSt)
    ensures
        emit_ok_claim(st, emit_unary(e, t, st), unary_val(e, t)),
    decreases e,
{
    match e {
        UnaryExp::PrimaryExp(p) => {
            lemma_fold_primary(p, t, st);
        },
        UnaryExp::Unary(op, inner) => {
            lemma_fold_unary(*inner, t, st);
            match emit_unary(*inner, t, st) {
                Err(x) => {},
                Ok((st1, o)) => {
                    let (st2, z) = st_add_integer(st1, 0);
                    let bop = match op {
                        UnaryOp::Bang => BinOp::Eq,
                        UnaryOp::Negative => BinOp::Sub,
                    };
                    if st2.vals.len() + 1 <= usize::MAX {
                        assert(st2.vals.take(st1.vals.len() as int) =~= st1.vals);
                        assert(st2.vals[z] == IrValue::Integer(0i32));
                        assert(fold_value(st2.vals, z) == Ok::<i32, FoldErr>(0i32));
                        lemma_fold_in_prefix(st1.vals, st2.vals, o);
                        match op {
                            UnaryOp::Bang => {
                                assert(st1.vals.len() <= st2.vals.len() < usize::MAX);
                                lemma_fold_plain_binary(st, st1, o, st2, z, BinOp::Eq);
                            },
                            UnaryOp::Negative => {
                                // here the zero is the left operand
                                let (st3, o3) = st_add_inst(
                                    st2,
                                    IrValue::Binary(BinOp::Sub, z as usize, o as usize),
                                );
                                assert(st3.vals.take(st2.vals.len() as int) =~= st2.vals);
                                lemma_prefix_trans(st1.vals, st2.vals, st3.vals);
                                lemma_prefix_trans(st.vals, st1.vals, st3.vals);
                                lemma_fold_in_prefix(st2.vals, st3.vals, z);
                                lemma_fold_in_prefix(st2.vals, st3.vals, o);
                                assert(fold_value(st2.vals, o) == fold_value(st1.vals, o)) by {
                                    lemma_fold_in_prefix(st1.vals, st2.vals, o);
                                }
                                assert(st3.vals[o3] == IrValue::Binary(
                                    BinOp::Sub,
                                    z as usize,
                                    o as usize,
                                ));
                            },
                        }
                    }
                },
            }
        },
    }
}

/// Dual-path consistency at the primary level: a literal or a resolved name
/// becomes an integer value that folds to itself.
proof fn lemma_fold_primary(e: PrimaryExp, t: Map<Seq<char>, DataType>, st: EmitSt)
    ensures
        emit_ok_claim(st, emit_primary(e, t, st), primary_val(e, t)),
    decreases e,
{
    match e {
        PrimaryExp::Exp(inner) => {
            lemma_fold_exp(*inner, t, st);
        },
        PrimaryExp::Number(n) => {
            let (st1, o) = st_add_integer(st, n.num);
            if st1.vals.len() <= usize::MAX {
                assert(st1.vals.take(st.vals.len() as int) =~= st.vals);
                assert(st1.vals[o] == IrValue::Integer(n.num));
            }
        },
        PrimaryExp::LVal(l) => {
            match lval_val(l, t) {
                Err(x) => {},
                Ok(v) => {
                    let (st1, o) = st_add_integer(st, v);
                    if st1.vals.len() <= usize::MAX {
                        assert(st1.vals.take(st.vals.len() as int) =~= st.vals);
                        assert(st1.vals[o] == IrValue::Integer(v));
                    }
                },
            }
        },
    }
}

/// Dual-path consistency: for every expression, if direct evaluation
/// succeeds, then emitting the expression and folding the returned operand
/// through generation-time arithmetic yields the very same integer — and
/// where evaluation faults on a zero divisor, the fold faults the same way.
/// Stated over any emission into a builder, whatever was emitted before.
#[verifier::rlimit(60)]
pub proof fn lemma_dual_path_consistency(
    e: Exp,
    t: Map<Seq<char>, DataType>,
    b0: FuncBuilder,
    b1: FuncBuilder,
    o: usize,
)
    requires
        emit_exp(e, t, builder_st(b0)) == Ok::<(EmitSt, int), EvalErr>((builder_st(b1), o as int)),
    ensures
        fold_matches_eval(fold_value(b1.values@, o as int), exp_val(e, t)),
        exp_val(e, t) matches Ok(v) ==> fold_value(b1.values@, o as int) == Ok::<i32, FoldErr>(v),
{
    vstd::std_specs::vec::axiom_spec_len(&b1.values);
    lemma_fold_exp(e, t, builder_st(b0));
}

/// Zero-cost zero: generating an integer value of 0 emits no text and
/// resolves to the hard-wired zero register, whatever the allocator state.
pub proof fn lemma_zero_cost_zero(vals: Seq<IrValue>, i: int, st: GenSt)
    requires
        0 <= i < vals.len(),
        vals[i] == IrValue::Integer(0i32),
    ensures
        gen_operand_spec(vals, i, st) == Ok::<(GenSt, Seq<char>, Reg), CompileError>(
            (st, Seq::<char>::empty(), Reg::Zero),
        ),
{
}

/// Generating a value never shrinks the memo and never forgets an entry's
/// presence; on success the memo keeps its length.
proof fn lemma_gen_preserves_memo(vals: Seq<IrValue>, i: int, st: GenSt)
    requires
        st.memo.len() == vals.len(),
    ensures
        gen_operand_spec(vals, i, st) matches Ok(p) ==> p.0.memo.len() == vals.len(),
    decreases i,
{
    if 0 <= i < vals.len() {
        match vals[i] {
            IrValue::Binary(op, l, r) => {
                if !(0 <= i < st.memo.len() && st.memo[i] is Some) && l < i && r < i {
                    lemma_gen_preserves_memo(vals, l as int, st);
                    match gen_operand_spec(vals, l as int, st) {
                        Ok(p1) => {
                            lemma_gen_preserves_memo(vals, r as int, p1.0);
                        },
                        Err(_) => {},
                    }
                }
            },
            _ => {},
        }
    }
}

/// Memoization idempotence: once a binary value has been generated, its
/// register stands in the memo; generating the same value again emits
/// nothing, changes no state, and returns the identical register.
pub proof fn lemma_memoization_idempotent(vals: Seq<IrValue>, i: int, st: GenSt)
    requires
        st.memo.len() == vals.len(),
        0 <= i < vals.len(),
        vals[i] is Binary,
        gen_operand_spec(vals, i, st) is Ok,
    ensures
        ({
            let p = gen_operand_spec(vals, i, st)->Ok_0;
            gen_operand_spec(vals, i, p.0) == Ok::<(GenSt, Seq<char>, Reg), CompileError>(
                (p.0, Seq::<char>::empty(), p.2),
            )
        }),
{
    let p = gen_operand_spec(vals, i, st)->Ok_0;
    if st.memo[i] is Some {
        // already memoized: the first call was itself a hit
    } else {
        match vals[i] {
            IrValue::Binary(op, l, r) => {
                lemma_gen_preserves_memo(vals, l as int, st);
                match gen_operand_spec(vals, l as int, st) {
                    Ok(p1) => {
                        lemma_gen_preserves_memo(vals, r as int, p1.0);
                    },
                    Err(_) => {},
                }
            },
            _ => {},
        }
        assert(p.0.memo[i] == Some(p.2));
    }
}

} // verus!
