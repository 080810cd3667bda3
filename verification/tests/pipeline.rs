//! The two-stage lowering pipeline end to end: textual IR emission,
//! constant folding of the emitted values, and assembly generation with
//! the register heuristic and the memo cache.
use sysy_compiler::ast::{
    AddExp, AddSign, Block, BlockItem, CompUnit, ConstDecl, ConstDef, ConstExp, ConstInitVal,
    Decl, EqExp, Exp, FuncDef, FuncType, LAndExp, LOrExp, LVal, MulExp, MulSign, Number,
    PrimaryExp, RelExp, Stmt, UnaryExp, UnaryOp,
};
use sysy_compiler::codegen::{generate_value, ProgramInfo, Reg};
use sysy_compiler::emit::FuncBuilder;
use sysy_compiler::errors::CompileError;
use sysy_compiler::ir::{BasicBlock, BinOp, IrFunction, IrValue, Program};
use sysy_compiler::symbol_table::SymbolTable;

fn pnum(n: i32) -> PrimaryExp {
    PrimaryExp::Number(Number { num: n })
}

fn unary_of(p: PrimaryExp) -> UnaryExp {
    UnaryExp::PrimaryExp(p)
}

fn mul_of(p: PrimaryExp) -> MulExp {
    MulExp::UnaryExp(unary_of(p))
}

fn add_of(p: PrimaryExp) -> AddExp {
    AddExp::MulExp(mul_of(p))
}

fn exp_of(a: AddExp) -> Exp {
    Exp {
        l_or_exp: LOrExp::LAndExp(LAndExp::EqExp(EqExp::RelExp(RelExp::AddExp(a)))),
    }
}

fn ident(name: &str) -> PrimaryExp {
    PrimaryExp::LVal(LVal { ident: name.to_string() })
}

fn ret_unit(e: Exp) -> CompUnit {
    CompUnit {
        func_def: FuncDef {
            func_type: FuncType::Int,
            ident: "main".to_string(),
            block: Block { items: vec![BlockItem::Stmt(Stmt { exp: e })] },
        },
    }
}

fn text(v: &Vec<char>) -> String {
    v.iter().collect()
}

#[test]
fn literal_return_ir_text() {
    let unit = ret_unit(exp_of(add_of(pnum(7))));
    let prog = unit.generate().unwrap();
    assert_eq!(
        text(&prog.render()),
        "fun @main(): i32 {\n%entry:\n    ret 7\n}\n"
    );
}

#[test]
fn literal_return_assembly() {
    let unit = ret_unit(exp_of(add_of(pnum(7))));
    let prog = unit.generate().unwrap();
    let out = prog.generate().unwrap();
    assert_eq!(
        text(&out),
        "    .text\n    .globl main\nmain:\n    li t0, 7\n    mv a0, t0\n    ret\n"
    );
}

#[test]
fn unary_negate_ir_text() {
    let e = exp_of(AddExp::MulExp(MulExp::UnaryExp(UnaryExp::Unary(
        UnaryOp::Negative,
        Box::new(unary_of(pnum(5))),
    ))));
    let prog = ret_unit(e).generate().unwrap();
    assert_eq!(
        text(&prog.render()),
        "fun @main(): i32 {\n%entry:\n    %0 = sub 0, 5\n    ret %0\n}\n"
    );
}

#[test]
fn unary_negate_assembly() {
    let e = exp_of(AddExp::MulExp(MulExp::UnaryExp(UnaryExp::Unary(
        UnaryOp::Negative,
        Box::new(unary_of(pnum(5))),
    ))));
    let prog = ret_unit(e).generate().unwrap();
    let out = prog.generate().unwrap();
    assert_eq!(
        text(&out),
        "    .text\n    .globl main\nmain:\n    li t0, 5\n    sub t0, x0, t0\n    mv a0, t0\n    ret\n"
    );
}

#[test]
fn undefined_identifier_yields_no_output() {
    let unit = ret_unit(exp_of(add_of(ident("x"))));
    assert_eq!(
        unit.generate().err(),
        Some(CompileError::UndefinedSymbol("x".to_string()))
    );
}

#[test]
fn constant_declarations_substitute_literals() {
    // const int a = 3; const int b = 4; return a + b;
    let decl = Decl {
        const_decl: ConstDecl {
            typ: sysy_compiler::ast::BType::I32,
            defs: vec![
                ConstDef {
                    ident: "a".to_string(),
                    val: ConstInitVal { exp: ConstExp { exp: exp_of(add_of(pnum(3))) } },
                },
                ConstDef {
                    ident: "b".to_string(),
                    val: ConstInitVal { exp: ConstExp { exp: exp_of(add_of(pnum(4))) } },
                },
            ],
        },
    };
    let sum = exp_of(AddExp::AddExp(
        Box::new(add_of(ident("a"))),
        AddSign::Add,
        mul_of(ident("b")),
    ));
    // direct evaluation gives 7 once the declarations are bound
    let mut t = SymbolTable::new();
    decl.const_decl.generate(&mut t).unwrap();
    assert_eq!(sum.get_val(&t), Ok(7));
    // the emitted operands are the substituted literals 3 and 4
    let unit = CompUnit {
        func_def: FuncDef {
            func_type: FuncType::Int,
            ident: "main".to_string(),
            block: Block {
                items: vec![
                    BlockItem::Decl(decl),
                    BlockItem::Stmt(Stmt { exp: sum }),
                ],
            },
        },
    };
    let prog = unit.generate().unwrap();
    assert_eq!(
        text(&prog.render()),
        "fun @main(): i32 {\n%entry:\n    %0 = add 3, 4\n    ret %0\n}\n"
    );
}

#[test]
fn fold_of_emitted_values_matches_evaluation() {
    let t = SymbolTable::new();
    let samples: Vec<Exp> = vec![
        exp_of(add_of(pnum(11))),
        exp_of(AddExp::AddExp(Box::new(add_of(pnum(3))), AddSign::Add, mul_of(pnum(4)))),
        exp_of(AddExp::AddExp(Box::new(add_of(pnum(3))), AddSign::Sub, mul_of(pnum(10)))),
        exp_of(AddExp::MulExp(MulExp::MulExp(
            Box::new(mul_of(pnum(-9))),
            MulSign::Div,
            unary_of(pnum(2)),
        ))),
        exp_of(AddExp::MulExp(MulExp::MulExp(
            Box::new(mul_of(pnum(-9))),
            MulSign::Mod,
            unary_of(pnum(2)),
        ))),
        exp_of(AddExp::MulExp(MulExp::UnaryExp(UnaryExp::Unary(
            UnaryOp::Bang,
            Box::new(unary_of(pnum(0))),
        )))),
        Exp {
            l_or_exp: LOrExp::Or(
                Box::new(LOrExp::LAndExp(LAndExp::EqExp(EqExp::RelExp(RelExp::AddExp(
                    add_of(pnum(0)),
                ))))),
                LAndExp::EqExp(EqExp::RelExp(RelExp::AddExp(add_of(pnum(5))))),
            ),
        },
        Exp {
            l_or_exp: LOrExp::LAndExp(LAndExp::And(
                Box::new(LAndExp::EqExp(EqExp::RelExp(RelExp::AddExp(add_of(pnum(2)))))),
                EqExp::RelExp(RelExp::AddExp(add_of(pnum(3)))),
            )),
        },
    ];
    for e in samples {
        let expect = e.get_val(&t).unwrap();
        let mut b = FuncBuilder::new();
        let o = e.generate(&mut b, &t).unwrap();
        let f = IrFunction { name: vec!['m'], values: b.values, blocks: vec![] };
        assert_eq!(f.fold(o), Ok(expect));
    }
}

#[test]
fn zero_resolves_to_zero_register_for_free() {
    let f = IrFunction {
        name: vec!['m'],
        values: vec![IrValue::Integer(0)],
        blocks: vec![],
    };
    let mut info = ProgramInfo::new(1, 0);
    let mut out: Vec<char> = Vec::new();
    assert_eq!(generate_value(&f, 0, &mut info, &mut out), Ok(Reg::Zero));
    assert_eq!(out.len(), 0);
    assert_eq!(info.rig_id, 0);
}

#[test]
fn shared_value_generates_once() {
    // one binary value generated twice: the second call is a memo hit
    let f = IrFunction {
        name: vec!['m'],
        values: vec![
            IrValue::Integer(2),
            IrValue::Integer(3),
            IrValue::Binary(BinOp::Add, 0, 1),
        ],
        blocks: vec![],
    };
    let mut info = ProgramInfo::new(3, 0);
    let mut out: Vec<char> = Vec::new();
    let first = generate_value(&f, 2, &mut info, &mut out).unwrap();
    let len_after_first = out.len();
    let second = generate_value(&f, 2, &mut info, &mut out).unwrap();
    assert_eq!(first, second);
    assert_eq!(out.len(), len_after_first);
}

#[test]
fn output_register_reuses_literal_operand() {
    // 2 + 3: both operands are literals, the left register is reused
    let f = IrFunction {
        name: vec!['m'],
        values: vec![
            IrValue::Integer(2),
            IrValue::Integer(3),
            IrValue::Binary(BinOp::Add, 0, 1),
            IrValue::Return(Some(2)),
        ],
        blocks: vec![BasicBlock { name: "entry".chars().collect(), insts: vec![2, 3] }],
    };
    let prog = Program { funcs: vec![f] };
    let out = prog.generate().unwrap();
    assert_eq!(
        text(&out),
        "    .text\n    .globl m\nm:\n    li t0, 2\n    li t1, 3\n    add t0, t0, t1\n    mv a0, t0\n    ret\n"
    );
}

#[test]
fn comparison_lowering_uses_set_instructions() {
    // 1 <= 2 lowers to sgt plus seqz on the output register
    let f = IrFunction {
        name: vec!['m'],
        values: vec![
            IrValue::Integer(1),
            IrValue::Integer(2),
            IrValue::Binary(BinOp::Le, 0, 1),
            IrValue::Return(Some(2)),
        ],
        blocks: vec![BasicBlock { name: "entry".chars().collect(), insts: vec![2, 3] }],
    };
    let prog = Program { funcs: vec![f] };
    let out = prog.generate().unwrap();
    assert_eq!(
        text(&out),
        "    .text\n    .globl m\nm:\n    li t0, 1\n    li t1, 2\n    sgt t0, t0, t1\n    seqz t0, t0\n    mv a0, t0\n    ret\n"
    );
}

#[test]
fn register_pool_exhaustion_is_reported() {
    // sixteen nonzero literals each demand a fresh register; the pool has 15
    let mut values: Vec<IrValue> = Vec::new();
    let mut insts: Vec<usize> = Vec::new();
    for k in 0..16 {
        values.push(IrValue::Integer(k + 1));
        insts.push(k as usize);
    }
    let f = IrFunction {
        name: vec!['m'],
        values,
        blocks: vec![BasicBlock { name: "entry".chars().collect(), insts }],
    };
    let prog = Program { funcs: vec![f] };
    assert_eq!(prog.generate().err(), Some(CompileError::RegisterPoolExhausted));
}

#[test]
fn unsupported_kind_is_reported() {
    let f = IrFunction {
        name: vec!['m'],
        values: vec![IrValue::Other],
        blocks: vec![BasicBlock { name: "entry".chars().collect(), insts: vec![0] }],
    };
    let prog = Program { funcs: vec![f] };
    assert_eq!(prog.generate().err(), Some(CompileError::UnsupportedConstruct));
}

#[test]
fn return_without_operand_emits_only_ret() {
    let f = IrFunction {
        name: vec!['m'],
        values: vec![IrValue::Return(None)],
        blocks: vec![BasicBlock { name: "entry".chars().collect(), insts: vec![0] }],
    };
    let prog = Program { funcs: vec![f] };
    assert_eq!(text(&prog.generate().unwrap()), "    .text\n    .globl m\nm:\n    ret\n");
}

#[test]
fn negative_literals_render_inline() {
    let f = IrFunction {
        name: vec!['m'],
        values: vec![IrValue::Integer(-5), IrValue::Return(Some(0))],
        blocks: vec![BasicBlock { name: "entry".chars().collect(), insts: vec![1] }],
    };
    let prog = Program { funcs: vec![f] };
    assert_eq!(text(&prog.render()), "fun @m(): i32 {\n%entry:\n    ret -5\n}\n");
    assert_eq!(
        text(&prog.generate().unwrap()),
        "    .text\n    .globl m\nm:\n    li t0, -5\n    mv a0, t0\n    ret\n"
    );
}

#[test]
fn smallest_integer_renders_exactly() {
    let f = IrFunction {
        name: vec!['m'],
        values: vec![IrValue::Integer(i32::MIN), IrValue::Return(Some(0))],
        blocks: vec![BasicBlock { name: "entry".chars().collect(), insts: vec![1] }],
    };
    let prog = Program { funcs: vec![f] };
    assert_eq!(
        text(&prog.render()),
        "fun @m(): i32 {\n%entry:\n    ret -2147483648\n}\n"
    );
}

#[test]
fn counters_thread_across_functions() {
    let make = |name: char| IrFunction {
        name: vec![name],
        values: vec![
            IrValue::Integer(1),
            IrValue::Integer(2),
            IrValue::Binary(BinOp::Add, 0, 1),
            IrValue::Return(Some(2)),
        ],
        blocks: vec![BasicBlock { name: "entry".chars().collect(), insts: vec![2, 3] }],
    };
    let prog = Program { funcs: vec![make('f'), make('g')] };
    // the value name counter never resets between functions
    assert_eq!(
        text(&prog.render()),
        "fun @f(): i32 {\n%entry:\n    %0 = add 1, 2\n    ret %0\n}\nfun @g(): i32 {\n%entry:\n    %1 = add 1, 2\n    ret %1\n}\n"
    );
    // neither does the register counter; the memo is per function
    assert_eq!(
        text(&prog.generate().unwrap()),
        "    .text\n    .globl f\n    .globl g\nf:\n    li t0, 1\n    li t1, 2\n    add t0, t0, t1\n    mv a0, t0\n    ret\ng:\n    li t2, 1\n    li t3, 2\n    add t2, t2, t3\n    mv a0, t2\n    ret\n"
    );
}

#[test]
fn logical_or_lowers_through_normalization() {
    // 0 || 5 in the textual representation
    let e = Exp {
        l_or_exp: LOrExp::Or(
            Box::new(LOrExp::LAndExp(LAndExp::EqExp(EqExp::RelExp(RelExp::AddExp(
                add_of(pnum(0)),
            ))))),
            LAndExp::EqExp(EqExp::RelExp(RelExp::AddExp(add_of(pnum(5))))),
        ),
    };
    let prog = ret_unit(e).generate().unwrap();
    assert_eq!(
        text(&prog.render()),
        "fun @main(): i32 {\n%entry:\n    %0 = ne 0, 0\n    %1 = ne 5, 0\n    %2 = or %0, %1\n    ret %2\n}\n"
    );
}
