//! The constant evaluator: operator semantics, the symbol table, and the
//! error conditions of compile-time evaluation.
use sysy_compiler::arith::{eval_div, eval_rem};
use sysy_compiler::ast::{
    AddExp, AddSign, Block, BlockItem, CmpSign, CompUnit, ConstDecl, ConstDef, ConstExp,
    ConstInitVal, EqExp, EqSign, Exp, FuncDef, FuncType, LAndExp, LOrExp, LVal, MulExp, MulSign,
    Number, PrimaryExp, RelExp, Stmt, UnaryExp, UnaryOp,
};
use sysy_compiler::errors::CompileError;
use sysy_compiler::symbol_table::{DataType, SymbolTable};

fn unary_of(p: PrimaryExp) -> UnaryExp {
    UnaryExp::PrimaryExp(p)
}

fn mul_of(p: PrimaryExp) -> MulExp {
    MulExp::UnaryExp(unary_of(p))
}

fn add_of(p: PrimaryExp) -> AddExp {
    AddExp::MulExp(mul_of(p))
}

fn rel_of(a: AddExp) -> RelExp {
    RelExp::AddExp(a)
}

fn eq_of(a: AddExp) -> EqExp {
    EqExp::RelExp(rel_of(a))
}

fn land_of(a: AddExp) -> LAndExp {
    LAndExp::EqExp(eq_of(a))
}

fn lor_of(a: AddExp) -> LOrExp {
    LOrExp::LAndExp(land_of(a))
}

fn exp_of(a: AddExp) -> Exp {
    Exp { l_or_exp: lor_of(a) }
}

fn pnum(n: i32) -> PrimaryExp {
    PrimaryExp::Number(Number { num: n })
}

fn num_exp(n: i32) -> Exp {
    exp_of(add_of(pnum(n)))
}

fn paren(e: Exp) -> PrimaryExp {
    PrimaryExp::Exp(Box::new(e))
}

fn ident(name: &str) -> PrimaryExp {
    PrimaryExp::LVal(LVal { ident: name.to_string() })
}

fn add_exp(a: i32, sign: AddSign, b: i32) -> Exp {
    exp_of(AddExp::AddExp(Box::new(add_of(pnum(a))), sign, mul_of(pnum(b))))
}

fn mul_exp(a: i32, sign: MulSign, b: i32) -> Exp {
    exp_of(AddExp::MulExp(MulExp::MulExp(
        Box::new(mul_of(pnum(a))),
        sign,
        unary_of(pnum(b)),
    )))
}

fn cmp_exp(a: i32, sign: CmpSign, b: i32) -> Exp {
    Exp {
        l_or_exp: LOrExp::LAndExp(LAndExp::EqExp(EqExp::RelExp(RelExp::Cmp(
            Box::new(rel_of(add_of(pnum(a)))),
            sign,
            add_of(pnum(b)),
        )))),
    }
}

fn eq_exp(a: i32, sign: EqSign, b: i32) -> Exp {
    Exp {
        l_or_exp: LOrExp::LAndExp(LAndExp::EqExp(EqExp::Eq(
            Box::new(eq_of(add_of(pnum(a)))),
            sign,
            rel_of(add_of(pnum(b))),
        ))),
    }
}

fn lor_exp(a: i32, b: i32) -> Exp {
    Exp {
        l_or_exp: LOrExp::Or(Box::new(lor_of(add_of(pnum(a)))), land_of(add_of(pnum(b)))),
    }
}

fn land_exp(a: i32, b: i32) -> Exp {
    Exp {
        l_or_exp: LOrExp::LAndExp(LAndExp::And(
            Box::new(land_of(add_of(pnum(a)))),
            eq_of(add_of(pnum(b))),
        )),
    }
}

fn unary_exp(op: UnaryOp, a: i32) -> Exp {
    exp_of(AddExp::MulExp(MulExp::UnaryExp(UnaryExp::Unary(
        op,
        Box::new(unary_of(pnum(a))),
    ))))
}

#[test]
fn literal_evaluates_to_itself() {
    let t = SymbolTable::new();
    assert_eq!(num_exp(42).get_val(&t), Ok(42));
    assert_eq!(num_exp(0).get_val(&t), Ok(0));
    assert_eq!(num_exp(-7).get_val(&t), Ok(-7));
}

#[test]
fn addition_and_subtraction() {
    let t = SymbolTable::new();
    assert_eq!(add_exp(3, AddSign::Add, 4).get_val(&t), Ok(7));
    assert_eq!(add_exp(3, AddSign::Sub, 4).get_val(&t), Ok(-1));
    // two's-complement wrap-around
    assert_eq!(add_exp(i32::MAX, AddSign::Add, 1).get_val(&t), Ok(i32::MIN));
    assert_eq!(add_exp(i32::MIN, AddSign::Sub, 1).get_val(&t), Ok(i32::MAX));
}

#[test]
fn multiplication_division_remainder() {
    let t = SymbolTable::new();
    assert_eq!(mul_exp(6, MulSign::Mul, 7).get_val(&t), Ok(42));
    assert_eq!(mul_exp(7, MulSign::Div, 2).get_val(&t), Ok(3));
    assert_eq!(mul_exp(7, MulSign::Mod, 2).get_val(&t), Ok(1));
    assert_eq!(mul_exp(i32::MAX, MulSign::Mul, 2).get_val(&t), Ok(-2));
}

#[test]
fn division_truncates_toward_zero() {
    let t = SymbolTable::new();
    assert_eq!(mul_exp(-7, MulSign::Div, 2).get_val(&t), Ok(-3));
    assert_eq!(mul_exp(7, MulSign::Div, -2).get_val(&t), Ok(-3));
    assert_eq!(mul_exp(-7, MulSign::Div, -2).get_val(&t), Ok(3));
}

#[test]
fn remainder_takes_sign_of_dividend() {
    let t = SymbolTable::new();
    assert_eq!(mul_exp(-7, MulSign::Mod, 2).get_val(&t), Ok(-1));
    assert_eq!(mul_exp(7, MulSign::Mod, -2).get_val(&t), Ok(1));
    assert_eq!(mul_exp(-7, MulSign::Mod, -2).get_val(&t), Ok(-1));
}

#[test]
fn division_by_zero_is_a_fault() {
    let t = SymbolTable::new();
    assert_eq!(
        mul_exp(1, MulSign::Div, 0).get_val(&t),
        Err(CompileError::ArithmeticFault)
    );
    assert_eq!(
        mul_exp(1, MulSign::Mod, 0).get_val(&t),
        Err(CompileError::ArithmeticFault)
    );
}

#[test]
fn division_overflow_wraps() {
    let t = SymbolTable::new();
    assert_eq!(mul_exp(i32::MIN, MulSign::Div, -1).get_val(&t), Ok(i32::MIN));
    assert_eq!(mul_exp(i32::MIN, MulSign::Mod, -1).get_val(&t), Ok(0));
}

#[test]
fn direct_division_helpers() {
    assert_eq!(eval_div(7, 2), 3);
    assert_eq!(eval_div(-7, 2), -3);
    assert_eq!(eval_div(7, -2), -3);
    assert_eq!(eval_div(-7, -2), 3);
    assert_eq!(eval_div(i32::MIN, -1), i32::MIN);
    assert_eq!(eval_div(i32::MIN, 1), i32::MIN);
    assert_eq!(eval_rem(7, 2), 1);
    assert_eq!(eval_rem(-7, 2), -1);
    assert_eq!(eval_rem(7, -2), 1);
    assert_eq!(eval_rem(-7, -2), -1);
    assert_eq!(eval_rem(i32::MIN, -1), 0);
    // the reconstruction law on a sample
    for &(a, b) in &[(7, 2), (-7, 2), (7, -2), (-7, -2), (100, 9), (-100, 9)] {
        assert_eq!(eval_div(a, b) * b + eval_rem(a, b), a);
    }
}

#[test]
fn comparisons_produce_zero_or_one() {
    let t = SymbolTable::new();
    assert_eq!(cmp_exp(1, CmpSign::Less, 2).get_val(&t), Ok(1));
    assert_eq!(cmp_exp(2, CmpSign::Less, 1).get_val(&t), Ok(0));
    assert_eq!(cmp_exp(2, CmpSign::More, 1).get_val(&t), Ok(1));
    assert_eq!(cmp_exp(2, CmpSign::Leq, 2).get_val(&t), Ok(1));
    assert_eq!(cmp_exp(3, CmpSign::Leq, 2).get_val(&t), Ok(0));
    assert_eq!(cmp_exp(2, CmpSign::Meq, 2).get_val(&t), Ok(1));
    assert_eq!(eq_exp(5, EqSign::Eq, 5).get_val(&t), Ok(1));
    assert_eq!(eq_exp(5, EqSign::Eq, 6).get_val(&t), Ok(0));
    assert_eq!(eq_exp(5, EqSign::Neq, 6).get_val(&t), Ok(1));
}

#[test]
fn logical_operators_normalize_operands() {
    let t = SymbolTable::new();
    assert_eq!(lor_exp(0, 0).get_val(&t), Ok(0));
    assert_eq!(lor_exp(0, 9).get_val(&t), Ok(1));
    assert_eq!(lor_exp(-3, 0).get_val(&t), Ok(1));
    assert_eq!(land_exp(0, 9).get_val(&t), Ok(0));
    assert_eq!(land_exp(2, 9).get_val(&t), Ok(1));
    assert_eq!(land_exp(2, 0).get_val(&t), Ok(0));
}

#[test]
fn unary_operators() {
    let t = SymbolTable::new();
    assert_eq!(unary_exp(UnaryOp::Negative, 5).get_val(&t), Ok(-5));
    assert_eq!(unary_exp(UnaryOp::Negative, i32::MIN).get_val(&t), Ok(i32::MIN));
    assert_eq!(unary_exp(UnaryOp::Bang, 0).get_val(&t), Ok(1));
    assert_eq!(unary_exp(UnaryOp::Bang, 3).get_val(&t), Ok(0));
}

#[test]
fn parenthesized_expression_passes_through() {
    let t = SymbolTable::new();
    let inner = add_exp(2, AddSign::Add, 3);
    let outer = exp_of(add_of(paren(inner)));
    assert_eq!(outer.get_val(&t), Ok(5));
}

#[test]
fn identifier_resolves_through_table() {
    let mut t = SymbolTable::new();
    t.insert("a".to_string(), DataType::ConstInt(3));
    assert_eq!(exp_of(add_of(ident("a"))).get_val(&t), Ok(3));
}

#[test]
fn undefined_identifier_names_the_symbol() {
    let t = SymbolTable::new();
    assert_eq!(
        exp_of(add_of(ident("x"))).get_val(&t),
        Err(CompileError::UndefinedSymbol("x".to_string()))
    );
}

#[test]
fn later_binding_wins() {
    let mut t = SymbolTable::new();
    t.insert("a".to_string(), DataType::ConstInt(1));
    t.insert("a".to_string(), DataType::ConstInt(2));
    assert_eq!(t.lookup(&"a".to_string()), Some(DataType::ConstInt(2)));
    assert_eq!(t.lookup(&"b".to_string()), None);
}

#[test]
fn const_definitions_bind_in_order() {
    let mut t = SymbolTable::new();
    let def_a = ConstDef {
        ident: "a".to_string(),
        val: ConstInitVal { exp: ConstExp { exp: num_exp(3) } },
    };
    let def_b = ConstDef {
        ident: "b".to_string(),
        val: ConstInitVal {
            exp: ConstExp {
                exp: exp_of(AddExp::AddExp(
                    Box::new(add_of(ident("a"))),
                    AddSign::Add,
                    mul_of(pnum(1)),
                )),
            },
        },
    };
    let decl = ConstDecl { typ: sysy_compiler::ast::BType::I32, defs: vec![def_a, def_b] };
    assert_eq!(decl.generate(&mut t), Ok(()));
    assert_eq!(t.lookup(&"a".to_string()), Some(DataType::ConstInt(3)));
    assert_eq!(t.lookup(&"b".to_string()), Some(DataType::ConstInt(4)));
}

#[test]
fn error_labels() {
    assert_eq!(
        CompileError::UndefinedSymbol("x".to_string()).label(),
        "undefined symbol"
    );
    assert_eq!(
        CompileError::ArithmeticFault.label(),
        "division by zero in constant expression"
    );
    assert_eq!(
        CompileError::UnsupportedConstruct.label(),
        "unsupported construct reached code generation"
    );
    assert_eq!(CompileError::RegisterPoolExhausted.label(), "register pool exhausted");
}

#[test]
fn comp_unit_smoke() {
    let unit = CompUnit {
        func_def: FuncDef {
            func_type: FuncType::Int,
            ident: "main".to_string(),
            block: Block {
                items: vec![BlockItem::Stmt(Stmt { exp: num_exp(0) })],
            },
        },
    };
    assert!(unit.generate().is_ok());
}
