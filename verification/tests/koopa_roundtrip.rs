//! The emitted textual representation reloaded through the graph library:
//! the reloaded graph is converted back into the library's value model and
//! must agree with direct evaluation and with direct generation.
use koopa::ir::entities::ValueKind;
use koopa::ir::{BinaryOp, FunctionData, Value};
use std::collections::HashMap;
use sysy_compiler::ast::{
    AddExp, AddSign, Block, BlockItem, CompUnit, EqExp, Exp, FuncDef, FuncType, LAndExp, LOrExp,
    MulExp, MulSign, Number, PrimaryExp, RelExp, Stmt, UnaryExp, UnaryOp,
};
use sysy_compiler::ir::{BasicBlock, BinOp, IrFunction, IrValue, Program};
use sysy_compiler::symbol_table::SymbolTable;

fn pnum(n: i32) -> PrimaryExp {
    PrimaryExp::Number(Number { num: n })
}

fn unary_of(p: PrimaryExp) -> UnaryExp {
    UnaryExp::PrimaryExp(p)
}

fn mul_of(p: PrimaryExp) -> MulExp {
    MulExp::UnaryExp(unary_of(p))
}

fn add_of(p: PrimaryExp) -> AddExp {
    AddExp::MulExp(mul_of(p))
}

fn exp_of(a: AddExp) -> Exp {
    Exp {
        l_or_exp: LOrExp::LAndExp(LAndExp::EqExp(EqExp::RelExp(RelExp::AddExp(a)))),
    }
}

fn ret_unit(e: Exp) -> CompUnit {
    CompUnit {
        func_def: FuncDef {
            func_type: FuncType::Int,
            ident: "main".to_string(),
            block: Block { items: vec![BlockItem::Stmt(Stmt { exp: e })] },
        },
    }
}

fn text(v: &Vec<char>) -> String {
    v.iter().collect()
}

fn conv_op(op: BinaryOp) -> Option<BinOp> {
    match op {
        BinaryOp::Add => Some(BinOp::Add),
        BinaryOp::Sub => Some(BinOp::Sub),
        BinaryOp::Mul => Some(BinOp::Mul),
        BinaryOp::Div => Some(BinOp::Div),
        BinaryOp::Mod => Some(BinOp::Mod),
        BinaryOp::Lt => Some(BinOp::Lt),
        BinaryOp::Gt => Some(BinOp::Gt),
        BinaryOp::Le => Some(BinOp::Le),
        BinaryOp::Ge => Some(BinOp::Ge),
        BinaryOp::Eq => Some(BinOp::Eq),
        BinaryOp::NotEq => Some(BinOp::NotEq),
        BinaryOp::And => Some(BinOp::And),
        BinaryOp::Or => Some(BinOp::Or),
        _ => None,
    }
}

fn add_value(
    fd: &FunctionData,
    v: Value,
    vals: &mut Vec<IrValue>,
    map: &mut HashMap<Value, usize>,
) -> usize {
    if let Some(&i) = map.get(&v) {
        return i;
    }
    let iv = match fd.dfg().value(v).kind() {
        ValueKind::Integer(x) => IrValue::Integer(x.value()),
        ValueKind::Binary(b) => {
            let op = conv_op(b.op());
            let l = add_value(fd, b.lhs(), vals, map);
            let r = add_value(fd, b.rhs(), vals, map);
            match op {
                Some(o) => IrValue::Binary(o, l, r),
                None => IrValue::Other,
            }
        },
        ValueKind::Return(rr) => match rr.value() {
            Some(x) => {
                let i = add_value(fd, x, vals, map);
                IrValue::Return(Some(i))
            },
            None => IrValue::Return(None),
        },
        _ => IrValue::Other,
    };
    vals.push(iv);
    let idx = vals.len() - 1;
    map.insert(v, idx);
    idx
}

fn reload(ir_text: &str) -> Program {
    let driver = koopa::front::Driver::from(ir_text.to_string());
    let kp = driver.generate_program().unwrap();
    let mut funcs = Vec::new();
    for &f in kp.func_layout() {
        let fd = kp.func(f);
        let mut vals: Vec<IrValue> = Vec::new();
        let mut map: HashMap<Value, usize> = HashMap::new();
        let mut blocks = Vec::new();
        for (_bb, node) in fd.layout().bbs() {
            let mut insts = Vec::new();
            for &inst in node.insts().keys() {
                insts.push(add_value(fd, inst, &mut vals, &mut map));
            }
            blocks.push(BasicBlock { name: "entry".chars().collect(), insts });
        }
        funcs.push(IrFunction {
            name: fd.name()[1..].chars().collect(),
            values: vals,
            blocks,
        });
    }
    Program { funcs }
}

/// The operand a reloaded single-return function returns, if any.
fn returned_operand(f: &IrFunction) -> Option<usize> {
    for b in &f.blocks {
        for &i in &b.insts {
            if let IrValue::Return(Some(v)) = f.values[i] {
                return Some(v);
            }
        }
    }
    None
}

#[test]
fn reloaded_fold_agrees_with_evaluation() {
    let t = SymbolTable::new();
    let samples: Vec<Exp> = vec![
        exp_of(add_of(pnum(7))),
        exp_of(AddExp::AddExp(Box::new(add_of(pnum(3))), AddSign::Add, mul_of(pnum(4)))),
        exp_of(AddExp::MulExp(MulExp::MulExp(
            Box::new(mul_of(pnum(-9))),
            MulSign::Div,
            unary_of(pnum(2)),
        ))),
        exp_of(AddExp::MulExp(MulExp::UnaryExp(UnaryExp::Unary(
            UnaryOp::Negative,
            Box::new(unary_of(pnum(5))),
        )))),
        Exp {
            l_or_exp: LOrExp::Or(
                Box::new(LOrExp::LAndExp(LAndExp::EqExp(EqExp::RelExp(RelExp::AddExp(
                    add_of(pnum(0)),
                ))))),
                LAndExp::EqExp(EqExp::RelExp(RelExp::AddExp(add_of(pnum(5))))),
            ),
        },
    ];
    for e in samples {
        let expect = e.get_val(&t).unwrap();
        let prog = ret_unit(e).generate().unwrap();
        let ir_text = text(&prog.render());
        let reloaded = reload(&ir_text);
        let f = &reloaded.funcs[0];
        let ret = returned_operand(f).unwrap();
        assert_eq!(f.fold(ret), Ok(expect), "for {}", ir_text);
    }
}

#[test]
fn reloaded_graph_generates_same_assembly_for_negate() {
    let e = exp_of(AddExp::MulExp(MulExp::UnaryExp(UnaryExp::Unary(
        UnaryOp::Negative,
        Box::new(unary_of(pnum(5))),
    ))));
    let prog = ret_unit(e).generate().unwrap();
    let direct = text(&prog.generate().unwrap());
    let reloaded = reload(&text(&prog.render()));
    let through_loader = text(&reloaded.generate().unwrap());
    assert_eq!(direct, through_loader);
    assert_eq!(
        through_loader,
        "    .text\n    .globl main\nmain:\n    li t0, 5\n    sub t0, x0, t0\n    mv a0, t0\n    ret\n"
    );
}

#[test]
fn reloaded_literal_return_generates_expected_assembly() {
    let prog = ret_unit(exp_of(add_of(pnum(7)))).generate().unwrap();
    let reloaded = reload(&text(&prog.render()));
    assert_eq!(
        text(&reloaded.generate().unwrap()),
        "    .text\n    .globl main\nmain:\n    li t0, 7\n    mv a0, t0\n    ret\n"
    );
}
