use honk::ast::{
    Assign, AssignOp, AssignTy, BinOp, Expr, File, FnArg, FnCall, FnDef, Ident, Literal, Stmt,
    Type, UnOp, WriteTy,
};
use honk::interp::model::{Fatal, Op};
use honk::interp::{Abort, Bit, Env, Exception, Int, Sink, Value};

fn text(v: &Value<'_>) -> String {
    let mut s = String::new();
    v.write(&mut s);
    s
}

fn num(i: i128) -> Expr {
    Expr::Literal(Literal::Int(i))
}

fn bit(b: bool) -> Expr {
    Expr::Literal(Literal::Bit(b))
}

fn fnum(f: f64) -> Expr {
    Expr::Literal(Literal::Float(f.to_bits()))
}

fn chars(s: &str) -> Expr {
    Expr::Literal(Literal::CharArray(format!("\"{}\"", s)))
}

fn var(name: &str) -> Expr {
    Expr::Ident(Ident::new(name))
}

fn bin(l: Expr, op: BinOp, r: Expr) -> Expr {
    Expr::BinOp(Box::new(l), op, Box::new(r))
}

fn assign(ty: AssignTy, name: &str, op: AssignOp, val: Expr) -> Stmt {
    Stmt::Assign(Assign { ty, ident: Ident::new(name), assign_op: op, val })
}

fn scope() -> Env<'static> {
    let mut env = Env::new();
    env.push_scope();
    env
}

#[test]
fn literals_evaluate_to_their_values() {
    let es = vec![
        num(12),
        bit(true),
        Expr::Literal(Literal::Char('c')),
        chars("hello"),
        chars(""),
        fnum(1.5),
    ];
    let mut env = Env::new();
    env.push_scope();
    let v0 = es[0].interpret(&mut env, 10).unwrap();
    assert_eq!(text(&v0), "12");
    assert_eq!(v0.ty().pretty(), "int");
    assert_eq!(text(&es[1].interpret(&mut env, 10).unwrap()), "1b");
    assert_eq!(text(&es[2].interpret(&mut env, 10).unwrap()), "c");
    let s = es[3].interpret(&mut env, 10).unwrap();
    assert_eq!(text(&s), "hello");
    assert_eq!(s.ty().pretty(), "chararray");
    assert_eq!(text(&es[4].interpret(&mut env, 10).unwrap()), "");
    assert_eq!(es[5].interpret(&mut env, 10).unwrap().ty().pretty(), "float");
    assert_eq!(env.depth(), 1);
}

#[test]
fn a_character_array_literal_needs_its_quotes() {
    let e = Expr::Literal(Literal::CharArray(String::from("\"")));
    let mut env = Env::new();
    env.push_scope();
    assert!(matches!(e.interpret(&mut env, 10), Err(Abort::Fatal(Fatal::Literal))));
    let lit = Literal::CharArray(String::from("\"a\u{e9}\""));
    let v = lit.interpret(&mut env, 10).unwrap();
    assert_eq!(text(&v), "a\u{e9}");
}

#[test]
fn an_unbound_identifier_is_not_found() {
    let e = var("nope");
    let mut env = Env::new();
    env.push_scope();
    match e.interpret(&mut env, 10) {
        Err(Abort::Raised(Exception::NameNotFound(name))) => assert_eq!(name.as_str(), "nope"),
        other => panic!("expected NameNotFound, got {:?}", other),
    }
}

#[test]
fn a_bound_identifier_gives_its_value() {
    let e = var("x");
    let mut env = Env::new();
    env.push_scope();
    env.insert_var("x", Value::new(Int::new(41)));
    assert_eq!(text(&e.interpret(&mut env, 10).unwrap()), "41");
}

#[test]
fn integer_addition_is_native_addition() {
    for a in [-5i128, 0, 1, 7, 1 << 100] {
        let e = bin(num(a), BinOp::Add, num(a));
        let mut env = Env::new();
        env.push_scope();
        let v = e.interpret(&mut env, 10).unwrap();
        assert_eq!(v.downcast::<Int>().unwrap().val(), a + a);
    }
    let e = bin(num(2), BinOp::Add, num(40));
    let mut env = scope();
    assert_eq!(text(&e.interpret(&mut env, 10).unwrap()), "42");
}

#[test]
fn binary_operators_dispatch_on_the_left_operand() {
    let cases = vec![
        (bin(num(7), BinOp::Sub, num(9)), "-2"),
        (bin(num(7), BinOp::Mul, num(9)), "63"),
        (bin(num(-9), BinOp::Div, num(2)), "-4"),
        (bin(num(7), BinOp::Eq, num(7)), "1b"),
        (bin(num(7), BinOp::Neq, num(7)), "0b"),
        (bin(bit(true), BinOp::Eq, bit(false)), "0b"),
        (bin(chars("a"), BinOp::Eq, chars("a")), "1b"),
        (bin(bin(num(1), BinOp::Add, num(2)), BinOp::Mul, num(3)), "9"),
    ];
    for (e, want) in cases.iter() {
        let mut env = Env::new();
        env.push_scope();
        assert_eq!(text(&e.interpret(&mut env, 10).unwrap()), *want);
    }
}

#[test]
fn mixed_operands_are_not_promoted() {
    let e = bin(num(1), BinOp::Add, fnum(1.0));
    let mut env = Env::new();
    env.push_scope();
    match e.interpret(&mut env, 10) {
        Err(Abort::Raised(Exception::InvalidOp(op, left, right))) => {
            assert_eq!(op, Op::Add);
            assert_eq!(left.pretty(), "int");
            assert_eq!(right.unwrap().pretty(), "float");
        }
        other => panic!("expected InvalidOp, got {:?}", other),
    }
}

#[test]
fn every_binary_operator_refuses_a_right_operand_of_another_tag() {
    let ops = [
        (BinOp::Eq, Op::Eq),
        (BinOp::Neq, Op::Neq),
        (BinOp::Add, Op::Add),
        (BinOp::Sub, Op::Sub),
        (BinOp::Mul, Op::Mul),
        (BinOp::Div, Op::Div),
    ];
    for (bin_op, want) in ops.iter() {
        let pairs = vec![
            (num(1), "int", bit(true), "bit"),
            (num(1), "int", chars("1"), "chararray"),
            (num(1), "int", fnum(1.0), "float"),
            (fnum(1.0), "float", num(1), "int"),
            (bit(true), "bit", num(1), "int"),
            (chars("a"), "chararray", Expr::Literal(Literal::Char('a')), "char"),
            (Expr::Literal(Literal::Char('a')), "char", chars("a"), "chararray"),
            (Expr::Literal(Literal::Array(vec![])), "[null]", num(1), "int"),
        ];
        for (l, lt, r, rt) in pairs.into_iter() {
            let e = bin(l, *bin_op, r);
            let mut env = Env::new();
            env.push_scope();
            match e.interpret(&mut env, 10) {
                Err(Abort::Raised(Exception::InvalidOp(op, left, right))) => {
                    assert_eq!(op, *want);
                    assert_eq!(left.pretty(), lt);
                    assert_eq!(right.unwrap().pretty(), rt);
                }
                other => panic!("expected InvalidOp for {} {:?} {}, got {:?}", lt, bin_op, rt, other),
            }
        }
    }
}

#[test]
fn a_kind_without_the_operator_raises_invalid_op() {
    let e = bin(bit(true), BinOp::Add, num(1));
    let mut env = Env::new();
    env.push_scope();
    match e.interpret(&mut env, 10) {
        Err(Abort::Raised(Exception::InvalidOp(op, left, right))) => {
            assert_eq!(op, Op::Add);
            assert_eq!(left.pretty(), "bit");
            assert_eq!(right.unwrap().pretty(), "int");
        }
        other => panic!("expected InvalidOp, got {:?}", other),
    }
    let f = bin(fnum(1.0), BinOp::Add, num(1));
    match f.interpret(&mut env, 10) {
        Err(Abort::Raised(Exception::InvalidOp(op, left, right))) => {
            assert_eq!(op, Op::Add);
            assert_eq!(left.pretty(), "float");
            assert_eq!(right.unwrap().pretty(), "int");
        }
        other => panic!("expected InvalidOp, got {:?}", other),
    }
}

#[test]
fn unary_operators_take_one_operand() {
    let neg = Expr::UnOp(UnOp::Neg, Box::new(num(5)));
    let not = Expr::UnOp(UnOp::Not, Box::new(bit(true)));
    let bad = Expr::UnOp(UnOp::Neg, Box::new(bit(true)));
    let mut env = Env::new();
    env.push_scope();
    assert_eq!(text(&neg.interpret(&mut env, 10).unwrap()), "-5");
    assert_eq!(text(&not.interpret(&mut env, 10).unwrap()), "0b");
    match bad.interpret(&mut env, 10) {
        Err(Abort::Raised(Exception::InvalidOp(op, left, right))) => {
            assert_eq!(op, Op::Neg);
            assert_eq!(left.pretty(), "bit");
            assert!(right.is_none());
        }
        other => panic!("expected InvalidOp, got {:?}", other),
    }
}

#[test]
fn division_by_zero_is_fatal() {
    let e = bin(num(1), BinOp::Div, num(0));
    let mut env = Env::new();
    env.push_scope();
    assert!(matches!(e.interpret(&mut env, 10), Err(Abort::Fatal(Fatal::DivideByZero))));
}

#[test]
fn the_left_operand_fails_first() {
    let e = bin(var("a"), BinOp::Add, var("b"));
    let mut env = Env::new();
    env.push_scope();
    match e.interpret(&mut env, 10) {
        Err(Abort::Raised(Exception::NameNotFound(name))) => assert_eq!(name.as_str(), "a"),
        other => panic!("expected NameNotFound, got {:?}", other),
    }
}

#[test]
fn array_literals_need_one_element_type() {
    let good = Expr::Literal(Literal::Array(vec![num(1), bin(num(1), BinOp::Add, num(1)), num(3)]));
    let bad = Expr::Literal(Literal::Array(vec![num(1), bit(true), chars("x")]));
    let empty = Expr::Literal(Literal::Array(vec![]));
    let mut env = Env::new();
    env.push_scope();
    let v = good.interpret(&mut env, 10).unwrap();
    assert_eq!(text(&v), "[1, 2, 3]");
    assert_eq!(v.ty().pretty(), "[int]");
    match bad.interpret(&mut env, 10) {
        Err(Abort::Raised(Exception::InvalidType(expected, actual))) => {
            assert_eq!(expected.pretty(), "int");
            assert_eq!(actual.pretty(), "bit");
        }
        other => panic!("expected InvalidType, got {:?}", other),
    }
    assert_eq!(empty.interpret(&mut env, 10).unwrap().ty().pretty(), "[null]");
}

#[test]
fn unique_assignment_always_binds() {
    let a = assign(AssignTy::Unique, "x", AssignOp::Eq, num(1));
    let b = assign(AssignTy::Unique, "x", AssignOp::Eq, chars("s"));
    let mut env = Env::new();
    env.push_scope();
    assert_eq!(text(&a.interpret(&mut env, 10).unwrap()), "1");
    assert_eq!(text(&b.interpret(&mut env, 10).unwrap()), "s");
    assert_eq!(env.lookup_var("x").unwrap().ty().pretty(), "chararray");
}

#[test]
fn default_assignment_needs_a_binding_of_the_same_type() {
    let unbound = assign(AssignTy::Default, "x", AssignOp::Eq, num(5));
    let same = assign(AssignTy::Default, "y", AssignOp::Eq, num(5));
    let other = assign(AssignTy::Default, "y", AssignOp::Eq, bit(true));
    let mut env = Env::new();
    env.push_scope();
    env.insert_var("y", Value::new(Int::new(1)));
    match unbound.interpret(&mut env, 10) {
        Err(Abort::Raised(Exception::NameNotFound(name))) => assert_eq!(name.as_str(), "x"),
        other => panic!("expected NameNotFound, got {:?}", other),
    }
    assert_eq!(text(&same.interpret(&mut env, 10).unwrap()), "5");
    assert_eq!(text(env.lookup_var("y").unwrap()), "5");
    match other.interpret(&mut env, 10) {
        Err(Abort::Raised(Exception::InvalidType(expected, actual))) => {
            assert_eq!(expected.pretty(), "int");
            assert_eq!(actual.pretty(), "bit");
        }
        other => panic!("expected InvalidType, got {:?}", other),
    }
    assert_eq!(text(env.lookup_var("y").unwrap()), "5");
}

#[test]
fn default_assignment_sees_outer_bindings_and_binds_inside() {
    let s = assign(AssignTy::Default, "x", AssignOp::Eq, num(2));
    let mut env = Env::new();
    env.push_scope();
    env.insert_var("x", Value::new(Int::new(1)));
    env.push_scope();
    assert_eq!(text(&s.interpret(&mut env, 10).unwrap()), "2");
    assert_eq!(text(env.lookup_var("x").unwrap()), "2");
    env.pop_scope();
    assert_eq!(text(env.lookup_var("x").unwrap()), "1");
}

#[test]
fn carryover_assignment_binds_in_the_first_iteration_only() {
    let first = assign(AssignTy::CarryOver, "x", AssignOp::Eq, num(1));
    let later = assign(AssignTy::CarryOver, "x", AssignOp::Eq, num(2));
    let mut env = Env::new();
    env.push_scope();
    env.set_first_iter(true);
    assert_eq!(text(&first.interpret(&mut env, 10).unwrap()), "1");
    env.set_first_iter(false);
    let v = later.interpret(&mut env, 10).unwrap();
    assert_eq!(v.ty().pretty(), "null");
    assert_eq!(text(env.lookup_var("x").unwrap()), "1");
}

#[test]
fn compound_assignment_needs_a_binding() {
    let s = assign(AssignTy::Default, "x", AssignOp::PlusEq, num(1));
    let u = assign(AssignTy::Unique, "x", AssignOp::PlusEq, num(1));
    let mut env = Env::new();
    env.push_scope();
    for stmt in [&s, &u] {
        match stmt.interpret(&mut env, 10) {
            Err(Abort::Raised(Exception::NameNotFound(name))) => assert_eq!(name.as_str(), "x"),
            other => panic!("expected NameNotFound, got {:?}", other),
        }
    }
    assert!(env.lookup_var("x").is_none());
}

#[test]
fn compound_assignment_applies_the_operator_and_binds() {
    let stmts = vec![
        assign(AssignTy::Default, "x", AssignOp::PlusEq, num(5)),
        assign(AssignTy::Default, "x", AssignOp::SubEq, num(1)),
        assign(AssignTy::Default, "x", AssignOp::MulEq, num(3)),
        assign(AssignTy::Default, "x", AssignOp::DivEq, num(4)),
    ];
    let mut env = Env::new();
    env.push_scope();
    env.insert_var("x", Value::new(Int::new(10)));
    let want = ["15", "14", "42", "10"];
    for (s, w) in stmts.iter().zip(want.iter()) {
        assert_eq!(text(&s.interpret(&mut env, 10).unwrap()), *w);
        assert_eq!(text(env.lookup_var("x").unwrap()), *w);
    }
}

#[test]
fn compound_assignment_does_not_promote() {
    let s = assign(AssignTy::Default, "x", AssignOp::PlusEq, fnum(1.0));
    let t = assign(AssignTy::Default, "b", AssignOp::PlusEq, num(1));
    let u = assign(AssignTy::Unique, "x", AssignOp::DivEq, bit(true));
    let mut env = Env::new();
    env.push_scope();
    env.insert_var("x", Value::new(Int::new(10)));
    env.insert_var("b", Value::new(Bit::new(true)));
    match s.interpret(&mut env, 10) {
        Err(Abort::Raised(Exception::InvalidOp(op, left, right))) => {
            assert_eq!(op, Op::Add);
            assert_eq!(left.pretty(), "int");
            assert_eq!(right.unwrap().pretty(), "float");
        }
        other => panic!("expected InvalidOp, got {:?}", other),
    }
    assert_eq!(text(env.lookup_var("x").unwrap()), "10");
    assert_eq!(env.lookup_var("x").unwrap().ty().pretty(), "int");
    match t.interpret(&mut env, 10) {
        Err(Abort::Raised(Exception::InvalidOp(op, left, right))) => {
            assert_eq!(op, Op::Add);
            assert_eq!(left.pretty(), "bit");
            assert_eq!(right.unwrap().pretty(), "int");
        }
        other => panic!("expected InvalidOp, got {:?}", other),
    }
    match u.interpret(&mut env, 10) {
        Err(Abort::Raised(Exception::InvalidOp(op, left, right))) => {
            assert_eq!(op, Op::Div);
            assert_eq!(left.pretty(), "int");
            assert_eq!(right.unwrap().pretty(), "bit");
        }
        other => panic!("expected InvalidOp, got {:?}", other),
    }
    assert_eq!(text(env.lookup_var("x").unwrap()), "10");
}

#[test]
fn once_runs_in_the_first_iteration_only() {
    let s = Stmt::Once(vec![assign(AssignTy::Unique, "x", AssignOp::Eq, num(1))]);
    let mut env = Env::new();
    env.push_scope();
    assert_eq!(s.interpret(&mut env, 10).unwrap().ty().pretty(), "null");
    assert!(env.lookup_var("x").is_none());
    env.set_first_iter(true);
    assert_eq!(s.interpret(&mut env, 10).unwrap().ty().pretty(), "null");
    assert_eq!(text(env.lookup_var("x").unwrap()), "1");
}

#[test]
fn sync_sets_the_flag_and_runs_every_time() {
    let s = Stmt::Sync(vec![assign(AssignTy::Unique, "x", AssignOp::Eq, num(1))]);
    let mut env = Env::new();
    env.push_scope();
    assert!(!env.is_sync());
    assert_eq!(s.interpret(&mut env, 10).unwrap().ty().pretty(), "null");
    assert!(env.is_sync());
    assert_eq!(text(env.lookup_var("x").unwrap()), "1");
}

#[test]
fn a_block_stops_at_the_first_failure() {
    let s = Stmt::Sync(vec![
        assign(AssignTy::Unique, "x", AssignOp::Eq, num(1)),
        Stmt::Expr(var("missing")),
        assign(AssignTy::Unique, "x", AssignOp::Eq, num(2)),
    ]);
    let mut env = Env::new();
    env.push_scope();
    assert!(matches!(
        s.interpret(&mut env, 10),
        Err(Abort::Raised(Exception::NameNotFound(_)))
    ));
    assert_eq!(text(env.lookup_var("x").unwrap()), "1");
}

#[test]
fn a_type_declaration_binds_a_type_value() {
    let s = Stmt::TypeDef(Ident::new("Foo"), Type::named("int"));
    let mut env = Env::new();
    env.push_scope();
    assert_eq!(s.interpret(&mut env, 10).unwrap().ty().pretty(), "null");
    let v = env.lookup_var("Foo").unwrap();
    assert_eq!(v.ty().pretty(), "type");
    assert_eq!(v.downcast::<honk::interp::ty::Type>().unwrap().tag().pretty(), "int");
    let made = honk::interp::ty::Type::new_type(&mut env, "Bar");
    assert_eq!(made.tag().pretty(), "Bar");
    assert!(env.lookup_var("Bar").is_none());
}

#[test]
fn validate_compares_by_name() {
    let v = Value::new(Int::new(1));
    let mut env = Env::new();
    assert!(Type::named("int").validate(&mut env, &v).is_ok());
    match Type::named("Foo").validate(&mut env, &v) {
        Err(Exception::InvalidType(expected, actual)) => {
            assert_eq!(expected.pretty(), "Foo");
            assert_eq!(actual.pretty(), "int");
        }
        other => panic!("expected InvalidType, got {:?}", other),
    }
}

#[test]
fn write_expressions_record_their_text() {
    let es = vec![
        Expr::Write(WriteTy::Console, vec![chars("a"), num(1), bit(true)]),
        Expr::Write(WriteTy::Error, vec![chars("oops")]),
        Expr::Write(WriteTy::RawFile, vec![num(7)]),
        Expr::Write(WriteTy::Other(Box::new(num(2))), vec![chars("to fd")]),
        Expr::Write(WriteTy::Other(Box::new(chars("out.txt"))), vec![chars("to "), chars("file")]),
        Expr::Write(WriteTy::Console, vec![]),
    ];
    let file = File { stmts: es.into_iter().map(Stmt::Expr).collect() };
    let mut env = Env::new();
    file.interpret(&mut env, 10).unwrap();
    let out = env.take_outputs();
    assert_eq!(out.len(), 6);
    assert!(matches!(out[0].sink, Sink::Console));
    assert_eq!(out[0].text, "a11b");
    assert!(matches!(out[1].sink, Sink::Error));
    assert_eq!(out[1].text, "oops");
    assert!(matches!(out[2].sink, Sink::RawFile));
    assert_eq!(out[2].text, "7");
    assert!(matches!(out[3].sink, Sink::Descriptor(2)));
    assert_eq!(out[3].text, "to fd");
    match &out[4].sink {
        Sink::Named(path) => assert_eq!(path, "out.txt"),
        other => panic!("expected a named file, got {:?}", other),
    }
    assert_eq!(out[4].text, "to file");
    assert!(matches!(out[5].sink, Sink::Console));
    assert_eq!(out[5].text, "");
}

#[test]
fn a_write_expression_yields_null() {
    let file = File { stmts: vec![] };
    let e = Expr::Write(WriteTy::Console, vec![num(1)]);
    let mut env = Env::new();
    file.interpret(&mut env, 10).unwrap();
    assert_eq!(e.interpret(&mut env, 10).unwrap().ty().pretty(), "null");
}

#[test]
fn write_io_refuses_other_targets() {
    let file = File { stmts: vec![] };
    let e = Expr::Write(WriteTy::Other(Box::new(bit(true))), vec![chars("x")]);
    let mut env = Env::new();
    file.interpret(&mut env, 10).unwrap();
    match e.interpret(&mut env, 10) {
        Err(Abort::Raised(Exception::InvalidType(expected, actual))) => {
            assert_eq!(expected.pretty(), "chararray");
            assert_eq!(actual.pretty(), "bit");
        }
        other => panic!("expected InvalidType, got {:?}", other),
    }
    assert!(env.take_outputs().is_empty());
}

#[test]
fn the_write_target_is_evaluated_before_the_arguments() {
    let file = File { stmts: vec![] };
    let e = Expr::Write(WriteTy::Other(Box::new(var("target"))), vec![var("argument")]);
    let mut env = Env::new();
    file.interpret(&mut env, 10).unwrap();
    match e.interpret(&mut env, 10) {
        Err(Abort::Raised(Exception::NameNotFound(name))) => assert_eq!(name.as_str(), "target"),
        other => panic!("expected NameNotFound, got {:?}", other),
    }
}

#[test]
fn a_write_without_the_builtin_is_not_found() {
    let e = Expr::Write(WriteTy::Console, vec![num(1)]);
    let mut env = Env::new();
    env.push_scope();
    match e.interpret(&mut env, 10) {
        Err(Abort::Raised(Exception::NameNotFound(name))) => {
            assert_eq!(name.as_str(), "write_console")
        }
        other => panic!("expected NameNotFound, got {:?}", other),
    }
}

#[test]
fn a_program_starts_with_the_global_bindings() {
    let file = File { stmts: vec![assign(AssignTy::Unique, "x", AssignOp::Eq, num(1))] };
    let mut env = Env::new();
    file.interpret(&mut env, 10).unwrap();
    assert_eq!(env.depth(), 1);
    assert_eq!(env.lookup_var("int").unwrap().ty().pretty(), "type");
    for name in ["write_console", "write_error", "write_raw_file", "write_io"] {
        let v = env.lookup_var(name).unwrap();
        assert_eq!(v.ty().pretty(), "fn: null ()");
        assert_eq!(text(v), format!("<builtin {}>", name));
    }
    assert_eq!(text(env.lookup_var("x").unwrap()), "1");
}

#[test]
fn a_program_surfaces_its_first_exception() {
    let file = File {
        stmts: vec![
            Stmt::Expr(Expr::Write(WriteTy::Console, vec![chars("before")])),
            Stmt::Expr(var("missing")),
            Stmt::Expr(Expr::Write(WriteTy::Console, vec![chars("after")])),
        ],
    };
    let mut env = Env::new();
    match file.interpret(&mut env, 10) {
        Err(Abort::Raised(Exception::NameNotFound(name))) => assert_eq!(name.as_str(), "missing"),
        other => panic!("expected NameNotFound, got {:?}", other),
    }
    let out = env.take_outputs();
    assert_eq!(out.len(), 1);
    assert_eq!(out[0].text, "before");
}

#[test]
fn definition_getters_show_the_declaration() {
    let def = FnDef {
        id: 0,
        name: Ident::new("f"),
        ret: Type::named("int"),
        args: vec![
            FnArg { name: Ident::new("a"), ty: Type::named("int") },
            FnArg { name: Ident::new("b"), ty: Type::named("bit") },
        ],
        limit: Box::new(bit(true)),
        stmts: vec![],
    };
    assert_eq!(def.name(), "f");
    assert_eq!(def.ret_ty().pretty(), "int");
    let tys = def.arg_tys();
    assert_eq!(tys.len(), 2);
    assert_eq!(tys[0].pretty(), "int");
    assert_eq!(tys[1].pretty(), "bit");
    let call = FnCall { name: Ident::new("f"), args: vec![] };
    assert_eq!(call.name.as_str(), "f");
}
