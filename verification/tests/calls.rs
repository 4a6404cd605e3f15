use honk::ast::{
    Assign, AssignOp, AssignTy, BinOp, Expr, File, FnArg, FnCall, FnDef, Ident, Literal, Stmt,
    Type, WriteTy,
};
use honk::interp::model::Fatal;
use honk::ast::interp::{standard_library, Pass};
use honk::interp::{Abort, Bit, Env, Exception, Fn, Int, Value};

fn text(v: &Value<'_>) -> String {
    let mut s = String::new();
    v.write(&mut s);
    s
}

fn num(i: i128) -> Expr {
    Expr::Literal(Literal::Int(i))
}

fn bit(b: bool) -> Expr {
    Expr::Literal(Literal::Bit(b))
}

fn chars(s: &str) -> Expr {
    Expr::Literal(Literal::CharArray(format!("\"{}\"", s)))
}

fn var(name: &str) -> Expr {
    Expr::Ident(Ident::new(name))
}

fn equals(l: Expr, r: Expr) -> Expr {
    Expr::BinOp(Box::new(l), BinOp::Eq, Box::new(r))
}

fn assign(ty: AssignTy, name: &str, op: AssignOp, val: Expr) -> Stmt {
    Stmt::Assign(Assign { ty, ident: Ident::new(name), assign_op: op, val })
}

fn call(name: &str, args: Vec<Expr>) -> Expr {
    Expr::FnCall(FnCall { name: Ident::new(name), args })
}

static NEXT_ID: std::sync::atomic::AtomicU64 = std::sync::atomic::AtomicU64::new(0);

fn def(name: &str, ret: &str, args: Vec<(&str, &str)>, limit: Expr, stmts: Vec<Stmt>) -> FnDef {
    FnDef {
        id: NEXT_ID.fetch_add(1, std::sync::atomic::Ordering::Relaxed),
        name: Ident::new(name),
        ret: Type::named(ret),
        args: args
            .into_iter()
            .map(|(n, t)| FnArg { name: Ident::new(n), ty: Type::named(t) })
            .collect(),
        limit: Box::new(limit),
        stmts,
    }
}

/// A function that counts to `n` in a carried-over variable.
fn counter(name: &str, n: i128) -> FnDef {
    def(
        name,
        "int",
        vec![],
        equals(var("k"), num(n)),
        vec![
            assign(AssignTy::CarryOver, "k", AssignOp::Eq, num(0)),
            assign(AssignTy::Default, "k", AssignOp::PlusEq, num(1)),
        ],
    )
}

fn console(args: Vec<Expr>) -> Stmt {
    Stmt::Expr(Expr::Write(WriteTy::Console, args))
}

#[test]
fn the_body_runs_again_until_the_limit_holds() {
    let f = counter("count", 3);
    let mut env = Env::new();
    env.push_scope();
    let v = f.invoke(&mut env, vec![], 100).unwrap();
    assert_eq!(text(&v), "3");
    assert_eq!(env.depth(), 1);
    assert!(env.lookup_var("k").is_none());
}

#[test]
fn carryover_keeps_its_value_over_later_iterations() {
    let f = def(
        "f",
        "int",
        vec![],
        equals(var("n"), num(4)),
        vec![
            assign(AssignTy::CarryOver, "n", AssignOp::Eq, num(0)),
            assign(AssignTy::CarryOver, "seen", AssignOp::Eq, num(100)),
            assign(AssignTy::Default, "seen", AssignOp::PlusEq, num(1)),
            console(vec![var("seen")]),
            assign(AssignTy::Default, "n", AssignOp::PlusEq, num(1)),
        ],
    );
    let file = File { stmts: vec![] };
    let mut env = Env::new();
    file.interpret(&mut env, 100).unwrap();
    let v = f.invoke(&mut env, vec![], 100).unwrap();
    assert_eq!(text(&v), "4");
    let out: Vec<String> = env.take_outputs().into_iter().map(|o| o.text).collect();
    assert_eq!(out, vec!["101", "102", "103", "104"]);
}

#[test]
fn once_blocks_run_in_the_first_pass_only() {
    let f = def(
        "f",
        "int",
        vec![],
        equals(var("n"), num(3)),
        vec![
            Stmt::Once(vec![
                assign(AssignTy::Unique, "n", AssignOp::Eq, num(0)),
                console(vec![chars("once")]),
            ]),
            console(vec![chars("pass")]),
            assign(AssignTy::Default, "n", AssignOp::PlusEq, num(1)),
        ],
    );
    let file = File { stmts: vec![] };
    let mut env = Env::new();
    file.interpret(&mut env, 100).unwrap();
    assert_eq!(text(&f.invoke(&mut env, vec![], 100).unwrap()), "3");
    let out: Vec<String> = env.take_outputs().into_iter().map(|o| o.text).collect();
    assert_eq!(out, vec!["once", "pass", "pass", "pass"]);
}

#[test]
fn an_empty_null_function_returns_at_once() {
    let f = def("f", "null", vec![], bit(true), vec![]);
    let mut env = Env::new();
    env.push_scope();
    env.set_sync(true);
    let v = f.invoke(&mut env, vec![], 1).unwrap();
    assert_eq!(v.ty().pretty(), "null");
    assert_eq!(env.depth(), 1);
    assert!(env.is_sync());
    assert!(!env.is_first_iter());
    assert!(env.take_outputs().is_empty());
}

#[test]
fn an_empty_function_cannot_return_a_value() {
    let f = def("f", "int", vec![], bit(true), vec![]);
    let mut env = Env::new();
    env.push_scope();
    match f.invoke(&mut env, vec![], 5) {
        Err(Abort::Raised(Exception::InvalidType(expected, actual))) => {
            assert_eq!(expected.pretty(), "int");
            assert_eq!(actual.pretty(), "null");
        }
        other => panic!("expected InvalidType, got {:?}", other),
    }
    assert_eq!(env.depth(), 1);
}

#[test]
fn the_return_type_is_checked_when_the_limit_holds() {
    let f = def(
        "f",
        "int",
        vec![],
        bit(true),
        vec![assign(AssignTy::Unique, "x", AssignOp::Eq, chars("text"))],
    );
    let mut env = Env::new();
    env.push_scope();
    match f.invoke(&mut env, vec![], 5) {
        Err(Abort::Raised(Exception::InvalidType(expected, actual))) => {
            assert_eq!(expected.pretty(), "int");
            assert_eq!(actual.pretty(), "chararray");
        }
        other => panic!("expected InvalidType, got {:?}", other),
    }
    assert_eq!(env.depth(), 1);
}

#[test]
fn the_call_stops_in_the_middle_of_a_pass() {
    let f = def(
        "f",
        "int",
        vec![],
        equals(var("x"), num(1)),
        vec![
            assign(AssignTy::Unique, "x", AssignOp::Eq, num(1)),
            assign(AssignTy::Unique, "x", AssignOp::Eq, num(2)),
        ],
    );
    let mut env = Env::new();
    env.push_scope();
    assert_eq!(text(&f.invoke(&mut env, vec![], 5).unwrap()), "1");
}

#[test]
fn a_failing_limit_counts_as_false() {
    let f = def(
        "f",
        "int",
        vec![],
        equals(var("y"), num(2)),
        vec![
            Stmt::Expr(num(7)),
            assign(AssignTy::Unique, "y", AssignOp::Eq, num(2)),
        ],
    );
    let mut env = Env::new();
    env.push_scope();
    assert_eq!(text(&f.invoke(&mut env, vec![], 5).unwrap()), "2");
}

#[test]
fn only_the_bit_one_ends_a_call() {
    for limit in [num(1), bit(false), chars("1b")] {
        let f = def("f", "int", vec![], limit, vec![Stmt::Expr(num(7))]);
        let mut env = Env::new();
        env.push_scope();
        assert!(matches!(f.invoke(&mut env, vec![], 20), Err(Abort::OutOfSteps)));
        assert_eq!(env.depth(), 1);
    }
}

#[test]
fn the_budget_bounds_passes_and_depth() {
    let f = counter("count", 10);
    let mut env = Env::new();
    env.push_scope();
    assert!(matches!(f.invoke(&mut env, vec![], 9), Err(Abort::OutOfSteps)));
    assert_eq!(text(&f.invoke(&mut env, vec![], 10).unwrap()), "10");
    assert_eq!(text(&f.invoke(&mut env, vec![], 1000).unwrap()), "10");
    assert_eq!(text(&f.invoke(&mut env, vec![], u64::MAX).unwrap()), "10");
    assert!(matches!(f.invoke(&mut env, vec![], 0), Err(Abort::OutOfSteps)));
    let value = Fn::User(&f);
    assert!(matches!(value.invoke(&mut env, vec![], 0), Err(Abort::OutOfSteps)));
    assert_eq!(text(&value.invoke(&mut env, vec![], 11).unwrap()), "10");
}

#[test]
fn endless_recursion_runs_out_of_steps() {
    let file = File {
        stmts: vec![
            Stmt::FnDef(def("f", "int", vec![], bit(true), vec![Stmt::Expr(call("f", vec![]))])),
            Stmt::Expr(call("f", vec![])),
        ],
    };
    let mut env = Env::new();
    assert!(matches!(file.interpret(&mut env, 50), Err(Abort::OutOfSteps)));
    assert_eq!(env.depth(), 1);
}

#[test]
fn parameters_are_bound_in_the_call_s_own_scope() {
    let f = def(
        "f",
        "int",
        vec![("a", "int"), ("b", "int")],
        bit(true),
        vec![Stmt::Expr(Expr::BinOp(Box::new(var("a")), BinOp::Sub, Box::new(var("b"))))],
    );
    let mut env = Env::new();
    env.push_scope();
    env.insert_var("a", Value::new(Int::new(1000)));
    let v = f.invoke(&mut env, vec![Value::new(Int::new(10)), Value::new(Int::new(3))], 5).unwrap();
    assert_eq!(text(&v), "7");
    assert_eq!(text(env.lookup_var("a").unwrap()), "1000");
    assert!(env.lookup_var("b").is_none());
}

#[test]
fn a_wrong_number_of_arguments_is_fatal() {
    let f = def("f", "null", vec![("a", "int")], bit(true), vec![]);
    let callable = Fn::User(&f);
    let mut env = Env::new();
    env.push_scope();
    assert!(matches!(callable.invoke(&mut env, vec![], 5), Err(Abort::Fatal(Fatal::Arity))));
    assert!(matches!(
        callable.invoke(&mut env, vec![Value::new(Int::new(1)), Value::new(Int::new(2))], 5),
        Err(Abort::Fatal(Fatal::Arity))
    ));
    assert!(matches!(callable.invoke(&mut env, vec![], 0), Err(Abort::Fatal(Fatal::Arity))));
    assert_eq!(env.depth(), 1);
    assert!(callable.invoke(&mut env, vec![Value::new(Int::new(1))], 5).is_ok());
    let file = File {
        stmts: vec![
            Stmt::FnDef(def("g", "null", vec![("a", "int")], bit(true), vec![])),
            Stmt::Expr(call("g", vec![num(1), num(2)])),
        ],
    };
    let mut env = Env::new();
    assert!(matches!(file.interpret(&mut env, 5), Err(Abort::Fatal(Fatal::Arity))));
    assert_eq!(env.depth(), 1);
}

#[test]
fn an_argument_of_the_wrong_type_is_refused() {
    let f = def("f", "null", vec![("a", "int"), ("b", "bit")], bit(true), vec![]);
    let mut env = Env::new();
    env.push_scope();
    match f.invoke(&mut env, vec![Value::new(Int::new(1)), Value::new(Int::new(2))], 5) {
        Err(Abort::Raised(Exception::InvalidType(expected, actual))) => {
            assert_eq!(expected.pretty(), "bit");
            assert_eq!(actual.pretty(), "int");
        }
        other => panic!("expected InvalidType, got {:?}", other),
    }
    assert_eq!(env.depth(), 1);
    assert!(f.invoke(&mut env, vec![Value::new(Int::new(1)), Value::new(Bit::new(true))], 5).is_ok());
}

#[test]
fn a_declared_type_name_is_a_tag_of_its_own() {
    let file = File {
        stmts: vec![
            Stmt::TypeDef(Ident::new("Foo"), Type::named("int")),
            Stmt::FnDef(def("f", "null", vec![("a", "Foo")], bit(true), vec![])),
            Stmt::Expr(call("f", vec![num(1)])),
        ],
    };
    let mut env = Env::new();
    match file.interpret(&mut env, 10) {
        Err(Abort::Raised(Exception::InvalidType(expected, actual))) => {
            assert_eq!(expected.pretty(), "Foo");
            assert_eq!(actual.pretty(), "int");
        }
        other => panic!("expected InvalidType, got {:?}", other),
    }
}

#[test]
fn a_call_resolves_its_callee_first() {
    let missing = call("nothing", vec![var("also_nothing")]);
    let not_fn = call("x", vec![]);
    let mut env = Env::new();
    env.push_scope();
    env.insert_var("x", Value::new(Int::new(1)));
    match missing.interpret(&mut env, 10) {
        Err(Abort::Raised(Exception::NameNotFound(name))) => assert_eq!(name.as_str(), "nothing"),
        other => panic!("expected NameNotFound, got {:?}", other),
    }
    match not_fn.interpret(&mut env, 10) {
        Err(Abort::Raised(Exception::InvalidType(expected, actual))) => {
            assert_eq!(expected.pretty(), "fn: any ()");
            assert_eq!(actual.pretty(), "int");
        }
        other => panic!("expected InvalidType, got {:?}", other),
    }
}

#[test]
fn arguments_are_evaluated_from_left_to_right() {
    let file = File {
        stmts: vec![
            Stmt::FnDef(def(
                "say",
                "int",
                vec![("n", "int")],
                equals(var("k"), var("n")),
                vec![console(vec![var("n")]), assign(AssignTy::Unique, "k", AssignOp::Eq, var("n"))],
            )),
            Stmt::FnDef(def(
                "sum",
                "int",
                vec![("a", "int"), ("b", "int")],
                bit(true),
                vec![Stmt::Expr(Expr::BinOp(Box::new(var("a")), BinOp::Add, Box::new(var("b"))))],
            )),
            assign(
                AssignTy::Unique,
                "r",
                AssignOp::Eq,
                call("sum", vec![call("say", vec![num(1)]), call("say", vec![num(2)])]),
            ),
        ],
    };
    let mut env = Env::new();
    file.interpret(&mut env, 10).unwrap();
    assert_eq!(text(env.lookup_var("r").unwrap()), "3");
    let out: Vec<String> = env.take_outputs().into_iter().map(|o| o.text).collect();
    assert_eq!(out, vec!["1", "2"]);
}

#[test]
fn a_call_gives_the_caller_its_flags_back() {
    let file = File {
        stmts: vec![
            Stmt::FnDef(counter("inner", 2)),
            Stmt::FnDef(def(
                "outer",
                "null",
                vec![],
                equals(var("n"), num(5)),
                vec![
                    Stmt::Expr(call("inner", vec![])),
                    Stmt::Once(vec![assign(AssignTy::Unique, "n", AssignOp::Eq, num(5))]),
                ],
            )),
            assign(AssignTy::Unique, "r", AssignOp::Eq, call("outer", vec![])),
        ],
    };
    let mut env = Env::new();
    file.interpret(&mut env, 10).unwrap();
    assert_eq!(env.lookup_var("r").unwrap().ty().pretty(), "null");
    assert!(!env.is_first_iter());
}

#[test]
fn a_function_literal_is_a_callable_value() {
    let file = File {
        stmts: vec![
            assign(
                AssignTy::Unique,
                "f",
                AssignOp::Eq,
                Expr::Literal(Literal::Fn(def(
                    "<closure>",
                    "int",
                    vec![("a", "int")],
                    bit(true),
                    vec![Stmt::Expr(var("a"))],
                ))),
            ),
            assign(AssignTy::Unique, "r", AssignOp::Eq, call("f", vec![num(9)])),
            console(vec![var("f")]),
        ],
    };
    let mut env = Env::new();
    file.interpret(&mut env, 10).unwrap();
    assert_eq!(text(env.lookup_var("r").unwrap()), "9");
    assert_eq!(env.lookup_var("f").unwrap().ty().pretty(), "fn: int (int)");
    assert_eq!(env.take_outputs()[0].text, "<fn <closure>>");
}

#[test]
fn a_definition_statement_binds_its_name() {
    let d = def("g", "null", vec![], bit(true), vec![]);
    let mut env = Env::new();
    env.push_scope();
    d.define(&mut env);
    let v = env.lookup_var("g").unwrap();
    assert_eq!(text(v), "<fn g>");
    assert_eq!(v.ty().pretty(), "fn: null ()");
    assert_eq!(v.downcast::<Fn<'_>>().unwrap().name(), "g");
}

#[test]
fn a_failing_call_leaves_no_scope_behind() {
    let file = File {
        stmts: vec![
            Stmt::FnDef(def("f", "int", vec![], bit(true), vec![Stmt::Expr(var("missing"))])),
            Stmt::Expr(call("f", vec![])),
        ],
    };
    let mut env = Env::new();
    assert!(matches!(
        file.interpret(&mut env, 10),
        Err(Abort::Raised(Exception::NameNotFound(_)))
    ));
    assert_eq!(env.depth(), 1);
}

#[test]
fn callables_are_equal_when_they_are_one_definition() {
    let same = |l: &str, r: &str, op: BinOp| Expr::BinOp(Box::new(var(l)), op, Box::new(var(r)));
    let file = File {
        stmts: vec![
            Stmt::FnDef(def("f", "null", vec![], bit(true), vec![])),
            Stmt::FnDef(def("g", "null", vec![], bit(true), vec![])),
            Stmt::FnDef(def("h", "int", vec![], bit(true), vec![])),
            assign(AssignTy::Unique, "f2", AssignOp::Eq, var("f")),
            assign(AssignTy::Unique, "a", AssignOp::Eq, same("f", "f2", BinOp::Eq)),
            assign(AssignTy::Unique, "b", AssignOp::Eq, same("f", "g", BinOp::Eq)),
            assign(AssignTy::Unique, "c", AssignOp::Eq, same("f", "g", BinOp::Neq)),
            assign(AssignTy::Unique, "d", AssignOp::Eq, same("write_console", "write_console", BinOp::Eq)),
            assign(AssignTy::Unique, "e", AssignOp::Eq, same("write_console", "write_error", BinOp::Eq)),
            assign(AssignTy::Unique, "k", AssignOp::Eq, same("write_console", "f", BinOp::Eq)),
        ],
    };
    let mut env = Env::new();
    file.interpret(&mut env, 10).unwrap();
    assert_eq!(text(env.lookup_var("a").unwrap()), "1b");
    assert_eq!(text(env.lookup_var("b").unwrap()), "0b");
    assert_eq!(text(env.lookup_var("c").unwrap()), "1b");
    assert_eq!(text(env.lookup_var("d").unwrap()), "1b");
    assert_eq!(text(env.lookup_var("e").unwrap()), "0b");
    assert_eq!(text(env.lookup_var("k").unwrap()), "0b");
    let other_type = same("f", "h", BinOp::Eq);
    match other_type.interpret(&mut env, 10) {
        Err(Abort::Raised(Exception::InvalidOp(_, left, right))) => {
            assert_eq!(left.pretty(), "fn: null ()");
            assert_eq!(right.unwrap().pretty(), "fn: int ()");
        }
        other => panic!("expected InvalidOp, got {:?}", other),
    }
    let not_callable = Expr::BinOp(Box::new(var("f")), BinOp::Neq, Box::new(num(1)));
    match not_callable.interpret(&mut env, 10) {
        Err(Abort::Raised(Exception::InvalidOp(_, left, right))) => {
            assert_eq!(left.pretty(), "fn: null ()");
            assert_eq!(right.unwrap().pretty(), "int");
        }
        other => panic!("expected InvalidOp, got {:?}", other),
    }
    let no_sum = same("f", "g", BinOp::Add);
    assert!(matches!(
        no_sum.interpret(&mut env, 10),
        Err(Abort::Raised(Exception::InvalidOp(_, _, _)))
    ));
}

#[test]
fn a_call_goes_from_pass_to_pass_until_it_ends() {
    let f = counter("count", 3);
    let mut env = Env::new();
    env.push_scope();
    env.set_first_iter(true);
    assert!(matches!(f.pass(&mut env, 10), Pass::Running));
    assert!(!env.is_first_iter());
    assert_eq!(text(env.lookup_var("k").unwrap()), "1");
    assert!(matches!(f.pass(&mut env, 10), Pass::Running));
    assert_eq!(text(env.lookup_var("k").unwrap()), "2");
    match f.pass(&mut env, 10) {
        Pass::Terminated(v) => assert_eq!(text(&v), "3"),
        other => panic!("expected the call to end, got {:?}", other),
    }
    assert_eq!(env.depth(), 1);
}

#[test]
fn a_pass_fails_with_what_stops_it() {
    let wrong = def(
        "f",
        "int",
        vec![],
        bit(true),
        vec![assign(AssignTy::Unique, "x", AssignOp::Eq, bit(true))],
    );
    let broken = def("g", "int", vec![], bit(true), vec![Stmt::Expr(var("missing"))]);
    let empty = def("h", "null", vec![], bit(false), vec![]);
    let mut env = Env::new();
    env.push_scope();
    env.set_first_iter(true);
    match wrong.pass(&mut env, 10) {
        Pass::Failed(Abort::Raised(Exception::InvalidType(expected, actual))) => {
            assert_eq!(expected.pretty(), "int");
            assert_eq!(actual.pretty(), "bit");
        }
        other => panic!("expected InvalidType, got {:?}", other),
    }
    assert!(env.is_first_iter());
    assert!(matches!(
        broken.pass(&mut env, 10),
        Pass::Failed(Abort::Raised(Exception::NameNotFound(_)))
    ));
    assert!(matches!(empty.pass(&mut env, 10), Pass::Running));
    assert!(!env.is_first_iter());
}

#[test]
fn the_standard_library_is_one_scope_of_five_names() {
    let mut env = Env::new();
    standard_library(&mut env);
    assert_eq!(env.depth(), 1);
    for name in ["int", "write_console", "write_error", "write_raw_file", "write_io"] {
        assert!(env.lookup_var(name).is_some(), "{} is not bound", name);
    }
    assert!(env.lookup_var("write_honk").is_none());
    assert!(env.take_outputs().is_empty());
}
