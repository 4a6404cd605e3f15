//! The step budget is an observer, not a rule of the language: whatever an
//! evaluation does within one budget, it does within every larger one.

use vstd::prelude::*;
use crate::ast::semantics::{
    eval_block, eval_expr, eval_exprs, eval_stmt, invoke_user, invoke_value, limit_holds,
    run_file, run_loop, run_pass, with_globals, write_name, PassView,
};
use crate::ast::{Expr, FnDef, Literal, Stmt, WriteTy};
use crate::interp::model::{AbortView, EnvView, FnView, ValueView};

verus! {

/// Whether an evaluation stopped because its budget was spent.
pub open spec fn spent<T>(r: Result<T, AbortView>) -> bool {
    r is Err && r->Err_0 is OutOfSteps
}

/// An expression that ends within the budget `f1` ends in the same way,
/// with the same environment, within every budget `f2` from `f1` up.
pub proof fn law_budget_expr(e: Expr, env: EnvView, f1: nat, f2: nat)
    requires
        f1 <= f2,
        !spent(eval_expr(e, env, f1).result),
    ensures
        eval_expr(e, env, f2) == eval_expr(e, env, f1),
    decreases f1, 1int, e,
{
    match e {
        Expr::FnCall(call) => {
            match env.lookup(call.name@) {
                Some(ValueView::Fn(f)) => {
                    law_budget_exprs(call.args@, 0, env, f1, f2);
                    let a = eval_exprs(call.args@, 0, env, f1);
                    match a.result {
                        Ok(args) => {
                            law_budget_call(f, a.env, args, f1, f2);
                        },
                        Err(_) => {},
                    }
                },
                _ => {},
            }
        },
        Expr::Write(ty, args) => {
            match env.lookup(write_name(ty)) {
                Some(ValueView::Fn(f)) => {
                    match ty {
                        WriteTy::Other(target) => {
                            law_budget_expr(*target, env, f1, f2);
                            let o = eval_expr(*target, env, f1);
                            match o.result {
                                Ok(v) => {
                                    law_budget_exprs(args@, 0, o.env, f1, f2);
                                    let a = eval_exprs(args@, 0, o.env, f1);
                                    match a.result {
                                        Ok(rest) => {
                                            law_budget_call(f, a.env, seq![v] + rest, f1, f2);
                                        },
                                        Err(_) => {},
                                    }
                                },
                                Err(_) => {},
                            }
                        },
                        _ => {
                            law_budget_exprs(args@, 0, env, f1, f2);
                            let a = eval_exprs(args@, 0, env, f1);
                            match a.result {
                                Ok(rest) => {
                                    law_budget_call(f, a.env, Seq::empty() + rest, f1, f2);
                                },
                                Err(_) => {},
                            }
                        },
                    }
                },
                _ => {},
            }
        },
        Expr::Literal(lit) => {
            match lit {
                Literal::Array(elems) => {
                    law_budget_exprs(elems@, 0, env, f1, f2);
                },
                _ => {},
            }
        },
        Expr::Ident(_) => {},
        Expr::UnOp(_, operand) => {
            law_budget_expr(*operand, env, f1, f2);
        },
        Expr::BinOp(left, _, right) => {
            law_budget_expr(*left, env, f1, f2);
            let l = eval_expr(*left, env, f1);
            if l.result is Ok {
                law_budget_expr(*right, l.env, f1, f2);
            }
        },
    }
}

/// A list of expressions that ends within a budget ends in the same way
/// within every larger one.
pub proof fn law_budget_exprs(es: Seq<Expr>, i: int, env: EnvView, f1: nat, f2: nat)
    requires
        f1 <= f2,
        !spent(eval_exprs(es, i, env, f1).result),
    ensures
        eval_exprs(es, i, env, f2) == eval_exprs(es, i, env, f1),
    decreases f1, 1int, es, es.len() - i,
{
    if 0 <= i < es.len() {
        law_budget_expr(es[i], env, f1, f2);
        let h = eval_expr(es[i], env, f1);
        if h.result is Ok {
            law_budget_exprs(es, i + 1, h.env, f1, f2);
        }
    }
}

/// A call of a callable that ends within a budget ends in the same way
/// within every larger one.
pub proof fn law_budget_call(f: FnView, env: EnvView, args: Seq<ValueView>, f1: nat, f2: nat)
    requires
        f1 <= f2,
        !spent(invoke_value(f, env, args, f1).result),
    ensures
        invoke_value(f, env, args, f2) == invoke_value(f, env, args, f1),
    decreases f1, 0int,
{
    match f {
        FnView::Builtin(_) => {},
        FnView::User(def) => {
            if args.len() == def.args.len() && f1 > 0 {
                law_budget_invoke(def, env, args, (f1 - 1) as nat, (f2 - 1) as nat);
            }
        },
    }
}

/// A call of a definition that ends within a budget ends in the same way
/// within every larger one.
pub proof fn law_budget_invoke(def: FnDef, env: EnvView, args: Seq<ValueView>, f1: nat, f2: nat)
    requires
        f1 <= f2,
        !spent(invoke_user(def, env, args, f1).result),
    ensures
        invoke_user(def, env, args, f2) == invoke_user(def, env, args, f1),
    decreases f1, 4int,
{
    if crate::interp::model::check_args(crate::ast::arg_type_views(def.args@), args) is None {
        law_budget_loop(def, crate::ast::semantics::enter(def, args, env), f1, f2, f1, f2);
    }
}

/// Whether a pass was cut short because the budget was spent.
pub open spec fn pass_spent(state: PassView) -> bool {
    state is Failed && state->Failed_0 is OutOfSteps
}

/// A pass that is not cut short within the budget `f1` ends in the same
/// state within every larger budget.
pub proof fn law_budget_pass(def: FnDef, env: EnvView, f1: nat, f2: nat, i: int)
    requires
        f1 <= f2,
        !pass_spent(run_pass(def, env, f1, i).state),
    ensures
        run_pass(def, env, f2, i) == run_pass(def, env, f1, i),
    decreases f1, 2int, def, def.stmts.len() - i,
{
    if def.stmts.len() == 0 {
        law_budget_expr(*def.limit, env, f1, f2);
    } else if 0 <= i < def.stmts.len() {
        law_budget_stmt(def.stmts[i], env, f1, f2);
        let s = eval_stmt(def.stmts[i], env, f1);
        match s.result {
            Ok(_) => {
                law_budget_expr(*def.limit, s.env, f1, f2);
                let l = eval_expr(*def.limit, s.env, f1);
                match limit_holds(l.result) {
                    Ok(false) => {
                        law_budget_pass(def, l.env, f1, f2, i + 1);
                    },
                    _ => {},
                }
            },
            Err(_) => {},
        }
    }
}

/// The passes of a call that ends with `p1` passes granted and the budget
/// `f1` end in the same way with more passes granted and a larger budget.
pub proof fn law_budget_loop(def: FnDef, env: EnvView, f1: nat, f2: nat, p1: nat, p2: nat)
    requires
        f1 <= f2,
        p1 <= p2,
        !spent(run_loop(def, env, f1, p1).result),
    ensures
        run_loop(def, env, f2, p2) == run_loop(def, env, f1, p1),
    decreases f1, 3int, def, p1,
{
    if p1 > 0 {
        law_budget_pass(def, env, f1, f2, 0);
        let p = run_pass(def, env, f1, 0);
        if p.state is Running {
            law_budget_loop(def, p.env, f1, f2, (p1 - 1) as nat, (p2 - 1) as nat);
        }
    }
}

/// A statement that ends within a budget ends in the same way within every
/// larger one.
pub proof fn law_budget_stmt(s: Stmt, env: EnvView, f1: nat, f2: nat)
    requires
        f1 <= f2,
        !spent(eval_stmt(s, env, f1).result),
    ensures
        eval_stmt(s, env, f2) == eval_stmt(s, env, f1),
    decreases f1, 1int, s,
{
    match s {
        Stmt::FnDef(_) => {},
        Stmt::Assign(a) => {
            law_budget_expr(a.val, env, f1, f2);
        },
        Stmt::Once(stmts) => {
            if env.first_iter {
                law_budget_block(stmts@, 0, env, f1, f2);
            }
        },
        Stmt::Sync(stmts) => {
            law_budget_block(stmts@, 0, env.set_sync(true), f1, f2);
        },
        Stmt::Expr(e) => {
            law_budget_expr(e, env, f1, f2);
        },
        Stmt::TypeDef(_, _) => {},
    }
}

/// A list of statements that ends within a budget ends in the same way
/// within every larger one.
pub proof fn law_budget_block(stmts: Seq<Stmt>, i: int, env: EnvView, f1: nat, f2: nat)
    requires
        f1 <= f2,
        !spent(eval_block(stmts, i, env, f1).result),
    ensures
        eval_block(stmts, i, env, f2) == eval_block(stmts, i, env, f1),
    decreases f1, 1int, stmts, stmts.len() - i,
{
    if 0 <= i < stmts.len() {
        law_budget_stmt(stmts[i], env, f1, f2);
        let s = eval_stmt(stmts[i], env, f1);
        if s.result is Ok {
            law_budget_block(stmts, i + 1, s.env, f1, f2);
        }
    }
}

/// A program that ends within a budget ends in the same way within every
/// larger one.
pub proof fn law_budget_file(stmts: Seq<Stmt>, env: EnvView, f1: nat, f2: nat)
    requires
        f1 <= f2,
        !spent(run_file(stmts, env, f1).result),
    ensures
        run_file(stmts, env, f2) == run_file(stmts, env, f1),
{
    law_budget_block(stmts, 0, with_globals(env), f1, f2);
}

} // verus!
