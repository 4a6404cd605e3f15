//! What an evaluation leaves alone: bindings outside the innermost scope,
//! and every write that was asked for before.

use vstd::prelude::*;
use crate::ast::semantics::{
    assign_rule, bind_params, dispatch, enter, eval_block, eval_expr, eval_exprs, eval_stmt,
    invoke_user, invoke_value, limit_holds, run_loop, run_pass, write_name,
};
use crate::ast::{arg_type_views, AssignOp, Expr, FnArg, FnDef, Literal, Stmt, WriteTy};
use crate::interp::model::{check_args, EnvView, FnView, Op, OutputView, SinkView, ValueView};

verus! {

/// Whether `after` is `before` with writes added at its end.
pub open spec fn extends(before: Seq<OutputView>, after: Seq<OutputView>) -> bool {
    before.len() <= after.len() && after.subrange(0, before.len() as int) == before
}

/// The text that a sink has received from the writes in a list: the texts
/// of the writes to that sink, in their order, one after the other.
pub open spec fn received(outputs: Seq<OutputView>, sink: SinkView) -> Seq<char>
    decreases outputs.len(),
{
    if outputs.len() == 0 {
        Seq::empty()
    } else if outputs.last().sink == sink {
        received(outputs.drop_last(), sink) + outputs.last().text
    } else {
        received(outputs.drop_last(), sink)
    }
}

/// One more write adds its text at the end of what its sink has received,
/// and nothing to any other sink.
pub proof fn law_received_push(outputs: Seq<OutputView>, output: OutputView, sink: SinkView)
    ensures
        received(outputs.push(output), sink) == if output.sink == sink {
            received(outputs, sink) + output.text
        } else {
            received(outputs, sink)
        },
{
    assert(outputs.push(output).drop_last() =~= outputs);
}

/// What a sink has received is never taken back: when writes are added to
/// a list, every sink has received what it had received before, and after
/// it the text of the writes that were added.
pub proof fn law_received_grows(before: Seq<OutputView>, after: Seq<OutputView>, sink: SinkView)
    requires
        extends(before, after),
    ensures
        received(after, sink) == received(before, sink) + received(
            after.subrange(before.len() as int, after.len() as int),
            sink,
        ),
    decreases after.len(),
{
    let added = after.subrange(before.len() as int, after.len() as int);
    if after.len() == before.len() {
        assert(after =~= before);
        assert(received(before, sink) + Seq::<char>::empty() =~= received(before, sink));
    } else {
        let shorter = after.drop_last();
        assert(shorter.subrange(0, before.len() as int) =~= after.subrange(0, before.len() as int));
        law_received_grows(before, shorter, sink);
        assert(added.drop_last() =~= shorter.subrange(
            before.len() as int,
            shorter.len() as int,
        ));
        assert(added.last() == after.last());
        if after.last().sink == sink {
            assert(received(after, sink) =~= received(before, sink) + received(added, sink));
        }
    }
}

/// Whether an environment has the scopes of another and only more writes.
pub open spec fn same_scopes(before: EnvView, after: EnvView) -> bool {
    after.scopes == before.scopes && extends(before.outputs, after.outputs)
}

/// Whether an environment differs from another in its innermost scope and
/// in more writes at most.
pub open spec fn same_outer_scopes(before: EnvView, after: EnvView) -> bool {
    &&& after.scopes.len() == before.scopes.len()
    &&& after.scopes.drop_last() == before.scopes.drop_last()
    &&& extends(before.outputs, after.outputs)
}

proof fn lemma_extends_refl(a: Seq<OutputView>)
    ensures
        extends(a, a),
{
    assert(a.subrange(0, a.len() as int) =~= a);
}

proof fn lemma_extends_push(a: Seq<OutputView>, x: OutputView)
    ensures
        extends(a, a.push(x)),
{
    assert(a.push(x).subrange(0, a.len() as int) =~= a);
}

proof fn lemma_extends_trans(a: Seq<OutputView>, b: Seq<OutputView>, c: Seq<OutputView>)
    requires
        extends(a, b),
        extends(b, c),
    ensures
        extends(a, c),
{
    assert(c.subrange(0, a.len() as int) =~= b.subrange(0, a.len() as int));
}

proof fn lemma_same_scopes_trans(a: EnvView, b: EnvView, c: EnvView)
    requires
        same_scopes(a, b),
        same_scopes(b, c),
    ensures
        same_scopes(a, c),
{
    lemma_extends_trans(a.outputs, b.outputs, c.outputs);
}

proof fn lemma_same_outer_trans(a: EnvView, b: EnvView, c: EnvView)
    requires
        same_outer_scopes(a, b),
        same_outer_scopes(b, c),
    ensures
        same_outer_scopes(a, c),
{
    lemma_extends_trans(a.outputs, b.outputs, c.outputs);
}

/// An operator binds nothing and takes no write back.
pub proof fn law_frame_dispatch(op: Op, left: ValueView, right: Option<ValueView>, env: EnvView)
    ensures
        same_scopes(env, dispatch(op, left, right, env).env),
{
    lemma_extends_refl(env.outputs);
    match left.operator_builtin(op) {
        Some(b) => {
            let args = match right {
                Some(r) => seq![left, r],
                None => seq![left],
            };
            match b.handler.output(args) {
                Some(o) => {
                    lemma_extends_push(env.outputs, o);
                },
                None => {},
            }
        },
        None => {},
    }
}

/// Binding the parameters of a call changes the call's own scope only.
proof fn lemma_frame_params(params: Seq<FnArg>, args: Seq<ValueView>, env: EnvView, i: int)
    requires
        env.scopes.len() > 0,
        0 <= i,
    ensures
        same_outer_scopes(env, bind_params(params, args, env, i)),
    decreases params.len() - i,
{
    lemma_extends_refl(env.outputs);
    if i < params.len() {
        let next = env.bind(params[i].name@, args[i]);
        assert(next.scopes.drop_last() =~= env.scopes.drop_last());
        lemma_frame_params(params, args, next, i + 1);
        lemma_same_outer_trans(env, next, bind_params(params, args, next, i + 1));
    }
}

/// An expression binds nothing: after it every scope is as it was, and the
/// writes asked for before are still there, in their order, before any
/// write that the expression added.
pub proof fn law_frame_expr(e: Expr, env: EnvView, fuel: nat)
    ensures
        same_scopes(env, eval_expr(e, env, fuel).env),
    decreases fuel, 1int, e,
{
    lemma_extends_refl(env.outputs);
    match e {
        Expr::FnCall(call) => {
            match env.lookup(call.name@) {
                Some(ValueView::Fn(f)) => {
                    law_frame_exprs(call.args@, 0, env, fuel);
                    let a = eval_exprs(call.args@, 0, env, fuel);
                    match a.result {
                        Ok(args) => {
                            law_frame_call(f, a.env, args, fuel);
                            lemma_same_scopes_trans(
                                env,
                                a.env,
                                invoke_value(f, a.env, args, fuel).env,
                            );
                        },
                        Err(_) => {},
                    }
                },
                _ => {},
            }
        },
        Expr::Write(ty, args) => {
            match env.lookup(write_name(ty)) {
                Some(ValueView::Fn(f)) => {
                    match ty {
                        WriteTy::Other(target) => {
                            law_frame_expr(*target, env, fuel);
                            let o = eval_expr(*target, env, fuel);
                            match o.result {
                                Ok(v) => {
                                    law_frame_exprs(args@, 0, o.env, fuel);
                                    let a = eval_exprs(args@, 0, o.env, fuel);
                                    lemma_same_scopes_trans(env, o.env, a.env);
                                    match a.result {
                                        Ok(rest) => {
                                            law_frame_call(f, a.env, seq![v] + rest, fuel);
                                            lemma_same_scopes_trans(
                                                env,
                                                a.env,
                                                invoke_value(f, a.env, seq![v] + rest, fuel).env,
                                            );
                                        },
                                        Err(_) => {},
                                    }
                                },
                                Err(_) => {},
                            }
                        },
                        _ => {
                            law_frame_exprs(args@, 0, env, fuel);
                            let a = eval_exprs(args@, 0, env, fuel);
                            match a.result {
                                Ok(rest) => {
                                    law_frame_call(f, a.env, Seq::empty() + rest, fuel);
                                    lemma_same_scopes_trans(
                                        env,
                                        a.env,
                                        invoke_value(f, a.env, Seq::empty() + rest, fuel).env,
                                    );
                                },
                                Err(_) => {},
                            }
                        },
                    }
                },
                _ => {},
            }
        },
        Expr::Literal(lit) => {
            match lit {
                Literal::Array(elems) => {
                    law_frame_exprs(elems@, 0, env, fuel);
                },
                _ => {},
            }
        },
        Expr::Ident(_) => {},
        Expr::UnOp(op, operand) => {
            law_frame_expr(*operand, env, fuel);
            let o = eval_expr(*operand, env, fuel);
            match o.result {
                Ok(v) => {
                    law_frame_dispatch(Op::of_un(op), v, None, o.env);
                    lemma_same_scopes_trans(
                        env,
                        o.env,
                        dispatch(Op::of_un(op), v, None, o.env).env,
                    );
                },
                Err(_) => {},
            }
        },
        Expr::BinOp(left, op, right) => {
            law_frame_expr(*left, env, fuel);
            let l = eval_expr(*left, env, fuel);
            match l.result {
                Ok(lv) => {
                    law_frame_expr(*right, l.env, fuel);
                    let r = eval_expr(*right, l.env, fuel);
                    lemma_same_scopes_trans(env, l.env, r.env);
                    match r.result {
                        Ok(rv) => {
                            law_frame_dispatch(Op::of_bin(op), lv, Some(rv), r.env);
                            lemma_same_scopes_trans(
                                env,
                                r.env,
                                dispatch(Op::of_bin(op), lv, Some(rv), r.env).env,
                            );
                        },
                        Err(_) => {},
                    }
                },
                Err(_) => {},
            }
        },
    }
}

/// A list of expressions binds nothing.
pub proof fn law_frame_exprs(es: Seq<Expr>, i: int, env: EnvView, fuel: nat)
    ensures
        same_scopes(env, eval_exprs(es, i, env, fuel).env),
    decreases fuel, 1int, es, es.len() - i,
{
    lemma_extends_refl(env.outputs);
    if 0 <= i < es.len() {
        law_frame_expr(es[i], env, fuel);
        let h = eval_expr(es[i], env, fuel);
        if h.result is Ok {
            law_frame_exprs(es, i + 1, h.env, fuel);
            lemma_same_scopes_trans(env, h.env, eval_exprs(es, i + 1, h.env, fuel).env);
        }
    }
}

/// A call leaves every scope of its caller as it was, however it ends: what
/// the callee binds, it binds in a scope of its own, which is gone when the
/// call is over.
pub proof fn law_frame_call(f: FnView, env: EnvView, args: Seq<ValueView>, fuel: nat)
    ensures
        same_scopes(env, invoke_value(f, env, args, fuel).env),
    decreases fuel, 0int,
{
    lemma_extends_refl(env.outputs);
    match f {
        FnView::Builtin(b) => {
            match b.handler.output(args) {
                Some(o) => {
                    lemma_extends_push(env.outputs, o);
                },
                None => {},
            }
        },
        FnView::User(def) => {
            if args.len() == def.args.len() && fuel > 0 {
                law_frame_invoke(def, env, args, (fuel - 1) as nat);
            }
        },
    }
}

/// A call of a definition leaves every scope of its caller as it was.
pub proof fn law_frame_invoke(def: FnDef, env: EnvView, args: Seq<ValueView>, fuel: nat)
    ensures
        same_scopes(env, invoke_user(def, env, args, fuel).env),
    decreases fuel, 4int,
{
    lemma_extends_refl(env.outputs);
    if check_args(arg_type_views(def.args@), args) is None {
        let pushed = env.push_scope().set_first_iter(true).set_sync(false);
        let start = enter(def, args, env);
        lemma_frame_params(def.args@, args, pushed, 0);
        assert(pushed.scopes.drop_last() =~= env.scopes);
        law_frame_loop(def, start, fuel, fuel);
        let out = run_loop(def, start, fuel, fuel);
        lemma_extends_trans(env.outputs, start.outputs, out.env.outputs);
    }
}

/// A pass over a body changes the call's own scope only.
pub proof fn law_frame_pass(def: FnDef, env: EnvView, fuel: nat, i: int)
    requires
        env.scopes.len() > 0,
    ensures
        same_outer_scopes(env, run_pass(def, env, fuel, i).env),
    decreases fuel, 2int, def, def.stmts.len() - i,
{
    lemma_extends_refl(env.outputs);
    if def.stmts.len() == 0 {
        law_frame_expr(*def.limit, env, fuel);
    } else if 0 <= i < def.stmts.len() {
        law_frame_stmt(def.stmts[i], env, fuel);
        let s = eval_stmt(def.stmts[i], env, fuel);
        match s.result {
            Ok(_) => {
                law_frame_expr(*def.limit, s.env, fuel);
                let l = eval_expr(*def.limit, s.env, fuel);
                lemma_same_outer_trans(env, s.env, l.env);
                match limit_holds(l.result) {
                    Ok(false) => {
                        law_frame_pass(def, l.env, fuel, i + 1);
                        lemma_same_outer_trans(
                            env,
                            l.env,
                            run_pass(def, l.env, fuel, i + 1).env,
                        );
                    },
                    _ => {},
                }
            },
            Err(_) => {},
        }
    }
}

/// The passes of a call change the call's own scope only.
pub proof fn law_frame_loop(def: FnDef, env: EnvView, fuel: nat, passes: nat)
    requires
        env.scopes.len() > 0,
    ensures
        same_outer_scopes(env, run_loop(def, env, fuel, passes).env),
    decreases fuel, 3int, def, passes,
{
    lemma_extends_refl(env.outputs);
    if passes > 0 {
        law_frame_pass(def, env, fuel, 0);
        let p = run_pass(def, env, fuel, 0);
        if p.state is Running {
            law_frame_loop(def, p.env, fuel, (passes - 1) as nat);
            lemma_same_outer_trans(
                env,
                p.env,
                run_loop(def, p.env, fuel, (passes - 1) as nat).env,
            );
        }
    }
}

/// An assignment changes the innermost scope only.
proof fn lemma_frame_assign(
    ty: crate::ast::AssignTy,
    op: AssignOp,
    name: Seq<char>,
    value: ValueView,
    env: EnvView,
)
    requires
        env.scopes.len() > 0,
    ensures
        same_outer_scopes(env, assign_rule(ty, op, name, value, env).env),
{
    lemma_extends_refl(env.outputs);
    assert(env.bind(name, value).scopes.drop_last() =~= env.scopes.drop_last());
    if op != AssignOp::Eq {
        match env.lookup(name) {
            Some(old) => {
                let operator = crate::ast::semantics::compound_op(op);
                let applied = dispatch(operator, old, Some(value), env);
                law_frame_dispatch(crate::ast::semantics::compound_op(op), old, Some(value), env);
                match applied.result {
                    Ok(v) => {
                        assert(applied.env.bind(name, v).scopes.drop_last()
                            =~= applied.env.scopes.drop_last());
                    },
                    Err(_) => {},
                }
            },
            None => {},
        }
    }
}

/// A statement binds in the innermost scope only: every outer scope is
/// after it as it was before, and no write is lost.
pub proof fn law_frame_stmt(s: Stmt, env: EnvView, fuel: nat)
    requires
        env.scopes.len() > 0,
    ensures
        same_outer_scopes(env, eval_stmt(s, env, fuel).env),
    decreases fuel, 1int, s,
{
    lemma_extends_refl(env.outputs);
    match s {
        Stmt::FnDef(def) => {
            assert(env.bind(def.name@, ValueView::Fn(FnView::User(def))).scopes.drop_last()
                =~= env.scopes.drop_last());
        },
        Stmt::Assign(a) => {
            law_frame_expr(a.val, env, fuel);
            let r = eval_expr(a.val, env, fuel);
            match r.result {
                Ok(v) => {
                    lemma_frame_assign(a.ty, a.assign_op, a.ident@, v, r.env);
                    lemma_same_outer_trans(
                        env,
                        r.env,
                        assign_rule(a.ty, a.assign_op, a.ident@, v, r.env).env,
                    );
                },
                Err(_) => {},
            }
        },
        Stmt::Once(stmts) => {
            if env.first_iter {
                law_frame_block(stmts@, 0, env, fuel);
            }
        },
        Stmt::Sync(stmts) => {
            law_frame_block(stmts@, 0, env.set_sync(true), fuel);
        },
        Stmt::Expr(e) => {
            law_frame_expr(e, env, fuel);
        },
        Stmt::TypeDef(name, ty) => {
            assert(env.bind(name@, ValueView::Type(ty@)).scopes.drop_last()
                =~= env.scopes.drop_last());
        },
    }
}

/// A list of statements binds in the innermost scope only.
pub proof fn law_frame_block(stmts: Seq<Stmt>, i: int, env: EnvView, fuel: nat)
    requires
        env.scopes.len() > 0,
    ensures
        same_outer_scopes(env, eval_block(stmts, i, env, fuel).env),
    decreases fuel, 1int, stmts, stmts.len() - i,
{
    lemma_extends_refl(env.outputs);
    if 0 <= i < stmts.len() {
        law_frame_stmt(stmts[i], env, fuel);
        let s = eval_stmt(stmts[i], env, fuel);
        if s.result is Ok {
            law_frame_block(stmts, i + 1, s.env, fuel);
            lemma_same_outer_trans(env, s.env, eval_block(stmts, i + 1, s.env, fuel).env);
        }
    }
}

/// A whole program takes no write back: the writes asked for before the run
/// are still there after it, in their order, before the writes of the run.
/// So every sink has, after the run, what it had received before and then
/// the texts that the run wrote to it.
pub proof fn law_frame_file(stmts: Seq<Stmt>, env: EnvView, fuel: nat, sink: SinkView)
    ensures
        extends(env.outputs, crate::ast::semantics::run_file(stmts, env, fuel).env.outputs),
        received(crate::ast::semantics::run_file(stmts, env, fuel).env.outputs, sink) == received(
            env.outputs,
            sink,
        ) + received(
            crate::ast::semantics::run_file(stmts, env, fuel).env.outputs.subrange(
                env.outputs.len() as int,
                crate::ast::semantics::run_file(stmts, env, fuel).env.outputs.len() as int,
            ),
            sink,
        ),
{
    let start = crate::ast::semantics::with_globals(env);
    law_frame_block(stmts, 0, start, fuel);
    let out = crate::ast::semantics::run_file(stmts, env, fuel).env;
    law_received_grows(env.outputs, out.outputs, sink);
}

} // verus!
