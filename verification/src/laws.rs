//! Laws of the engine: what holds of every value, environment and program.

use vstd::prelude::*;
use crate::ast::semantics::{
    assign_rule, bind_params, bound, dispatch, enter, eval_block, eval_expr, eval_exprs,
    eval_stmt, invoke_user, invoke_value, leave, limit_holds, raised, run_loop, run_pass,
    write_name, Outcome, PassView,
};
use crate::ast::{
    arg_type_views, AssignOp, AssignTy, Expr, FnArg, FnDef, Literal, Stmt, TypeView, WriteTy,
};
use crate::interp::model::{
    array_of, check_args, concat_texts, first_bad_arg, first_mismatch, float_equal, int_result,
    lemma_tags_distinct, lookup_from, refuse, tag_chararray, tag_int, tag_null, target_sink,
    uniform, AbortView, EnvView, ExceptionView, FnView, Native, Op, OutputView, SinkView,
    ValueView,
};

verus! {

/// Adding two integers gives their sum, and a fatal overflow when the native
/// integer cannot hold it; the environment stays as it was.
pub proof fn law_int_addition(a: int, b: int, env: EnvView)
    ensures
        dispatch(Op::Add, ValueView::Int(a), Some(ValueView::Int(b)), env) == (Outcome {
            env,
            result: int_result(a + b),
        }),
{
    reveal_with_fuel(first_bad_arg, 3);
    let args = seq![ValueView::Int(a), ValueView::Int(b)];
    assert(Native::IntAdd.params().len() == 2);
    assert(check_args(Native::IntAdd.params(), args) is None);
}

/// An operator that the left operand's kind does not implement is refused
/// with an exception that names the operator and both operands' tags,
/// whatever the right operand is. Only integers implement addition.
pub proof fn law_missing_operator(op: Op, left: ValueView, right: ValueView, env: EnvView)
    requires
        left.handler(op) is None,
    ensures
        dispatch(op, left, Some(right), env) == raised(
            env,
            ExceptionView::InvalidOp(op, left.ty(), Some(right.ty())),
        ),
        !(left is Int) ==> left.handler(Op::Add) is None,
{
}

/// Whether an operator takes two operands.
pub open spec fn binary(op: Op) -> bool {
    op == Op::Eq || op == Op::Neq || op == Op::Add || op == Op::Sub || op == Op::Mul || op
        == Op::Div
}

/// The operator that a value has for a binary operator declares the
/// value's own tag for both operands.
pub proof fn lemma_operator_operands(op: Op, left: ValueView)
    requires
        binary(op),
        left.operator_builtin(op) is Some,
    ensures
        left.operator_builtin(op)->Some_0.args.len() == 2,
        left.operator_builtin(op)->Some_0.args[0] == left.ty(),
        left.operator_builtin(op)->Some_0.args[1] == left.ty(),
{
    let h = left.handler(op)->Some_0;
    assert(h.operands() == 2);
    assert(h.params().len() == 2);
    assert(h.params()[0] == h.operand());
    assert(h.params()[1] == h.operand());
    assert(h.builtin_for(left.ty()).args[0] == left.ty());
    assert(h.builtin_for(left.ty()).args[1] == left.ty());
}

/// A binary operator on two values of different tags raises `InvalidOp`,
/// which names the operator and both tags, whatever the kinds are: an
/// operator accepts a right operand of the left operand's tag only, and no
/// operand is promoted. This holds of `+`, `-`, `*`, `/`, `==` and `!=`, on
/// integers, floats, bits, characters, character arrays and callables
/// alike. The environment stays as it was.
pub proof fn law_mixed_operands(op: Op, left: ValueView, right: ValueView, env: EnvView)
    requires
        binary(op),
        left.ty() != right.ty(),
    ensures
        dispatch(op, left, Some(right), env) == raised(
            env,
            ExceptionView::InvalidOp(op, left.ty(), Some(right.ty())),
        ),
{
    if left.operator_builtin(op) is Some {
        lemma_operator_operands(op, left);
    }
}

/// Adding two values of different tags raises `InvalidOp`, which names both
/// tags.
pub proof fn law_mixed_addition(left: ValueView, right: ValueView, env: EnvView)
    requires
        left.ty() != right.ty(),
    ensures
        dispatch(Op::Add, left, Some(right), env) == raised(
            env,
            ExceptionView::InvalidOp(Op::Add, left.ty(), Some(right.ty())),
        ),
{
    law_mixed_operands(Op::Add, left, right, env);
}

/// An integer on the left with a value of another kind on the right is
/// refused with `InvalidOp`, which names the integer tag as the left one
/// and the other value's tag as the right one. There is no promotion of
/// either operand.
pub proof fn law_no_promotion(op: Op, a: int, right: ValueView, env: EnvView)
    requires
        !(right is Int),
        binary(op),
    ensures
        dispatch(op, ValueView::Int(a), Some(right), env) == raised(
            env,
            ExceptionView::InvalidOp(op, tag_int(), Some(right.ty())),
        ),
{
    lemma_tags_distinct();
    law_mixed_operands(op, ValueView::Int(a), right, env);
}

/// What the search for an element of another tag finds.
pub proof fn lemma_first_mismatch(items: Seq<ValueView>, i: int)
    requires
        0 <= i,
    ensures
        match first_mismatch(items, i) {
            None => forall|j: int|
                i <= j < items.len() ==> (#[trigger] items[j]).ty() == items[0].ty(),
            Some(k) => i <= k < items.len() && items[k].ty() != items[0].ty(),
        },
    decreases items.len() - i,
{
    if i < items.len() {
        lemma_first_mismatch(items, i + 1);
    }
}

/// An array is made exactly of elements that have one tag, and its tag is
/// then the array of that tag; elements of differing tags are refused with
/// an exception that names the first element's tag as expected.
pub proof fn law_array_uniform(items: Seq<ValueView>)
    ensures
        uniform(items) <==> array_of(items) is Ok,
        uniform(items) ==> array_of(items) == Ok::<ValueView, ExceptionView>(
            ValueView::Array(items),
        ),
        uniform(items) && items.len() > 0 ==> ValueView::Array(items).ty() == TypeView::Array(
            Box::new(items[0].ty()),
        ),
        !uniform(items) ==> exists|k: int|
            0 < k < items.len() && items[k].ty() != items[0].ty() && array_of(items) == Err::<
                ValueView,
                ExceptionView,
            >(ExceptionView::InvalidType(items[0].ty(), #[trigger] items[k].ty())),
{
    lemma_first_mismatch(items, 1);
    match first_mismatch(items, 1) {
        None => {
            assert forall|j: int| 0 <= j < items.len() implies (#[trigger] items[j]).ty()
                == items[0].ty() by {}
        },
        Some(k) => {},
    }
}

/// A name resolves to what was last bound to it in the innermost scope.
pub proof fn law_bind_then_lookup(env: EnvView, name: Seq<char>, value: ValueView)
    requires
        env.scopes.len() > 0,
    ensures
        env.bind(name, value).lookup(name) == Some(value),
        env.bind(name, value).scopes.len() == env.scopes.len(),
{
}

/// A binding does not change what another name resolves to.
pub proof fn law_bind_other(env: EnvView, name: Seq<char>, value: ValueView, other: Seq<char>)
    requires
        env.scopes.len() > 0,
        other != name,
    ensures
        env.bind(name, value).lookup(other) == env.lookup(other),
{
    let after = env.bind(name, value);
    let n = env.scopes.len() as int;
    assert(after.scopes[n - 1].contains_key(other) == env.scopes[n - 1].contains_key(other));
    lemma_lookup_prefix(after.scopes, env.scopes, n - 1, other);
}

/// A new scope binds nothing: every name resolves as it did before.
pub proof fn law_push_keeps_bindings(env: EnvView, name: Seq<char>)
    ensures
        env.push_scope().lookup(name) == env.lookup(name),
{
    let pushed = env.push_scope();
    assert(!pushed.scopes[pushed.scopes.len() - 1].contains_key(name));
    lemma_lookup_prefix(pushed.scopes, env.scopes, env.scopes.len() as int, name);
}

/// A binding in an inner scope shadows the outer ones while the scope
/// lives, and is gone with the scope: what was pushed and bound in is
/// popped, and the environment is as it was.
pub proof fn law_scope_shadows(env: EnvView, name: Seq<char>, value: ValueView)
    ensures
        env.push_scope().bind(name, value).lookup(name) == Some(value),
        env.push_scope().bind(name, value).pop_scope() == env,
        env.push_scope().pop_scope() == env,
{
    assert(env.push_scope().bind(name, value).pop_scope().scopes =~= env.scopes);
    assert(env.push_scope().pop_scope().scopes =~= env.scopes);
}

/// Resolution in the first `n` scopes looks at those scopes only.
pub proof fn lemma_lookup_prefix(
    a: Seq<Map<Seq<char>, ValueView>>,
    b: Seq<Map<Seq<char>, ValueView>>,
    n: int,
    name: Seq<char>,
)
    requires
        0 <= n <= a.len(),
        n <= b.len(),
        forall|j: int| 0 <= j < n ==> a[j] == b[j],
    ensures
        lookup_from(a, n, name) == lookup_from(b, n, name),
    decreases n,
{
    if n > 0 {
        lemma_lookup_prefix(a, b, n - 1, name);
    }
}

/// A compound assignment to a name that is not bound raises
/// `NameNotFound` and changes nothing, whatever its modifier and its
/// right-hand side are.
pub proof fn law_compound_unbound(
    ty: AssignTy,
    op: AssignOp,
    name: Seq<char>,
    value: ValueView,
    env: EnvView,
)
    requires
        op != AssignOp::Eq,
        env.lookup(name) is None,
    ensures
        assign_rule(ty, op, name, value, env) == raised(env, ExceptionView::NameNotFound(name)),
{
}

/// A compound assignment to a name bound to a value whose kind lacks the
/// operator raises `InvalidOp` and leaves the binding as it was.
pub proof fn law_compound_no_operator(
    ty: AssignTy,
    op: AssignOp,
    name: Seq<char>,
    value: ValueView,
    env: EnvView,
)
    requires
        op != AssignOp::Eq,
        env.lookup(name) is Some,
        env.lookup(name)->Some_0.handler(crate::ast::semantics::compound_op(op)) is None,
    ensures
        assign_rule(ty, op, name, value, env) == raised(
            env,
            ExceptionView::InvalidOp(
                crate::ast::semantics::compound_op(op),
                env.lookup(name)->Some_0.ty(),
                Some(value.ty()),
            ),
        ),
{
}

/// A compound assignment of a value whose tag is not the tag of the value
/// that the name is bound to raises `InvalidOp`, which names both tags, and
/// leaves the binding as it was: the right-hand side is not promoted. So
/// does a float assigned with `+=` to a name bound to an integer.
pub proof fn law_compound_no_promotion(
    ty: AssignTy,
    op: AssignOp,
    name: Seq<char>,
    value: ValueView,
    env: EnvView,
)
    requires
        op != AssignOp::Eq,
        env.lookup(name) is Some,
        env.lookup(name)->Some_0.ty() != value.ty(),
    ensures
        assign_rule(ty, op, name, value, env) == raised(
            env,
            ExceptionView::InvalidOp(
                crate::ast::semantics::compound_op(op),
                env.lookup(name)->Some_0.ty(),
                Some(value.ty()),
            ),
        ),
        assign_rule(ty, op, name, value, env).env.lookup(name) == env.lookup(name),
{
    let old = env.lookup(name)->Some_0;
    law_mixed_operands(crate::ast::semantics::compound_op(op), old, value, env);
}

/// An assignment without a modifier needs a binding of the same tag: to an
/// unbound name it raises `NameNotFound`; to a name bound to a value of
/// another tag it raises `InvalidType` with the old tag as the expected one;
/// to a name bound to a value of the same tag it binds the new value, which
/// the name then resolves to.
pub proof fn law_default_assignment(name: Seq<char>, value: ValueView, env: EnvView)
    requires
        env.scopes.len() > 0,
    ensures
        ({
            let out = assign_rule(AssignTy::Default, AssignOp::Eq, name, value, env);
            match env.lookup(name) {
                None => out == raised(env, ExceptionView::NameNotFound(name)),
                Some(old) => if old.ty() != value.ty() {
                    out == raised(env, ExceptionView::InvalidType(old.ty(), value.ty()))
                } else {
                    out.result == Ok::<ValueView, AbortView>(value) && out.env.lookup(name)
                        == Some(value)
                },
            }
        }),
{
}

/// A `unique` assignment always binds, whatever was bound before.
pub proof fn law_unique_assignment(name: Seq<char>, value: ValueView, env: EnvView)
    requires
        env.scopes.len() > 0,
    ensures
        assign_rule(AssignTy::Unique, AssignOp::Eq, name, value, env) == bound(env, name, value),
        bound(env, name, value).env.lookup(name) == Some(value),
{
}

/// A `carryover` assignment binds in the first iteration of a call; in
/// every other iteration it changes nothing and yields null.
pub proof fn law_carryover_assignment(name: Seq<char>, value: ValueView, env: EnvView)
    requires
        env.scopes.len() > 0,
    ensures
        ({
            let out = assign_rule(AssignTy::CarryOver, AssignOp::Eq, name, value, env);
            if env.first_iter {
                out == bound(env, name, value) && out.env.lookup(name) == Some(value)
            } else {
                out == (Outcome { env, result: Ok(ValueView::Null) })
            }
        }),
{
}

/// Binding the parameters touches the innermost scope only.
pub proof fn lemma_bind_params(params: Seq<FnArg>, args: Seq<ValueView>, env: EnvView, i: int)
    requires
        env.scopes.len() > 0,
        0 <= i,
    ensures
        ({
            let out = bind_params(params, args, env, i);
            &&& out.scopes.len() == env.scopes.len()
            &&& out.scopes.drop_last() == env.scopes.drop_last()
            &&& out.first_iter == env.first_iter
            &&& out.sync == env.sync
            &&& out.outputs == env.outputs
        }),
    decreases params.len() - i,
{
    if i < params.len() {
        let next = env.bind(params[i].name@, args[i]);
        lemma_bind_params(params, args, next, i + 1);
        assert(next.scopes.drop_last() =~= env.scopes.drop_last());
    }
}

/// A call starts in its first iteration, and leaves the caller's scopes,
/// flags and nothing else behind when its own scope goes.
pub proof fn law_call_frame(def: FnDef, args: Seq<ValueView>, env: EnvView)
    ensures
        enter(def, args, env).first_iter,
        !enter(def, args, env).sync,
        enter(def, args, env).scopes.len() == env.scopes.len() + 1,
        leave(enter(def, args, env), env) == env,
{
    let start = env.push_scope().set_first_iter(true).set_sync(false);
    lemma_bind_params(def.args@, args, start, 0);
    assert(start.scopes.drop_last() =~= env.scopes);
    assert(leave(enter(def, args, env), env).scopes =~= env.scopes);
}

/// A pass that leaves the call running has cleared the first-iteration
/// flag: every later pass of the same call starts with the flag clear.
pub proof fn law_later_passes(def: FnDef, env: EnvView, fuel: nat, i: int)
    ensures
        run_pass(def, env, fuel, i).state is Running ==> !run_pass(
            def,
            env,
            fuel,
            i,
        ).env.first_iter,
    decreases def.stmts.len() - i,
{
    if def.stmts.len() > 0 && 0 <= i < def.stmts.len() {
        let s = eval_stmt(def.stmts[i], env, fuel);
        match s.result {
            Ok(v) => {
                let l = eval_expr(*def.limit, s.env, fuel);
                law_later_passes(def, l.env, fuel, i + 1);
            },
            Err(_) => {},
        }
    }
}

/// While a call is running, pass follows pass: the next pass starts in the
/// environment that the last one left.
pub proof fn law_next_pass(def: FnDef, env: EnvView, fuel: nat, passes: nat)
    requires
        passes > 0,
        run_pass(def, env, fuel, 0).state is Running,
    ensures
        run_loop(def, env, fuel, passes) == run_loop(
            def,
            run_pass(def, env, fuel, 0).env,
            fuel,
            (passes - 1) as nat,
        ),
{
}

/// A definition with no statements, the return type `null` and the literal
/// `1b` as its limit returns null at once: it makes no pass over a body,
/// and it leaves the environment as it found it.
pub proof fn law_empty_body(def: FnDef, args: Seq<ValueView>, env: EnvView, fuel: nat)
    requires
        def.stmts.len() == 0,
        def.ret@ == tag_null(),
        *def.limit == Expr::Literal(Literal::Bit(true)),
        check_args(arg_type_views(def.args@), args) is None,
        fuel > 0,
    ensures
        invoke_user(def, env, args, fuel) == (Outcome { env, result: Ok(ValueView::Null) }),
{
    law_call_frame(def, args, env);
    let start = enter(def, args, env);
    assert(eval_expr(*def.limit, start, fuel) == (Outcome {
        env: start,
        result: Ok(ValueView::Bit(true)),
    }));
}

/// A definition with no statements and another return type than `null`
/// fails when its limit holds: an empty body yields no value but null.
pub proof fn law_empty_body_typed(def: FnDef, args: Seq<ValueView>, env: EnvView, fuel: nat)
    requires
        def.stmts.len() == 0,
        def.ret@ != tag_null(),
        *def.limit == Expr::Literal(Literal::Bit(true)),
        check_args(arg_type_views(def.args@), args) is None,
        fuel > 0,
    ensures
        invoke_user(def, env, args, fuel) == raised(
            env,
            ExceptionView::InvalidType(def.ret@, tag_null()),
        ),
{
    law_call_frame(def, args, env);
    let start = enter(def, args, env);
    assert(eval_expr(*def.limit, start, fuel) == (Outcome {
        env: start,
        result: Ok(ValueView::Bit(true)),
    }));
}

/// When the limit holds after a statement whose value has another tag than
/// the declared return type, the call fails with `InvalidType`, which names
/// the declared type as expected and the value's tag as found; when the
/// value has the declared type, the call ends with it.
pub proof fn law_return_type(def: FnDef, env: EnvView, fuel: nat, i: int, v: ValueView)
    requires
        0 <= i < def.stmts.len(),
        eval_stmt(def.stmts[i], env, fuel).result == Ok::<ValueView, AbortView>(v),
        limit_holds(eval_expr(*def.limit, eval_stmt(def.stmts[i], env, fuel).env, fuel).result)
            == Ok::<bool, AbortView>(true),
    ensures
        v.ty() != def.ret@ ==> run_pass(def, env, fuel, i).state == PassView::Failed(
            AbortView::Raised(ExceptionView::InvalidType(def.ret@, v.ty())),
        ),
        v.ty() == def.ret@ ==> run_pass(def, env, fuel, i).state == PassView::Terminated(v),
{
}

/// Only the bit `1b` ends a call: any other value of the limit expression,
/// and any exception it raises, lets the call go on.
pub proof fn law_limit(r: Result<ValueView, AbortView>)
    ensures
        limit_holds(r) == Ok::<bool, AbortView>(true) <==> r == Ok::<ValueView, AbortView>(
            ValueView::Bit(true),
        ),
        r is Ok ==> limit_holds(r) is Ok,
        r is Err && r->Err_0 is Raised ==> limit_holds(r) == Ok::<bool, AbortView>(false),
{
}

/// What `write_io` does with its first argument: an integer names an open
/// descriptor, a character array names a file, and the text written is the
/// text of all the other arguments, in order and whole. Any other first
/// argument is refused, with the character-array tag as the expected one,
/// and nothing is written.
pub proof fn law_write_io(args: Seq<ValueView>, env: EnvView)
    requires
        args.len() > 0,
    ensures
        ({
            let b = Native::WriteIo.builtin();
            match args[0] {
                ValueView::Int(fd) => b.result(args) == Ok::<ValueView, AbortView>(ValueView::Null)
                    && b.effect(env, args) == env.emit(
                    OutputView { sink: SinkView::Descriptor(fd), text: concat_texts(args, 1) },
                ),
                ValueView::CharArray(path) => b.result(args) == Ok::<ValueView, AbortView>(
                    ValueView::Null,
                ) && b.effect(env, args) == env.emit(
                    OutputView { sink: SinkView::Named(path), text: concat_texts(args, 1) },
                ),
                _ => b.result(args) == Err::<ValueView, AbortView>(
                    refuse(tag_chararray(), args[0]),
                ) && b.effect(env, args) == env,
            }
        }),
{
}

/// A call changes neither flag of its caller, however it ends.
pub proof fn law_call_keeps_flags(f: FnView, env: EnvView, args: Seq<ValueView>, fuel: nat)
    ensures
        invoke_value(f, env, args, fuel).env.first_iter == env.first_iter,
        invoke_value(f, env, args, fuel).env.sync == env.sync,
{
}

/// An operator changes neither flag.
pub proof fn lemma_dispatch_keeps_flags(
    op: Op,
    left: ValueView,
    right: Option<ValueView>,
    env: EnvView,
)
    ensures
        dispatch(op, left, right, env).env.first_iter == env.first_iter,
        dispatch(op, left, right, env).env.sync == env.sync,
{
}

/// Evaluating an expression changes neither flag of the activation it is
/// evaluated in.
pub proof fn law_expr_keeps_flags(e: Expr, env: EnvView, fuel: nat)
    ensures
        eval_expr(e, env, fuel).env.first_iter == env.first_iter,
        eval_expr(e, env, fuel).env.sync == env.sync,
    decreases e,
{
    match e {
        Expr::FnCall(call) => {
            match env.lookup(call.name@) {
                Some(ValueView::Fn(f)) => {
                    law_exprs_keep_flags(call.args@, 0, env, fuel);
                    let a = eval_exprs(call.args@, 0, env, fuel);
                    match a.result {
                        Ok(args) => {
                            law_call_keeps_flags(f, a.env, args, fuel);
                        },
                        Err(_) => {},
                    }
                },
                _ => {},
            }
        },
        Expr::Write(ty, args) => {
            match env.lookup(write_name(ty)) {
                Some(ValueView::Fn(f)) => {
                    let mid = match ty {
                        WriteTy::Other(target) => {
                            law_expr_keeps_flags(*target, env, fuel);
                            eval_expr(*target, env, fuel)
                        },
                        _ => Outcome { env, result: Ok(ValueView::Null) },
                    };
                    if mid.result is Ok {
                        law_exprs_keep_flags(args@, 0, mid.env, fuel);
                        let a = eval_exprs(args@, 0, mid.env, fuel);
                        match a.result {
                            Ok(rest) => {
                                let head = match ty {
                                    WriteTy::Other(_) => seq![mid.result->Ok_0],
                                    _ => Seq::empty(),
                                };
                                law_call_keeps_flags(f, a.env, head + rest, fuel);
                            },
                            Err(_) => {},
                        }
                    }
                },
                _ => {},
            }
        },
        Expr::Literal(lit) => {
            match lit {
                Literal::Array(elems) => {
                    law_exprs_keep_flags(elems@, 0, env, fuel);
                },
                _ => {},
            }
        },
        Expr::Ident(_) => {},
        Expr::UnOp(op, operand) => {
            law_expr_keeps_flags(*operand, env, fuel);
            let o = eval_expr(*operand, env, fuel);
            match o.result {
                Ok(v) => {
                    lemma_dispatch_keeps_flags(Op::of_un(op), v, None, o.env);
                },
                Err(_) => {},
            }
        },
        Expr::BinOp(left, op, right) => {
            law_expr_keeps_flags(*left, env, fuel);
            let l = eval_expr(*left, env, fuel);
            match l.result {
                Ok(lv) => {
                    law_expr_keeps_flags(*right, l.env, fuel);
                    let r = eval_expr(*right, l.env, fuel);
                    match r.result {
                        Ok(rv) => {
                            lemma_dispatch_keeps_flags(Op::of_bin(op), lv, Some(rv), r.env);
                        },
                        Err(_) => {},
                    }
                },
                Err(_) => {},
            }
        },
    }
}

/// Evaluating a list of expressions changes neither flag.
pub proof fn law_exprs_keep_flags(es: Seq<Expr>, i: int, env: EnvView, fuel: nat)
    ensures
        eval_exprs(es, i, env, fuel).env.first_iter == env.first_iter,
        eval_exprs(es, i, env, fuel).env.sync == env.sync,
    decreases es, es.len() - i,
{
    if 0 <= i < es.len() {
        law_expr_keeps_flags(es[i], env, fuel);
        let h = eval_expr(es[i], env, fuel);
        if h.result is Ok {
            law_exprs_keep_flags(es, i + 1, h.env, fuel);
        }
    }
}

/// No statement changes the first-iteration flag: within one pass over a
/// body every statement sees the flag as the pass found it. So a
/// `carryover` assignment and a `once` block act in the first pass of a call
/// and in no later pass. The sync flag, once set, stays set.
pub proof fn law_stmt_keeps_first_iter(s: Stmt, env: EnvView, fuel: nat)
    ensures
        eval_stmt(s, env, fuel).env.first_iter == env.first_iter,
        env.sync ==> eval_stmt(s, env, fuel).env.sync,
    decreases s,
{
    match s {
        Stmt::FnDef(_) => {},
        Stmt::Assign(a) => {
            law_expr_keeps_flags(a.val, env, fuel);
            let r = eval_expr(a.val, env, fuel);
            match r.result {
                Ok(v) => {
                    if a.assign_op != AssignOp::Eq {
                        match r.env.lookup(a.ident@) {
                            Some(old) => {
                                lemma_dispatch_keeps_flags(
                                    crate::ast::semantics::compound_op(a.assign_op),
                                    old,
                                    Some(v),
                                    r.env,
                                );
                            },
                            None => {},
                        }
                    }
                },
                Err(_) => {},
            }
        },
        Stmt::Once(stmts) => {
            if env.first_iter {
                law_block_keeps_first_iter(stmts@, 0, env, fuel);
            }
        },
        Stmt::Sync(stmts) => {
            law_block_keeps_first_iter(stmts@, 0, env.set_sync(true), fuel);
        },
        Stmt::Expr(e) => {
            law_expr_keeps_flags(e, env, fuel);
        },
        Stmt::TypeDef(_, _) => {},
    }
}

/// No list of statements changes the first-iteration flag.
pub proof fn law_block_keeps_first_iter(stmts: Seq<Stmt>, i: int, env: EnvView, fuel: nat)
    ensures
        eval_block(stmts, i, env, fuel).env.first_iter == env.first_iter,
        env.sync ==> eval_block(stmts, i, env, fuel).env.sync,
    decreases stmts, stmts.len() - i,
{
    if 0 <= i < stmts.len() {
        law_stmt_keeps_first_iter(stmts[i], env, fuel);
        let s = eval_stmt(stmts[i], env, fuel);
        if s.result is Ok {
            law_block_keeps_first_iter(stmts, i + 1, s.env, fuel);
        }
    }
}

/// Two callables of one tag are equal exactly when they are one definition:
/// what the definitions contain is not compared. Callables of different
/// tags are not compared at all: the operation is refused with `InvalidOp`.
pub proof fn law_callable_identity(f: FnView, g: FnView, env: EnvView)
    ensures
        ({
            let out = dispatch(Op::Eq, ValueView::Fn(f), Some(ValueView::Fn(g)), env);
            if f.ty() == g.ty() {
                out == (Outcome { env, result: Ok(ValueView::Bit(f.same_definition(g))) })
            } else {
                out == raised(env, ExceptionView::InvalidOp(Op::Eq, f.ty(), Some(g.ty())))
            }
        }),
        f.same_definition(f),
{
    reveal_with_fuel(first_bad_arg, 3);
    lemma_operator_operands(Op::Eq, ValueView::Fn(f));
    let b = ValueView::Fn(f).operator_builtin(Op::Eq)->Some_0;
    let args = seq![ValueView::Fn(f), ValueView::Fn(g)];
    if f.ty() == g.ty() {
        assert(check_args(b.args, args) is None);
    }
}

/// Two floats are compared as IEEE 754 compares them, on their bit
/// patterns; the environment stays as it was.
pub proof fn law_float_equality(a: u64, b: u64, env: EnvView)
    ensures
        dispatch(Op::Eq, ValueView::Float(a), Some(ValueView::Float(b)), env) == (Outcome {
            env,
            result: Ok(ValueView::Bit(float_equal(a, b))),
        }),
        dispatch(Op::Neq, ValueView::Float(a), Some(ValueView::Float(b)), env) == (Outcome {
            env,
            result: Ok(ValueView::Bit(!float_equal(a, b))),
        }),
{
    reveal_with_fuel(first_bad_arg, 3);
    let args = seq![ValueView::Float(a), ValueView::Float(b)];
    assert(Native::FloatEq.params().len() == 2);
    assert(Native::FloatNeq.params().len() == 2);
    assert(check_args(Native::FloatEq.params(), args) is None);
    assert(check_args(Native::FloatNeq.params(), args) is None);
}

/// The texts of a list from a place on are the texts of its tail from the
/// same place in the tail.
pub proof fn lemma_concat_shift(head: Seq<ValueView>, rest: Seq<ValueView>, i: int)
    requires
        0 <= i,
    ensures
        concat_texts(head + rest, head.len() + i) == concat_texts(rest, i),
    decreases rest.len() - i,
{
    if i < rest.len() {
        lemma_concat_shift(head, rest, i + 1);
        assert((head + rest)[head.len() + i] == rest[i]);
    }
}

/// A write expression with a target, in a program that has not bound the
/// name `write_io` to anything else: when the target evaluates to an
/// integer or a character array and the arguments evaluate, the expression
/// yields null and asks for exactly one write more. The write goes to the
/// descriptor that the integer names, or to the file that the character
/// array names, and its text is the text of every argument, whole and in
/// order. That sink has then received what it had received before, and
/// after it this text.
pub proof fn law_write_expression(
    target: Box<Expr>,
    args: Vec<Expr>,
    env: EnvView,
    fuel: nat,
    sink: SinkView,
)
    requires
        env.lookup("write_io"@) == Some(ValueView::Fn(FnView::Builtin(Native::WriteIo.builtin()))),
        eval_expr(*target, env, fuel).result is Ok,
        target_sink(eval_expr(*target, env, fuel).result->Ok_0) == Some(sink),
        eval_exprs(args@, 0, eval_expr(*target, env, fuel).env, fuel).result is Ok,
    ensures
        ({
            let after_args = eval_exprs(args@, 0, eval_expr(*target, env, fuel).env, fuel);
            let text = concat_texts(after_args.result->Ok_0, 0);
            let out = eval_expr(Expr::Write(WriteTy::Other(target), args), env, fuel);
            &&& out.result == Ok::<ValueView, AbortView>(ValueView::Null)
            &&& out.env == after_args.env.emit(OutputView { sink, text })
            &&& crate::frame::received(out.env.outputs, sink) == crate::frame::received(
                after_args.env.outputs,
                sink,
            ) + text
        }),
{
    let t = eval_expr(*target, env, fuel);
    let v = t.result->Ok_0;
    let a = eval_exprs(args@, 0, t.env, fuel);
    let rest = a.result->Ok_0;
    let all = seq![v] + rest;
    lemma_concat_shift(seq![v], rest, 0);
    assert(all[0] == v);
    assert(all.len() >= 1);
    let text = concat_texts(rest, 0);
    crate::frame::law_received_push(a.env.outputs, OutputView { sink, text }, sink);
    let b = Native::WriteIo.builtin();
    assert(b.fits(all.len()));
    assert(b.result(all) == Ok::<ValueView, AbortView>(ValueView::Null));
    assert(Native::WriteIo.output(all) == Some(OutputView { sink, text }));
    assert(b.effect(a.env, all) == a.env.emit(OutputView { sink, text }));
    let called = invoke_value(FnView::Builtin(b), a.env, all, fuel);
    assert(called.env == a.env.emit(OutputView { sink, text }));
    let whole = Expr::Write(WriteTy::Other(target), args);
    assert(crate::ast::semantics::write_name(WriteTy::Other(target)) == "write_io"@);
    assert(eval_expr(whole, env, fuel) == called.discard());
}

} // verus!
