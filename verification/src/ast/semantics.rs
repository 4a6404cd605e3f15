//! What a program means: the outcome of evaluating each node of the syntax
//! tree in an environment, under a step budget.
//!
//! The budget bounds how deep calls nest and how many passes one call makes
//! over its body. An evaluation that would need more ends in `OutOfSteps`;
//! one that ends otherwise ends the same way under every larger budget.

use vstd::prelude::*;
use crate::ast::{
    arg_type_views, Assign, AssignOp, AssignTy, Expr, FnArg, FnCall, FnDef, Literal, Stmt,
    TypeView, WriteTy,
};
use crate::interp::model::{
    array_of, check_args, refuse, tag_any_fn, tag_int, AbortView, EnvView, ExceptionView, Fatal,
    FnView, Native, Op, ValueView,
};

verus! {

/// The outcome of evaluating one node: the environment afterwards, and the
/// value or what stopped the evaluation.
pub struct Outcome {
    pub env: EnvView,
    pub result: Result<ValueView, AbortView>,
}

/// The outcome of evaluating a list of expressions.
pub struct ListOutcome {
    pub env: EnvView,
    pub result: Result<Seq<ValueView>, AbortView>,
}

impl Outcome {
    /// The same outcome with null in place of the value.
    pub open spec fn discard(self) -> Outcome {
        Outcome {
            env: self.env,
            result: match self.result {
                Ok(_) => Ok(ValueView::Null),
                Err(a) => Err(a),
            },
        }
    }
}

impl ListOutcome {
    /// The same outcome with `head` in front of the values.
    pub open spec fn after(self, head: Seq<ValueView>) -> ListOutcome {
        ListOutcome {
            env: self.env,
            result: match self.result {
                Ok(vs) => Ok(head + vs),
                Err(a) => Err(a),
            },
        }
    }
}

/// The exception for an operator that the operands do not have.
pub open spec fn invalid_op(op: Op, left: ValueView, right: Option<ValueView>) -> ExceptionView {
    ExceptionView::InvalidOp(
        op,
        left.ty(),
        match right {
            Some(r) => Some(r.ty()),
            None => None,
        },
    )
}

/// The outcome of applying `op` to `left` and, for a binary operator, to
/// `right`.
///
/// The left operand is asked for the operator. If it has none, or if the
/// operator it has does not accept the tag of the right operand, the
/// operation is refused with `InvalidOp`, which names the operator and the
/// operands' tags: no operand is ever promoted. Otherwise the operator's
/// callable is called with the operands.
pub open spec fn dispatch(
    op: Op,
    left: ValueView,
    right: Option<ValueView>,
    env: EnvView,
) -> Outcome {
    match left.operator_builtin(op) {
        None => raised(env, invalid_op(op, left, right)),
        Some(b) => match right {
            Some(r) => if b.accepts(r) {
                Outcome { env: b.effect(env, seq![left, r]), result: b.result(seq![left, r]) }
            } else {
                raised(env, invalid_op(op, left, right))
            },
            None => Outcome { env: b.effect(env, seq![left]), result: b.result(seq![left]) },
        },
    }
}

/// The operator that a compound assignment applies.
pub open spec fn compound_op(op: AssignOp) -> Op {
    match op {
        AssignOp::PlusEq => Op::Add,
        AssignOp::SubEq => Op::Sub,
        AssignOp::MulEq => Op::Mul,
        _ => Op::Div,
    }
}

/// The outcome of binding `name` to `value` in the innermost scope.
pub open spec fn bound(env: EnvView, name: Seq<char>, value: ValueView) -> Outcome {
    Outcome { env: env.bind(name, value), result: Ok(value) }
}

/// The outcome of raising an exception.
pub open spec fn raised(env: EnvView, e: ExceptionView) -> Outcome {
    Outcome { env, result: Err(AbortView::Raised(e)) }
}

/// The outcome of an assignment of `value` to `name`.
///
/// A plain assignment follows its modifier: `unique` always binds;
/// `carryover` binds in the first iteration and otherwise does nothing and
/// yields null; without a modifier the name must be bound to a value of the
/// same tag. A compound assignment needs a binding, applies its operator to
/// the old and the new value, and always binds the result.
pub open spec fn assign_rule(
    ty: AssignTy,
    op: AssignOp,
    name: Seq<char>,
    value: ValueView,
    env: EnvView,
) -> Outcome {
    match op {
        AssignOp::Eq => match ty {
            AssignTy::Unique => bound(env, name, value),
            AssignTy::CarryOver => if env.first_iter {
                bound(env, name, value)
            } else {
                Outcome { env, result: Ok(ValueView::Null) }
            },
            AssignTy::Default => match env.lookup(name) {
                None => raised(env, ExceptionView::NameNotFound(name)),
                Some(old) => if old.ty() != value.ty() {
                    raised(env, ExceptionView::InvalidType(old.ty(), value.ty()))
                } else {
                    bound(env, name, value)
                },
            },
        },
        _ => match env.lookup(name) {
            None => raised(env, ExceptionView::NameNotFound(name)),
            Some(old) => {
                let applied = dispatch(compound_op(op), old, Some(value), env);
                match applied.result {
                    Ok(v) => bound(applied.env, name, v),
                    Err(a) => applied,
                }
            },
        },
    }
}

/// The name of the builtin that a write expression calls.
pub open spec fn write_name(ty: WriteTy) -> Seq<char> {
    match ty {
        WriteTy::Console => "write_console"@,
        WriteTy::Error => "write_error"@,
        WriteTy::RawFile => "write_raw_file"@,
        WriteTy::Other(_) => "write_io"@,
    }
}

/// What a limit expression decides: only the bit `1b` ends the call; any
/// other value, and any exception, lets it go on. A fatal condition or the
/// end of the budget stops everything.
pub open spec fn limit_holds(r: Result<ValueView, AbortView>) -> Result<bool, AbortView> {
    match r {
        Ok(ValueView::Bit(true)) => Ok(true),
        Ok(_) => Ok(false),
        Err(AbortView::Raised(_)) => Ok(false),
        Err(a) => Err(a),
    }
}

/// The result of a call that ends with `last` as the value of the statement
/// that ran last (null where none ran): that value, if its tag is the
/// declared return type, and else an exception that names the declared type
/// and the value's tag.
pub open spec fn finish(ret: TypeView, last: ValueView) -> Result<ValueView, AbortView> {
    if last.ty() == ret {
        Ok(last)
    } else {
        Err(AbortView::Raised(ExceptionView::InvalidType(ret, last.ty())))
    }
}

/// The environment with the parameters from `i` on bound to the arguments.
pub open spec fn bind_params(
    params: Seq<FnArg>,
    args: Seq<ValueView>,
    env: EnvView,
    i: int,
) -> EnvView
    decreases params.len() - i,
{
    if 0 <= i < params.len() {
        bind_params(params, args, env.bind(params[i].name@, args[i]), i + 1)
    } else {
        env
    }
}

/// The environment in which a call starts: one new scope with the
/// parameters bound, the first-iteration flag set and the sync flag clear.
pub open spec fn enter(def: FnDef, args: Seq<ValueView>, env: EnvView) -> EnvView {
    bind_params(def.args@, args, env.push_scope().set_first_iter(true).set_sync(false), 0)
}

/// The environment after a call: the call's scope is gone and the caller's
/// flags are back; the writes stay.
pub open spec fn leave(inner: EnvView, caller: EnvView) -> EnvView {
    EnvView {
        sync: caller.sync,
        first_iter: caller.first_iter,
        scopes: inner.scopes.drop_last(),
        outputs: inner.outputs,
    }
}

/// The value of a literal that needs no evaluation; `None` for an array.
pub open spec fn literal_value(lit: Literal) -> Option<Result<ValueView, AbortView>> {
    match lit {
        Literal::Int(i) => Some(Ok(ValueView::Int(i as int))),
        Literal::Float(bits) => Some(Ok(ValueView::Float(bits))),
        Literal::Char(c) => Some(Ok(ValueView::Char(c))),
        Literal::CharArray(s) => Some(
            if s@.len() >= 2 {
                Ok(ValueView::CharArray(s@.subrange(1, s@.len() - 1)))
            } else {
                Err(AbortView::Fatal(Fatal::Literal))
            },
        ),
        Literal::Bit(b) => Some(Ok(ValueView::Bit(b))),
        Literal::Fn(def) => Some(Ok(ValueView::Fn(FnView::User(def)))),
        Literal::Array(_) => None,
    }
}

/// The array made of evaluated elements, or the exception that refuses them.
pub open spec fn array_result(items: Seq<ValueView>) -> Result<ValueView, AbortView> {
    match array_of(items) {
        Ok(v) => Ok(v),
        Err(e) => Err(AbortView::Raised(e)),
    }
}

/// The outcome of evaluating an expression.
pub open spec fn eval_expr(e: Expr, env: EnvView, fuel: nat) -> Outcome
    decreases fuel, 1int, e,
{
    match e {
        Expr::FnCall(call) => match env.lookup(call.name@) {
            None => raised(env, ExceptionView::NameNotFound(call.name@)),
            Some(ValueView::Fn(f)) => {
                let a = eval_exprs(call.args@, 0, env, fuel);
                match a.result {
                    Err(abort) => Outcome { env: a.env, result: Err(abort) },
                    Ok(args) => invoke_value(f, a.env, args, fuel),
                }
            },
            Some(other) => Outcome { env, result: Err(refuse(tag_any_fn(), other)) },
        },
        Expr::Write(ty, args) => match env.lookup(write_name(ty)) {
            None => raised(env, ExceptionView::NameNotFound(write_name(ty))),
            Some(ValueView::Fn(f)) => {
                let t = match ty {
                    WriteTy::Other(target) => {
                        let o = eval_expr(*target, env, fuel);
                        ListOutcome {
                            env: o.env,
                            result: match o.result {
                                Ok(v) => Ok(seq![v]),
                                Err(abort) => Err(abort),
                            },
                        }
                    },
                    _ => ListOutcome { env, result: Ok(Seq::empty()) },
                };
                match t.result {
                    Err(abort) => Outcome { env: t.env, result: Err(abort) },
                    Ok(head) => {
                        let a = eval_exprs(args@, 0, t.env, fuel);
                        match a.result {
                            Err(abort) => Outcome { env: a.env, result: Err(abort) },
                            Ok(rest) => invoke_value(f, a.env, head + rest, fuel).discard(),
                        }
                    },
                }
            },
            Some(other) => Outcome { env, result: Err(refuse(tag_any_fn(), other)) },
        },
        Expr::Literal(lit) => match lit {
            Literal::Array(elems) => {
                let a = eval_exprs(elems@, 0, env, fuel);
                match a.result {
                    Err(abort) => Outcome { env: a.env, result: Err(abort) },
                    Ok(items) => Outcome { env: a.env, result: array_result(items) },
                }
            },
            _ => Outcome { env, result: literal_value(lit).unwrap() },
        },
        Expr::Ident(name) => match env.lookup(name@) {
            Some(v) => Outcome { env, result: Ok(v) },
            None => raised(env, ExceptionView::NameNotFound(name@)),
        },
        Expr::UnOp(op, operand) => {
            let o = eval_expr(*operand, env, fuel);
            match o.result {
                Err(abort) => o,
                Ok(v) => dispatch(Op::of_un(op), v, None, o.env),
            }
        },
        Expr::BinOp(left, op, right) => {
            let l = eval_expr(*left, env, fuel);
            match l.result {
                Err(abort) => l,
                Ok(lv) => {
                    let r = eval_expr(*right, l.env, fuel);
                    match r.result {
                        Err(abort) => r,
                        Ok(rv) => dispatch(Op::of_bin(op), lv, Some(rv), r.env),
                    }
                },
            }
        },
    }
}

/// The outcome of evaluating the expressions from `i` on, left to right.
pub open spec fn eval_exprs(es: Seq<Expr>, i: int, env: EnvView, fuel: nat) -> ListOutcome
    decreases fuel, 1int, es, es.len() - i,
{
    if 0 <= i < es.len() {
        let h = eval_expr(es[i], env, fuel);
        match h.result {
            Err(abort) => ListOutcome { env: h.env, result: Err(abort) },
            Ok(v) => eval_exprs(es, i + 1, h.env, fuel).after(seq![v]),
        }
    } else {
        ListOutcome { env, result: Ok(Seq::empty()) }
    }
}

/// The outcome of calling a callable with evaluated arguments. A wrong
/// number of arguments is fatal. A builtin runs once; a definition takes
/// one unit of the budget.
pub open spec fn invoke_value(f: FnView, env: EnvView, args: Seq<ValueView>, fuel: nat) -> Outcome
    decreases fuel, 0int,
{
    match f {
        FnView::Builtin(b) => Outcome { env: b.effect(env, args), result: b.result(args) },
        FnView::User(def) => if args.len() != def.args.len() {
            Outcome { env, result: Err(AbortView::Fatal(Fatal::Arity)) }
        } else if fuel == 0 {
            Outcome { env, result: Err(AbortView::OutOfSteps) }
        } else {
            invoke_user(def, env, args, (fuel - 1) as nat)
        },
    }
}

/// The outcome of calling a definition: the arguments are checked against
/// the declared parameters, the body runs in a scope of its own until the
/// limit holds, and the scope is gone afterwards however the call ended.
pub open spec fn invoke_user(def: FnDef, env: EnvView, args: Seq<ValueView>, fuel: nat) -> Outcome
    decreases fuel, 4int,
{
    match check_args(arg_type_views(def.args@), args) {
        Some(abort) => Outcome { env, result: Err(abort) },
        None => {
            let out = run_loop(def, enter(def, args, env), fuel, fuel);
            Outcome { env: leave(out.env, env), result: out.result }
        },
    }
}

/// The state of a call after a pass over its body: it goes on with another
/// pass, or it has ended with a value, or it has failed.
pub enum PassView {
    Running,
    Terminated(ValueView),
    Failed(AbortView),
}

/// The outcome of a pass: the environment afterwards, and the state of the
/// call.
pub struct PassOutcome {
    pub env: EnvView,
    pub state: PassView,
}

/// The state in which a limit evaluation leaves a call whose last statement
/// gave `last`, if it ends the pass: a limit that holds ends the call, with
/// `last` if its tag is the declared return type and with a failure if not;
/// a limit that does not hold ends nothing.
pub open spec fn ended(ret: TypeView, last: ValueView, verdict: Result<bool, AbortView>) -> Option<
    PassView,
> {
    match verdict {
        Err(abort) => Some(PassView::Failed(abort)),
        Ok(true) => Some(
            match finish(ret, last) {
                Ok(v) => PassView::Terminated(v),
                Err(abort) => PassView::Failed(abort),
            },
        ),
        Ok(false) => None,
    }
}

/// The outcome of one pass over a body, from statement `i` on.
///
/// After every statement the limit is evaluated, and the call ends as soon
/// as it holds, with the value of that statement. A pass that reaches the
/// end of the body clears the first-iteration flag and leaves the call
/// running. A body without statements evaluates the limit once.
pub open spec fn run_pass(def: FnDef, env: EnvView, fuel: nat, i: int) -> PassOutcome
    decreases fuel, 2int, def, def.stmts.len() - i,
{
    if def.stmts.len() == 0 {
        let l = eval_expr(*def.limit, env, fuel);
        match ended(def.ret@, ValueView::Null, limit_holds(l.result)) {
            Some(state) => PassOutcome { env: l.env, state },
            None => PassOutcome { env: l.env.set_first_iter(false), state: PassView::Running },
        }
    } else if 0 <= i < def.stmts.len() {
        let s = eval_stmt(def.stmts[i], env, fuel);
        match s.result {
            Err(abort) => PassOutcome { env: s.env, state: PassView::Failed(abort) },
            Ok(v) => {
                let l = eval_expr(*def.limit, s.env, fuel);
                match ended(def.ret@, v, limit_holds(l.result)) {
                    Some(state) => PassOutcome { env: l.env, state },
                    None => run_pass(def, l.env, fuel, i + 1),
                }
            },
        }
    } else {
        PassOutcome { env: env.set_first_iter(false), state: PassView::Running }
    }
}

/// The outcome of the passes over a body: pass follows pass while the call
/// is running, up to `passes` passes.
pub open spec fn run_loop(def: FnDef, env: EnvView, fuel: nat, passes: nat) -> Outcome
    decreases fuel, 3int, def, passes,
{
    if passes == 0 {
        Outcome { env, result: Err(AbortView::OutOfSteps) }
    } else {
        let p = run_pass(def, env, fuel, 0);
        match p.state {
            PassView::Running => run_loop(def, p.env, fuel, (passes - 1) as nat),
            PassView::Terminated(v) => Outcome { env: p.env, result: Ok(v) },
            PassView::Failed(abort) => Outcome { env: p.env, result: Err(abort) },
        }
    }
}

/// The outcome of executing a statement.
pub open spec fn eval_stmt(s: Stmt, env: EnvView, fuel: nat) -> Outcome
    decreases fuel, 1int, s,
{
    match s {
        Stmt::FnDef(def) => Outcome {
            env: env.bind(def.name@, ValueView::Fn(FnView::User(def))),
            result: Ok(ValueView::Null),
        },
        Stmt::Assign(a) => {
            let r = eval_expr(a.val, env, fuel);
            match r.result {
                Err(abort) => r,
                Ok(v) => assign_rule(a.ty, a.assign_op, a.ident@, v, r.env),
            }
        },
        Stmt::Once(stmts) => if env.first_iter {
            eval_block(stmts@, 0, env, fuel)
        } else {
            Outcome { env, result: Ok(ValueView::Null) }
        },
        Stmt::Sync(stmts) => eval_block(stmts@, 0, env.set_sync(true), fuel),
        Stmt::Expr(e) => eval_expr(e, env, fuel),
        Stmt::TypeDef(name, ty) => Outcome {
            env: env.bind(name@, ValueView::Type(ty@)),
            result: Ok(ValueView::Null),
        },
    }
}

/// The outcome of executing the statements from `i` on, in order: null, or
/// what stopped the first statement that did not finish.
pub open spec fn eval_block(stmts: Seq<Stmt>, i: int, env: EnvView, fuel: nat) -> Outcome
    decreases fuel, 1int, stmts, stmts.len() - i,
{
    if 0 <= i < stmts.len() {
        let s = eval_stmt(stmts[i], env, fuel);
        match s.result {
            Err(abort) => s,
            Ok(_) => eval_block(stmts, i + 1, s.env, fuel),
        }
    } else {
        Outcome { env, result: Ok(ValueView::Null) }
    }
}

/// The global scope before the first statement of a program runs: the name
/// `int` bound to the integer tag, and the four write builtins.
pub open spec fn with_globals(env: EnvView) -> EnvView {
    env.push_scope().bind("int"@, ValueView::Type(tag_int())).bind(
        "write_console"@,
        ValueView::Fn(FnView::Builtin(Native::WriteConsole.builtin())),
    ).bind("write_error"@, ValueView::Fn(FnView::Builtin(Native::WriteError.builtin()))).bind(
        "write_raw_file"@,
        ValueView::Fn(FnView::Builtin(Native::WriteRawFile.builtin())),
    ).bind("write_io"@, ValueView::Fn(FnView::Builtin(Native::WriteIo.builtin())))
}

/// The outcome of running a whole program.
pub open spec fn run_file(stmts: Seq<Stmt>, env: EnvView, fuel: nat) -> Outcome {
    eval_block(stmts, 0, with_globals(env), fuel)
}

} // verus!
