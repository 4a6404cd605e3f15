//! The evaluator: each node of the syntax tree, run in an environment.

use vstd::prelude::*;
use vstd::string::*;
use crate::ast::semantics::{
    assign_rule, bind_params, dispatch, ended, enter, eval_block, eval_expr, eval_exprs,
    eval_stmt, finish, invalid_op, invoke_user, invoke_value, leave, limit_holds, run_file,
    run_loop, run_pass, with_globals, PassView,
};
use crate::ast::{
    Assign, AssignOp, AssignTy, Expr, File, FnCall, FnDef, Ident, Literal, Stmt, Type, WriteTy,
};
use crate::interp::model::{AbortView, ExceptionView, Fatal, FnView, Native, Op, ValueView};
use crate::interp::{
    result_view, validate_args, value_option_view, value_views, Abort, Array, Bit, Char, CharArray,
    Env, Exception, Float, Fn, Int, Value,
};

verus! {

/// The model of the outcome of a list of evaluations.
pub open spec fn list_view<'ip>(r: Result<Vec<Value<'ip>>, Abort>) -> Result<
    Seq<ValueView>,
    AbortView,
> {
    match r {
        Ok(vs) => Ok(value_views(vs@)),
        Err(a) => Err(a@),
    }
}

/// The model of the outcome of a limit evaluation.
pub open spec fn verdict_view(r: Result<bool, Abort>) -> Result<bool, AbortView> {
    match r {
        Ok(b) => Ok(b),
        Err(a) => Err(a@),
    }
}

/// Applies an operator: the left (or sole) operand is asked for a callable
/// that implements it; the operation is refused where there is none or
/// where it does not accept the right operand's tag; else the callable is
/// called with the operands.
pub fn apply_op<'ip>(op: Op, left: Value<'ip>, right: Option<Value<'ip>>, env: &mut Env<'ip>) -> (r:
    Result<Value<'ip>, Abort>)
    ensures
        final(env)@ == dispatch(op, left@, value_option_view(right), old(env)@).env,
        result_view(r) == dispatch(op, left@, value_option_view(right), old(env)@).result,
        final(env)@.scopes == old(env)@.scopes,
{
    let builtin = match left.get_op(op) {
        Some(Fn::Builtin(b)) => b,
        Some(Fn::User(_)) => vstd::pervasive::unreached(),
        None => {
            return Err(Abort::Raised(refuse_op(op, &left, &right)));
        },
    };
    let ghost l = left@;
    let mut args: Vec<Value<'ip>> = Vec::new();
    match right {
        Some(r) => {
            if builtin.args.len() >= 2 && !r.ty().same(&builtin.args[1]) {
                let right = Some(r);
                return Err(Abort::Raised(refuse_op(op, &left, &right)));
            }
            let ghost rv = r@;
            args.push(left);
            args.push(r);
            assert(value_views(args@) =~= seq![l, rv]);
        },
        None => {
            args.push(left);
            assert(value_views(args@) =~= seq![l]);
        },
    }
    if !builtin.fits(args.len()) {
        return Err(Abort::Fatal(Fatal::Arity));
    }
    builtin.invoke(env, args.as_slice())
}

/// The exception for an operator that the operands do not have.
pub fn refuse_op<'ip>(op: Op, left: &Value<'ip>, right: &Option<Value<'ip>>) -> (e: Exception)
    ensures
        e@ == invalid_op(op, left@, value_option_view(*right)),
{
    let right_ty = match right {
        Some(r) => Some(r.ty()),
        None => None,
    };
    Exception::InvalidOp(op, left.ty(), right_ty)
}

/// Ends a call with `last` as its value: the value's tag must be the
/// declared return type.
pub fn finish_call<'ip>(ret: &Type, last: Value<'ip>) -> (r: Result<Value<'ip>, Abort>)
    ensures
        result_view(r) == finish(ret@, last@),
{
    let ty = last.ty();
    if ty.same(ret) {
        Ok(last)
    } else {
        Err(Abort::Raised(Exception::InvalidType(ret.clone(), ty)))
    }
}

/// Binds an evaluated value as an assignment statement says.
pub fn assign<'ip>(
    ty: AssignTy,
    op: AssignOp,
    ident: &Ident,
    val: Value<'ip>,
    env: &mut Env<'ip>,
) -> (r: Result<Value<'ip>, Abort>)
    requires
        old(env)@.scopes.len() > 0,
    ensures
        final(env)@ == assign_rule(ty, op, ident@, val@, old(env)@).env,
        result_view(r) == assign_rule(ty, op, ident@, val@, old(env)@).result,
        final(env)@.scopes.len() == old(env)@.scopes.len(),
{
    match op {
        AssignOp::Eq => {
            match ty {
                AssignTy::Unique => {},
                AssignTy::CarryOver => {
                    if !env.is_first_iter() {
                        return Ok(Value::null());
                    }
                },
                AssignTy::Default => {
                    match env.lookup_var(ident.as_str()) {
                        Some(old_val) => {
                            let old_ty = old_val.ty();
                            let new_ty = val.ty();
                            if !old_ty.same(&new_ty) {
                                return Err(Abort::Raised(Exception::InvalidType(old_ty, new_ty)));
                            }
                        },
                        None => {
                            return Err(Abort::Raised(Exception::NameNotFound(ident.clone())));
                        },
                    }
                },
            }
            Ok(env.insert_var(ident.as_str(), val).clone())
        },
        _ => {
            let operator = match op {
                AssignOp::PlusEq => Op::Add,
                AssignOp::SubEq => Op::Sub,
                AssignOp::MulEq => Op::Mul,
                _ => Op::Div,
            };
            let old_val = match env.lookup_var(ident.as_str()) {
                Some(v) => v.clone(),
                None => {
                    return Err(Abort::Raised(Exception::NameNotFound(ident.clone())));
                },
            };
            let new_val = apply_op(operator, old_val, Some(val), env)?;
            Ok(env.insert_var(ident.as_str(), new_val).clone())
        },
    }
}

/// Evaluates a list of expressions from left to right.
#[verifier::loop_isolation(false)]
pub fn eval_list<'ip>(es: &'ip Vec<Expr>, env: &mut Env<'ip>, fuel: u64) -> (r: Result<
    Vec<Value<'ip>>,
    Abort,
>)
    ensures
        final(env)@ == eval_exprs(es@, 0, old(env)@, fuel as nat).env,
        list_view(r) == eval_exprs(es@, 0, old(env)@, fuel as nat).result,
        final(env)@.scopes.len() == old(env)@.scopes.len(),
    decreases fuel, 1int, es,
{
    let ghost goal = eval_exprs(es@, 0, old(env)@, fuel as nat);
    let mut vals: Vec<Value<'ip>> = Vec::new();
    let mut i: usize = 0;
    assert(goal.after(Seq::empty()) == goal) by {
        match goal.result {
            Ok(vs) => {
                assert(Seq::<ValueView>::empty() + vs =~= vs);
            },
            Err(_) => {},
        }
    }
    while i < es.len()
        invariant
            0 <= i <= es.len(),
            env@.scopes.len() == old(env)@.scopes.len(),
            goal == eval_exprs(es@, i as int, env@, fuel as nat).after(value_views(vals@)),
        decreases es.len() - i,
    {
        let ghost head = value_views(vals@);
        match es[i].interpret(env, fuel) {
            Err(abort) => {
                return Err(abort);
            },
            Ok(v) => {
                vals.push(v);
                proof {
                    let rest = eval_exprs(es@, i + 1, env@, fuel as nat);
                    assert(value_views(vals@) =~= head + seq![v@]);
                    match rest.result {
                        Ok(vs) => {
                            assert(head + (seq![v@] + vs) =~= value_views(vals@) + vs);
                        },
                        Err(_) => {},
                    }
                }
            },
        }
        i += 1;
    }
    proof {
        assert(value_views(vals@) + Seq::<ValueView>::empty() =~= value_views(vals@));
    }
    Ok(vals)
}

/// Executes a list of statements in order.
#[verifier::loop_isolation(false)]
pub fn run_block<'ip>(stmts: &'ip Vec<Stmt>, env: &mut Env<'ip>, fuel: u64) -> (r: Result<
    Value<'ip>,
    Abort,
>)
    requires
        old(env)@.scopes.len() > 0,
    ensures
        final(env)@ == eval_block(stmts@, 0, old(env)@, fuel as nat).env,
        result_view(r) == eval_block(stmts@, 0, old(env)@, fuel as nat).result,
        final(env)@.scopes.len() == old(env)@.scopes.len(),
    decreases fuel, 1int, stmts,
{
    let ghost goal = eval_block(stmts@, 0, old(env)@, fuel as nat);
    let mut i: usize = 0;
    while i < stmts.len()
        invariant
            0 <= i <= stmts.len(),
            env@.scopes.len() == old(env)@.scopes.len(),
            goal == eval_block(stmts@, i as int, env@, fuel as nat),
        decreases stmts.len() - i,
    {
        match stmts[i].interpret(env, fuel) {
            Err(abort) => {
                return Err(abort);
            },
            Ok(_) => {},
        }
        i += 1;
    }
    Ok(Value::null())
}

/// The state of a call after a pass over its body.
#[derive(Debug)]
pub enum Pass<'ip> {
    /// The limit did not hold: the call goes on with another pass.
    Running,
    /// The limit held after a statement whose value has the declared return
    /// type: the call has ended with that value.
    Terminated(Value<'ip>),
    /// The call has failed.
    Failed(Abort),
}

impl<'ip> View for Pass<'ip> {
    type V = PassView;

    open spec fn view(&self) -> PassView {
        match self {
            Pass::Running => PassView::Running,
            Pass::Terminated(v) => PassView::Terminated(v@),
            Pass::Failed(a) => PassView::Failed(a@),
        }
    }
}

/// The model of a pass state that may be absent.
pub open spec fn pass_option_view<'ip>(p: Option<Pass<'ip>>) -> Option<PassView> {
    match p {
        Some(p) => Some(p@),
        None => None,
    }
}

/// Says whether a limit evaluation ends the pass, and in which state.
pub fn end_pass<'ip>(ret: &Type, last: Value<'ip>, verdict: Result<bool, Abort>) -> (r: Option<
    Pass<'ip>,
>)
    ensures
        pass_option_view(r) == ended(ret@, last@, verdict_view(verdict)),
{
    match verdict {
        Err(abort) => Some(Pass::Failed(abort)),
        Ok(true) => match finish_call(ret, last) {
            Ok(v) => Some(Pass::Terminated(v)),
            Err(abort) => Some(Pass::Failed(abort)),
        },
        Ok(false) => None,
    }
}

impl<'ip> Fn<'ip> {
    /// Calls the callable with evaluated arguments. This is where the
    /// number of arguments is tested: a wrong number is fatal. A builtin
    /// runs once; a definition takes one unit of the budget.
    pub fn invoke(&self, env: &mut Env<'ip>, args: Vec<Value<'ip>>, fuel: u64) -> (r: Result<
        Value<'ip>,
        Abort,
    >)
        ensures
            final(env)@ == invoke_value(self@, old(env)@, value_views(args@), fuel as nat).env,
            result_view(r) == invoke_value(
                self@,
                old(env)@,
                value_views(args@),
                fuel as nat,
            ).result,
            final(env)@.scopes.len() == old(env)@.scopes.len(),
        decreases fuel, 0int,
    {
        match self {
            Fn::User(def) => {
                if args.len() != def.args.len() {
                    Err(Abort::Fatal(Fatal::Arity))
                } else if fuel == 0 {
                    Err(Abort::OutOfSteps)
                } else {
                    def.invoke(env, args, fuel - 1)
                }
            },
            Fn::Builtin(b) => {
                if !b.fits(args.len()) {
                    Err(Abort::Fatal(Fatal::Arity))
                } else {
                    b.invoke(env, args.as_slice())
                }
            },
        }
    }
}

impl Expr {
    /// Evaluates the expression.
    pub fn interpret<'ip>(&'ip self, env: &mut Env<'ip>, fuel: u64) -> (r: Result<
        Value<'ip>,
        Abort,
    >)
        ensures
            final(env)@ == eval_expr(*self, old(env)@, fuel as nat).env,
            result_view(r) == eval_expr(*self, old(env)@, fuel as nat).result,
            final(env)@.scopes.len() == old(env)@.scopes.len(),
        decreases fuel, 1int, self,
    {
        match self {
            Expr::FnCall(call) => call.interpret(env, fuel),
            Expr::Write(ty, args) => {
                let name = match ty {
                    WriteTy::Console => "write_console",
                    WriteTy::Error => "write_error",
                    WriteTy::RawFile => "write_raw_file",
                    WriteTy::Other(_) => "write_io",
                };
                let callee = match env.lookup_var(name) {
                    Some(v) => v.clone(),
                    None => {
                        return Err(Abort::Raised(Exception::NameNotFound(Ident::new(name))));
                    },
                };
                let f = match callee.downcast::<Fn<'ip>>() {
                    Ok(f) => f,
                    Err(e) => {
                        return Err(Abort::Raised(e));
                    },
                };
                let mut all: Vec<Value<'ip>> = Vec::new();
                match ty {
                    WriteTy::Other(target) => {
                        let t = target.interpret(env, fuel)?;
                        all.push(t);
                    },
                    _ => {},
                }
                let ghost head = value_views(all@);
                let mut rest = eval_list(args, env, fuel)?;
                let ghost tail = value_views(rest@);
                all.append(&mut rest);
                proof {
                    assert(value_views(all@) =~= head + tail);
                    match ty {
                        WriteTy::Other(_) => {
                            assert(head =~= seq![head[0]]);
                        },
                        _ => {
                            assert(head =~= Seq::empty());
                        },
                    }
                }
                f.invoke(env, all, fuel)?;
                Ok(Value::null())
            },
            Expr::Literal(lit) => lit.interpret(env, fuel),
            Expr::Ident(name) => match env.lookup_var(name.as_str()) {
                Some(v) => Ok(v.clone()),
                None => Err(Abort::Raised(Exception::NameNotFound(name.clone()))),
            },
            Expr::UnOp(op, operand) => {
                let v = operand.interpret(env, fuel)?;
                apply_op(Op::from_un(*op), v, None, env)
            },
            Expr::BinOp(left, op, right) => {
                let l = left.interpret(env, fuel)?;
                let r = right.interpret(env, fuel)?;
                apply_op(Op::from_bin(*op), l, Some(r), env)
            },
        }
    }
}

impl FnCall {
    /// Evaluates the call: the callee is resolved first, then the
    /// arguments are evaluated from left to right, then the call is made.
    pub fn interpret<'ip>(&'ip self, env: &mut Env<'ip>, fuel: u64) -> (r: Result<
        Value<'ip>,
        Abort,
    >)
        ensures
            final(env)@ == eval_expr(Expr::FnCall(*self), old(env)@, fuel as nat).env,
            result_view(r) == eval_expr(Expr::FnCall(*self), old(env)@, fuel as nat).result,
            final(env)@.scopes.len() == old(env)@.scopes.len(),
        decreases fuel, 1int, self,
    {
        let callee = match env.lookup_var(self.name.as_str()) {
            Some(v) => v.clone(),
            None => {
                return Err(Abort::Raised(Exception::NameNotFound(self.name.clone())));
            },
        };
        let f = match callee.downcast::<Fn<'ip>>() {
            Ok(f) => f,
            Err(e) => {
                return Err(Abort::Raised(e));
            },
        };
        let args = eval_list(&self.args, env, fuel)?;
        f.invoke(env, args, fuel)
    }
}

impl Literal {
    /// Evaluates the literal.
    pub fn interpret<'ip>(&'ip self, env: &mut Env<'ip>, fuel: u64) -> (r: Result<
        Value<'ip>,
        Abort,
    >)
        ensures
            final(env)@ == eval_expr(Expr::Literal(*self), old(env)@, fuel as nat).env,
            result_view(r) == eval_expr(Expr::Literal(*self), old(env)@, fuel as nat).result,
            final(env)@.scopes.len() == old(env)@.scopes.len(),
        decreases fuel, 1int, self,
    {
        match self {
            Literal::Int(i) => Ok(Value::new(Int::new(*i))),
            Literal::Float(bits) => Ok(Value::new(Float::new(*bits))),
            Literal::Char(c) => Ok(Value::new(Char::new(*c))),
            Literal::CharArray(s) => {
                let n = s.as_str().unicode_len();
                if n < 2 {
                    Err(Abort::Fatal(Fatal::Literal))
                } else {
                    let inner = s.as_str().substring_char(1, n - 1);
                    Ok(Value::new(CharArray::new(String::from_str(inner))))
                }
            },
            Literal::Bit(b) => Ok(Value::new(Bit::new(*b))),
            Literal::Fn(def) => Ok(Value::new(Fn::User(def))),
            Literal::Array(elems) => {
                let vals = eval_list(elems, env, fuel)?;
                match Array::new(vals) {
                    Ok(a) => Ok(Value::new(a)),
                    Err(e) => Err(Abort::Raised(e)),
                }
            },
        }
    }
}

impl Assign {
    /// Executes the assignment: the right-hand side is evaluated, then the
    /// value is bound as the assignment's modifier and operator say.
    pub fn interpret<'ip>(&'ip self, env: &mut Env<'ip>, fuel: u64) -> (r: Result<
        Value<'ip>,
        Abort,
    >)
        requires
            old(env)@.scopes.len() > 0,
        ensures
            final(env)@ == eval_stmt(Stmt::Assign(*self), old(env)@, fuel as nat).env,
            result_view(r) == eval_stmt(Stmt::Assign(*self), old(env)@, fuel as nat).result,
            final(env)@.scopes.len() == old(env)@.scopes.len(),
        decreases fuel, 1int, self,
    {
        let val = self.val.interpret(env, fuel)?;
        assign(self.ty, self.assign_op, &self.ident, val, env)
    }
}

impl Stmt {
    /// Executes the statement.
    pub fn interpret<'ip>(&'ip self, env: &mut Env<'ip>, fuel: u64) -> (r: Result<
        Value<'ip>,
        Abort,
    >)
        requires
            old(env)@.scopes.len() > 0,
        ensures
            final(env)@ == eval_stmt(*self, old(env)@, fuel as nat).env,
            result_view(r) == eval_stmt(*self, old(env)@, fuel as nat).result,
            final(env)@.scopes.len() == old(env)@.scopes.len(),
        decreases fuel, 1int, self,
    {
        match self {
            Stmt::FnDef(def) => match def.define(env) {
                Ok(_) => Ok(Value::null()),
                Err(e) => Err(Abort::Raised(e)),
            },
            Stmt::Assign(a) => a.interpret(env, fuel),
            Stmt::Sync(stmts) => {
                env.set_sync(true);
                run_block(stmts, env, fuel)
            },
            Stmt::Once(stmts) => {
                if env.is_first_iter() {
                    run_block(stmts, env, fuel)
                } else {
                    Ok(Value::null())
                }
            },
            Stmt::Expr(e) => e.interpret(env, fuel),
            Stmt::TypeDef(name, ty) => {
                env.insert_var(name.as_str(), Value::new(crate::interp::ty::Type::new(ty.clone())));
                Ok(Value::null())
            },
        }
    }
}

impl Type {
    /// Checks that a value has this tag. The environment is not changed.
    pub fn validate<'ip>(&self, _env: &mut Env<'ip>, val: &Value<'ip>) -> (r: Result<(), Exception>)
        ensures
            r is Ok <==> self@ == val@.ty(),
            r is Err ==> r->Err_0@ == ExceptionView::InvalidType(self@, val@.ty()),
            final(_env)@ == old(_env)@,
    {
        let ty = val.ty();
        if self.same(&ty) {
            Ok(())
        } else {
            Err(Exception::InvalidType(self.clone(), ty))
        }
    }
}

impl FnDef {
    /// Binds the definition's name to the definition in the innermost scope.
    pub fn define<'ip>(&'ip self, env: &mut Env<'ip>) -> (r: Result<(), Exception>)
        requires
            old(env)@.scopes.len() > 0,
        ensures
            r is Ok,
            final(env)@ == old(env)@.bind(self.name@, ValueView::Fn(FnView::User(*self))),
    {
        env.insert_var(self.name.as_str(), Value::new(Fn::User(self)));
        Ok(())
    }

    /// Evaluates the limit expression and says whether the call ends.
    fn limit_reached<'ip>(&'ip self, env: &mut Env<'ip>, fuel: u64) -> (r: Result<bool, Abort>)
        ensures
            final(env)@ == eval_expr(*self.limit, old(env)@, fuel as nat).env,
            verdict_view(r) == limit_holds(eval_expr(*self.limit, old(env)@, fuel as nat).result),
            final(env)@.scopes.len() == old(env)@.scopes.len(),
        decreases fuel, 1int, self,
    {
        match self.limit.interpret(env, fuel) {
            Ok(v) => match v.downcast::<Bit>() {
                Ok(b) => Ok(b.val()),
                Err(_) => Ok(false),
            },
            Err(Abort::Raised(_)) => Ok(false),
            Err(abort) => Err(abort),
        }
    }

    /// Makes one pass over the body in the environment of a call that has
    /// started, and says in which state the pass leaves the call.
    #[verifier::loop_isolation(false)]
    pub fn pass<'ip>(&'ip self, env: &mut Env<'ip>, fuel: u64) -> (r: Pass<'ip>)
        requires
            old(env)@.scopes.len() > 0,
        ensures
            final(env)@ == run_pass(*self, old(env)@, fuel as nat, 0).env,
            r@ == run_pass(*self, old(env)@, fuel as nat, 0).state,
            final(env)@.scopes.len() == old(env)@.scopes.len(),
        decreases fuel, 2int, self,
    {
        let ghost goal = run_pass(*self, old(env)@, fuel as nat, 0);
        if self.stmts.len() == 0 {
            let verdict = self.limit_reached(env, fuel);
            match end_pass(&self.ret, Value::null(), verdict) {
                Some(state) => {
                    return state;
                },
                None => {},
            }
        } else {
            let mut i: usize = 0;
            while i < self.stmts.len()
                invariant
                    0 <= i <= self.stmts.len(),
                    self.stmts.len() > 0,
                    env@.scopes.len() == old(env)@.scopes.len(),
                    goal == run_pass(*self, env@, fuel as nat, i as int),
                decreases self.stmts.len() - i,
            {
                let val = match self.stmts[i].interpret(env, fuel) {
                    Ok(v) => v,
                    Err(abort) => {
                        return Pass::Failed(abort);
                    },
                };
                let verdict = self.limit_reached(env, fuel);
                match end_pass(&self.ret, val, verdict) {
                    Some(state) => {
                        return state;
                    },
                    None => {},
                }
                i += 1;
            }
        }
        env.set_first_iter(false);
        Pass::Running
    }

    /// Makes pass after pass over the body in the environment of a call that
    /// has started, until the call has ended or the budget of passes is
    /// spent.
    #[verifier::loop_isolation(false)]
    fn run<'ip>(&'ip self, env: &mut Env<'ip>, fuel: u64) -> (r: Result<Value<'ip>, Abort>)
        requires
            old(env)@.scopes.len() > 0,
        ensures
            final(env)@ == run_loop(*self, old(env)@, fuel as nat, fuel as nat).env,
            result_view(r) == run_loop(*self, old(env)@, fuel as nat, fuel as nat).result,
            final(env)@.scopes.len() == old(env)@.scopes.len(),
        decreases fuel, 3int, self,
    {
        let ghost goal = run_loop(*self, old(env)@, fuel as nat, fuel as nat);
        let mut passes: u64 = fuel;
        while passes > 0
            invariant
                env@.scopes.len() == old(env)@.scopes.len(),
                goal == run_loop(*self, env@, fuel as nat, passes as nat),
            decreases passes,
        {
            match self.pass(env, fuel) {
                Pass::Running => {},
                Pass::Terminated(v) => {
                    return Ok(v);
                },
                Pass::Failed(abort) => {
                    return Err(abort);
                },
            }
            passes -= 1;
        }
        Err(Abort::OutOfSteps)
    }

    /// Calls the definition with evaluated arguments, which are as many as
    /// the declared parameters.
    ///
    /// The arguments are checked against the declared parameters; the body
    /// then runs in a scope of its own, with the parameters bound, until the
    /// limit expression yields the bit `1b`. The budget `fuel` bounds the
    /// number of passes over the body and the depth of the calls inside it.
    #[verifier::loop_isolation(false)]
    pub fn invoke<'ip>(&'ip self, env: &mut Env<'ip>, args: Vec<Value<'ip>>, fuel: u64) -> (r:
        Result<Value<'ip>, Abort>)
        requires
            args.len() == self.args.len(),
        ensures
            final(env)@ == invoke_user(*self, old(env)@, value_views(args@), fuel as nat).env,
            result_view(r) == invoke_user(*self, old(env)@, value_views(args@), fuel as nat).result,
            final(env)@.scopes.len() == old(env)@.scopes.len(),
        decreases fuel, 4int,
    {
        let params = self.arg_tys();
        match validate_args(&params, args.as_slice()) {
            Err(abort) => {
                return Err(abort);
            },
            Ok(_) => {},
        }
        let first_iter = env.is_first_iter();
        let sync = env.is_sync();
        env.push_scope();
        env.set_first_iter(true);
        env.set_sync(false);
        let ghost views = value_views(args@);
        let ghost start = enter(*self, views, old(env)@);
        let mut i: usize = 0;
        while i < self.args.len()
            invariant
                0 <= i <= self.args.len(),
                self.args.len() == args.len(),
                env@.scopes.len() == old(env)@.scopes.len() + 1,
                start == bind_params(self.args@, views, env@, i as int),
            decreases self.args.len() - i,
        {
            env.insert_var(self.args[i].name.as_str(), args[i].clone());
            i += 1;
        }
        let r = self.run(env, fuel);
        let ghost inner = env@;
        env.pop_scope();
        env.set_first_iter(first_iter);
        env.set_sync(sync);
        assert(env@ == leave(inner, old(env)@));
        r
    }
}

/// Makes the global scope of a program: a new scope with the name `int`
/// bound to the integer tag and the four write builtins bound to their
/// names. A run calls this once, before its first statement.
pub fn standard_library<'ip>(env: &mut Env<'ip>)
    ensures
        final(env)@ == with_globals(old(env)@),
{
    env.push_scope();
    env.insert_var("int", Value::new(crate::interp::ty::Type::new(Type::named("int"))));
    env.insert_var("write_console", Value::new(Fn::Builtin(Native::WriteConsole.make())));
    env.insert_var("write_error", Value::new(Fn::Builtin(Native::WriteError.make())));
    env.insert_var("write_raw_file", Value::new(Fn::Builtin(Native::WriteRawFile.make())));
    env.insert_var("write_io", Value::new(Fn::Builtin(Native::WriteIo.make())));
}

impl File {
    /// Runs the program: the global scope is made and filled with the
    /// builtins, and the top-level statements run in order.
    pub fn interpret<'ip>(&'ip self, env: &mut Env<'ip>, fuel: u64) -> (r: Result<(), Abort>)
        ensures
            final(env)@ == run_file(self.stmts@, old(env)@, fuel as nat).env,
            match r {
                Ok(_) => run_file(self.stmts@, old(env)@, fuel as nat).result is Ok,
                Err(a) => run_file(self.stmts@, old(env)@, fuel as nat).result == Err::<
                    ValueView,
                    AbortView,
                >(a@),
            },
    {
        standard_library(env);
        match run_block(&self.stmts, env, fuel) {
            Ok(_) => Ok(()),
            Err(abort) => Err(abort),
        }
    }
}

} // verus!
