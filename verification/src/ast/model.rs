//! The mathematical model of the syntax tree: the same tree with sequences
//! in place of vectors and strings.

use vstd::prelude::*;
use crate::ast::{
    Assign, AssignOp, AssignTy, BinOp, Expr, File, FnArg, FnCall, FnDef, Literal, Stmt,
    TypeView, UnOp, WriteTy,
};

verus! {

pub struct FnArgView {
    pub name: Seq<char>,
    pub ty: TypeView,
}

pub struct FnCallView {
    pub name: Seq<char>,
    pub args: Seq<ExprView>,
}

pub enum WriteTyView {
    Console,
    Error,
    RawFile,
    Other(Box<ExprView>),
}

pub enum LiteralView {
    Int(int),
    Float(u64),
    Char(char),
    CharArray(Seq<char>),
    Bit(bool),
    Fn(Box<FnDefView>),
    Array(Seq<ExprView>),
}

pub enum ExprView {
    FnCall(FnCallView),
    Write(WriteTyView, Seq<ExprView>),
    Literal(LiteralView),
    Ident(Seq<char>),
    UnOp(UnOp, Box<ExprView>),
    BinOp(Box<ExprView>, BinOp, Box<ExprView>),
}

pub struct AssignView {
    pub ty: AssignTy,
    pub ident: Seq<char>,
    pub assign_op: AssignOp,
    pub val: ExprView,
}

pub struct FnDefView {
    pub id: u64,
    pub name: Seq<char>,
    pub ret: TypeView,
    pub args: Seq<FnArgView>,
    pub limit: ExprView,
    pub stmts: Seq<StmtView>,
}

pub enum StmtView {
    FnDef(FnDefView),
    Assign(AssignView),
    Once(Seq<StmtView>),
    Sync(Seq<StmtView>),
    Expr(ExprView),
    TypeDef(Seq<char>, TypeView),
}

pub struct FileView {
    pub stmts: Seq<StmtView>,
}

impl View for FnArg {
    type V = FnArgView;

    open spec fn view(&self) -> FnArgView {
        FnArgView { name: self.name@, ty: self.ty@ }
    }
}

/// The models of a list of parameters, in order.
pub open spec fn fn_arg_views(args: Seq<FnArg>) -> Seq<FnArgView> {
    Seq::new(args.len(), |i: int| args[i]@)
}

/// The models of a list of expressions, in order.
pub open spec fn expr_views(es: Seq<Expr>) -> Seq<ExprView>
    decreases es,
{
    Seq::new(
        es.len(),
        |i: int|
            if 0 <= i < es.len() {
                es[i].model()
            } else {
                ExprView::Ident(Seq::empty())
            },
    )
}

/// The models of a list of statements, in order.
pub open spec fn stmt_views(stmts: Seq<Stmt>) -> Seq<StmtView>
    decreases stmts,
{
    Seq::new(
        stmts.len(),
        |i: int|
            if 0 <= i < stmts.len() {
                stmts[i].model()
            } else {
                StmtView::Once(Seq::empty())
            },
    )
}

impl Literal {
    pub open spec fn model(self) -> LiteralView
        decreases self,
    {
        match self {
            Literal::Int(i) => LiteralView::Int(i as int),
            Literal::Float(bits) => LiteralView::Float(bits),
            Literal::Char(c) => LiteralView::Char(c),
            Literal::CharArray(s) => LiteralView::CharArray(s@),
            Literal::Bit(b) => LiteralView::Bit(b),
            Literal::Fn(def) => LiteralView::Fn(Box::new(def.model())),
            Literal::Array(elems) => LiteralView::Array(expr_views(elems@)),
        }
    }
}

impl Expr {
    pub open spec fn model(self) -> ExprView
        decreases self,
    {
        match self {
            Expr::FnCall(call) => ExprView::FnCall(
                FnCallView { name: call.name@, args: expr_views(call.args@) },
            ),
            Expr::Write(ty, args) => ExprView::Write(
                match ty {
                    WriteTy::Console => WriteTyView::Console,
                    WriteTy::Error => WriteTyView::Error,
                    WriteTy::RawFile => WriteTyView::RawFile,
                    WriteTy::Other(target) => WriteTyView::Other(Box::new(target.model())),
                },
                expr_views(args@),
            ),
            Expr::Literal(lit) => ExprView::Literal(lit.model()),
            Expr::Ident(name) => ExprView::Ident(name@),
            Expr::UnOp(op, operand) => ExprView::UnOp(op, Box::new(operand.model())),
            Expr::BinOp(left, op, right) => ExprView::BinOp(
                Box::new(left.model()),
                op,
                Box::new(right.model()),
            ),
        }
    }
}

impl FnDef {
    pub open spec fn model(self) -> FnDefView
        decreases self,
    {
        FnDefView {
            id: self.id,
            name: self.name@,
            ret: self.ret@,
            args: fn_arg_views(self.args@),
            limit: self.limit.model(),
            stmts: stmt_views(self.stmts@),
        }
    }
}

impl Stmt {
    pub open spec fn model(self) -> StmtView
        decreases self,
    {
        match self {
            Stmt::FnDef(def) => StmtView::FnDef(def.model()),
            Stmt::Assign(a) => StmtView::Assign(
                AssignView {
                    ty: a.ty,
                    ident: a.ident@,
                    assign_op: a.assign_op,
                    val: a.val.model(),
                },
            ),
            Stmt::Once(stmts) => StmtView::Once(stmt_views(stmts@)),
            Stmt::Sync(stmts) => StmtView::Sync(stmt_views(stmts@)),
            Stmt::Expr(e) => StmtView::Expr(e.model()),
            Stmt::TypeDef(name, ty) => StmtView::TypeDef(name@, ty@),
        }
    }
}

impl View for Expr {
    type V = ExprView;

    open spec fn view(&self) -> ExprView {
        self.model()
    }
}

impl View for Literal {
    type V = LiteralView;

    open spec fn view(&self) -> LiteralView {
        self.model()
    }
}

impl View for FnDef {
    type V = FnDefView;

    open spec fn view(&self) -> FnDefView {
        self.model()
    }
}

impl View for Stmt {
    type V = StmtView;

    open spec fn view(&self) -> StmtView {
        self.model()
    }
}

impl View for File {
    type V = FileView;

    open spec fn view(&self) -> FileView {
        FileView { stmts: stmt_views(self.stmts@) }
    }
}

/// The models of a list with one more expression at its end.
pub proof fn lemma_expr_views_push(es: Seq<Expr>, e: Expr)
    ensures
        expr_views(es.push(e)) == expr_views(es).push(e@),
{
    assert(expr_views(es.push(e)) =~= expr_views(es).push(e@));
}

/// The models of a list with one more statement at its end.
pub proof fn lemma_stmt_views_push(stmts: Seq<Stmt>, s: Stmt)
    ensures
        stmt_views(stmts.push(s)) == stmt_views(stmts).push(s@),
{
    assert(stmt_views(stmts.push(s)) =~= stmt_views(stmts).push(s@));
}

} // verus!
