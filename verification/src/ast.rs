//! The syntax tree that the engine walks.
//!
//! The tree is plain data: whoever builds it (a parser, a test) fills the
//! public fields, and the engine reads them without changing anything.

use vstd::prelude::*;
use vstd::string::*;

pub mod grammar;
pub mod interp;
pub mod model;
pub mod parser;
pub mod semantics;

verus! {

/// How an assignment combines the old binding with the new value.
#[derive(Copy, Clone, Debug, PartialEq, Eq, Structural)]
pub enum AssignOp {
    Eq,
    PlusEq,
    SubEq,
    MulEq,
    DivEq,
}

/// Which binding rule an assignment follows.
#[derive(Copy, Clone, Debug, PartialEq, Eq, Structural)]
pub enum AssignTy {
    Unique,
    CarryOver,
    Default,
}

/// A binary operator as it is written in source text.
#[derive(Copy, Clone, Debug, PartialEq, Eq, Structural)]
pub enum BinOp {
    Eq,
    Neq,
    Add,
    Sub,
    Mul,
    Div,
}

/// A unary operator as it is written in source text.
#[derive(Copy, Clone, Debug, PartialEq, Eq, Structural)]
pub enum UnOp {
    Neg,
    Not,
}

impl BinOp {
    /// The source text of the operator.
    pub open spec fn text(self) -> Seq<char> {
        match self {
            BinOp::Eq => "=="@,
            BinOp::Neq => "!="@,
            BinOp::Add => "+"@,
            BinOp::Sub => "-"@,
            BinOp::Mul => "*"@,
            BinOp::Div => "/"@,
        }
    }

    pub fn pretty(&self) -> (s: String)
        ensures
            s@ == self.text(),
    {
        match self {
            BinOp::Eq => String::from_str("=="),
            BinOp::Neq => String::from_str("!="),
            BinOp::Add => String::from_str("+"),
            BinOp::Sub => String::from_str("-"),
            BinOp::Mul => String::from_str("*"),
            BinOp::Div => String::from_str("/"),
        }
    }
}

impl UnOp {
    /// The source text of the operator.
    pub open spec fn text(self) -> Seq<char> {
        match self {
            UnOp::Neg => "-"@,
            UnOp::Not => "!"@,
        }
    }

    pub fn pretty(&self) -> (s: String)
        ensures
            s@ == self.text(),
    {
        match self {
            UnOp::Neg => String::from_str("-"),
            UnOp::Not => String::from_str("!"),
        }
    }
}

/// A name in source text. Its model is the sequence of its characters.
#[derive(Debug)]
pub struct Ident(pub String);

impl View for Ident {
    type V = Seq<char>;

    open spec fn view(&self) -> Seq<char> {
        self.0@
    }
}

impl Clone for Ident {
    fn clone(&self) -> (r: Self)
        ensures
            r@ == self@,
    {
        Ident(self.0.clone())
    }
}

impl Ident {
    pub fn new(name: &str) -> (r: Ident)
        ensures
            r@ == name@,
    {
        Ident(String::from_str(name))
    }

    pub fn as_str(&self) -> (s: &str)
        ensures
            s@ == self@,
    {
        self.0.as_str()
    }

    /// Whether two names are spelled alike.
    pub fn same(&self, other: &Ident) -> (r: bool)
        ensures
            r == (self@ == other@),
    {
        self.0 == other.0
    }
}

/// A type tag: a name, an array of one element type, or a function type.
#[derive(Debug)]
pub enum Type {
    Named(Ident),
    Array(Box<Type>),
    Fn(Box<Type>, Vec<Type>),
}

/// The model of a type tag. Two tags are the same tag exactly when their
/// models are equal: names by spelling, arrays and functions part by part.
pub enum TypeView {
    Named(Seq<char>),
    Array(Box<TypeView>),
    Fn(Box<TypeView>, Seq<TypeView>),
}

/// The models of a list of type tags, in order.
pub open spec fn type_views(tys: Seq<Type>) -> Seq<TypeView> {
    Seq::new(tys.len(), |i: int| tys[i]@)
}

/// The texts of `tys[i..]`, joined by one space.
pub open spec fn pretty_texts(tys: Seq<TypeView>, i: int) -> Seq<char>
    decreases tys, tys.len() - i,
{
    if 0 <= i < tys.len() {
        if i + 1 < tys.len() {
            tys[i].text() + " "@ + pretty_texts(tys, i + 1)
        } else {
            tys[i].text()
        }
    } else {
        Seq::empty()
    }
}

impl TypeView {
    /// The text shown for a tag: the name; `[T]` for an array of `T`;
    /// `fn: R (A B ..)` for a function from `A B ..` to `R`.
    pub open spec fn text(self) -> Seq<char>
        decreases self,
    {
        match self {
            TypeView::Named(name) => name,
            TypeView::Array(inner) => "["@ + inner.text() + "]"@,
            TypeView::Fn(ret, args) => "fn: "@ + ret.text() + " ("@ + pretty_texts(args, 0) + ")"@,
        }
    }
}

impl Type {
    pub open spec fn model(self) -> TypeView
        decreases self,
    {
        match self {
            Type::Named(name) => TypeView::Named(name@),
            Type::Array(inner) => TypeView::Array(Box::new(inner.model())),
            Type::Fn(ret, args) => TypeView::Fn(
                Box::new(ret.model()),
                Seq::new(
                    args.len() as nat,
                    |i: int|
                        if 0 <= i < args.len() {
                            args[i].model()
                        } else {
                            TypeView::Named(Seq::empty())
                        },
                ),
            ),
        }
    }
}

impl View for Type {
    type V = TypeView;

    open spec fn view(&self) -> TypeView {
        self.model()
    }
}

/// The argument part of a function tag is the list of its arguments' models.
pub proof fn lemma_fn_type_view(ret: Box<Type>, args: Vec<Type>)
    ensures
        Type::Fn(ret, args)@ == TypeView::Fn(Box::new(ret@), type_views(args@)),
{
    assert(Type::Fn(ret, args).model()->Fn_1 =~= type_views(args@));
}

impl Type {
    pub fn named(name: &str) -> (t: Type)
        ensures
            t@ == TypeView::Named(name@),
    {
        Type::Named(Ident::new(name))
    }

    /// Whether two tags are the same tag.
    #[verifier::loop_isolation(false)]
    pub fn same(&self, other: &Type) -> (r: bool)
        ensures
            r == (self@ == other@),
        decreases self,
    {
        match (self, other) {
            (Type::Named(a), Type::Named(b)) => a.same(b),
            (Type::Array(a), Type::Array(b)) => a.same(b),
            (Type::Fn(ra, aa), Type::Fn(rb, ab)) => {
                proof {
                    lemma_fn_type_view(*ra, *aa);
                    lemma_fn_type_view(*rb, *ab);
                }
                if !ra.same(rb) {
                    return false;
                }
                if aa.len() != ab.len() {
                    assert(type_views(aa@).len() != type_views(ab@).len());
                    return false;
                }
                let mut i: usize = 0;
                while i < aa.len()
                    invariant
                        0 <= i <= aa.len(),
                        forall|j: int| 0 <= j < i ==> aa[j]@ == ab[j]@,
                    decreases aa.len() - i,
                {
                    if !aa[i].same(&ab[i]) {
                        assert(type_views(aa@)[i as int] != type_views(ab@)[i as int]);
                        return false;
                    }
                    i += 1;
                }
                assert(type_views(aa@) =~= type_views(ab@));
                true
            },
            _ => false,
        }
    }

    /// A copy of the tag.
    #[verifier::loop_isolation(false)]
    pub fn duplicate(&self) -> (r: Type)
        ensures
            r@ == self@,
        decreases self,
    {
        match self {
            Type::Named(name) => Type::Named(name.clone()),
            Type::Array(inner) => Type::Array(Box::new(inner.duplicate())),
            Type::Fn(ret, args) => {
                let mut out: Vec<Type> = Vec::new();
                let mut i: usize = 0;
                while i < args.len()
                    invariant
                        0 <= i <= args.len(),
                        out.len() == i,
                        forall|j: int| 0 <= j < i ==> args[j]@ == out[j]@,
                    decreases args.len() - i,
                {
                    out.push(args[i].duplicate());
                    i += 1;
                }
                let ret2 = Box::new(ret.duplicate());
                proof {
                    lemma_fn_type_view(*ret, *args);
                    lemma_fn_type_view(ret2, out);
                    assert(type_views(args@) =~= type_views(out@));
                }
                Type::Fn(ret2, out)
            },
        }
    }

    /// The text shown for the tag.
    #[verifier::loop_isolation(false)]
    pub fn pretty(&self) -> (s: String)
        ensures
            s@ == self@.text(),
        decreases self,
    {
        match self {
            Type::Named(name) => name.0.clone(),
            Type::Array(inner) => {
                let s = String::from_str("[").concat(inner.pretty().as_str()).concat("]");
                s
            },
            Type::Fn(ret, args) => {
                proof {
                    lemma_fn_type_view(*ret, *args);
                }
                let mut list = String::new();
                let mut i: usize = args.len();
                let ghost views = type_views(args@);
                while i > 0
                    invariant
                        0 <= i <= args.len(),
                        list@ == pretty_texts(views, i as int),
                    decreases i,
                {
                    i -= 1;
                    let mut item = args[i].pretty();
                    if i + 1 < args.len() {
                        item.append(" ");
                        item.append(list.as_str());
                    }
                    list = item;
                }
                String::from_str("fn: ").concat(ret.pretty().as_str()).concat(" (").concat(
                    list.as_str(),
                ).concat(")")
            },
        }
    }
}

impl Clone for Type {
    fn clone(&self) -> (r: Self)
        ensures
            r@ == self@,
    {
        self.duplicate()
    }
}

/// A declared parameter of a function.
#[derive(Clone, Debug)]
pub struct FnArg {
    pub name: Ident,
    pub ty: Type,
}

/// A call of a named function.
#[derive(Debug)]
pub struct FnCall {
    pub name: Ident,
    pub args: Vec<Expr>,
}

/// Where a write expression sends its text.
#[derive(Debug)]
pub enum WriteTy {
    Console,
    Error,
    RawFile,
    Other(Box<Expr>),
}

/// A literal. A float is held by its IEEE-754 bit pattern; a character array
/// is held as written, with its two quote marks.
#[derive(Debug)]
pub enum Literal {
    Int(i128),
    Float(u64),
    Char(char),
    CharArray(String),
    Bit(bool),
    Fn(FnDef),
    Array(Vec<Expr>),
}

#[derive(Debug)]
pub enum Expr {
    FnCall(FnCall),
    Write(WriteTy, Vec<Expr>),
    Literal(Literal),
    Ident(Ident),
    UnOp(UnOp, Box<Expr>),
    BinOp(Box<Expr>, BinOp, Box<Expr>),
}

#[derive(Debug)]
pub struct Assign {
    pub ty: AssignTy,
    pub ident: Ident,
    pub assign_op: AssignOp,
    pub val: Expr,
}

/// A function definition: the body is run again and again until the limit
/// expression yields the bit `1b`.
///
/// The field `id` is the definition's identity: whoever builds a tree gives
/// every definition in it a number of its own, and two callables are the
/// same definition exactly when their numbers are equal.
#[derive(Debug)]
pub struct FnDef {
    pub id: u64,
    pub name: Ident,
    pub ret: Type,
    pub args: Vec<FnArg>,
    pub limit: Box<Expr>,
    pub stmts: Vec<Stmt>,
}

#[derive(Debug)]
pub enum Stmt {
    FnDef(FnDef),
    Assign(Assign),
    Once(Vec<Stmt>),
    Sync(Vec<Stmt>),
    Expr(Expr),
    TypeDef(Ident, Type),
}

/// A whole program: its top-level statements in order.
#[derive(Debug)]
pub struct File {
    pub stmts: Vec<Stmt>,
}

/// The declared parameter types of a definition, in order.
pub open spec fn arg_type_views(args: Seq<FnArg>) -> Seq<TypeView> {
    Seq::new(args.len(), |i: int| args[i].ty@)
}

impl FnDef {
    pub fn name(&self) -> (s: &str)
        ensures
            s@ == self.name@,
    {
        self.name.as_str()
    }

    pub fn ret_ty(&self) -> (t: &Type)
        ensures
            *t == self.ret,
    {
        &self.ret
    }

    pub fn arg_tys(&self) -> (tys: Vec<Type>)
        ensures
            type_views(tys@) == arg_type_views(self.args@),
    {
        let mut tys: Vec<Type> = Vec::new();
        let mut i: usize = 0;
        while i < self.args.len()
            invariant
                0 <= i <= self.args.len(),
                tys.len() == i,
                forall|j: int| 0 <= j < i ==> tys[j]@ == self.args[j].ty@,
            decreases self.args.len() - i,
        {
            tys.push(self.args[i].ty.clone());
            i += 1;
        }
        assert(type_views(tys@) =~= arg_type_views(self.args@));
        tys
    }
}

} // verus!
