//! Runtime data: values, callables, exceptions and the environment.

use vstd::prelude::*;
use vstd::string::*;
use crate::ast::{Ident, Type, TypeView, type_views};
use crate::interp::model::{
    AbortView, ExceptionView, Fatal, FnView, Op, OutputView, SinkView, ValueView,
};

pub mod array;
pub mod bit;
pub mod char_array;
pub mod character;
pub mod env;
pub mod float;
pub mod func;
pub mod integer;
pub mod model;
pub mod null;
pub mod ty;

pub use array::Array;
pub use bit::Bit;
pub use char_array::CharArray;
pub use env::Env;
pub use character::Char;
pub use float::Float;
pub use func::{BuiltinFn, Fn};
pub use integer::Int;
pub use null::Null;

verus! {

/// An error that a program can cause and that ends the current call chain.
#[derive(Debug)]
pub enum Exception {
    /// A value's tag (the second) is not the tag that was required (the first).
    InvalidType(Type, Type),
    /// The left or sole operand, whose tag is the first, has no
    /// implementation of the operator; the second tag is the right operand's.
    InvalidOp(Op, Type, Option<Type>),
    NameNotFound(Ident),
    Io,
}

impl View for Exception {
    type V = ExceptionView;

    open spec fn view(&self) -> ExceptionView {
        match self {
            Exception::InvalidType(expected, actual) => ExceptionView::InvalidType(
                expected@,
                actual@,
            ),
            Exception::InvalidOp(op, left, right) => ExceptionView::InvalidOp(
                *op,
                left@,
                match right {
                    Some(t) => Some(t@),
                    None => None,
                },
            ),
            Exception::NameNotFound(name) => ExceptionView::NameNotFound(name@),
            Exception::Io => ExceptionView::Io,
        }
    }
}

/// The error of the standard library's input and output. The engine never
/// looks inside one: a failed write is a failed write.
#[verifier::external_type_specification]
#[verifier::external_body]
pub struct ExIoError(std::io::Error);

impl From<std::io::Error> for Exception {
    /// Any failure of input or output becomes the one exception `Io`; the
    /// cause is not kept.
    fn from(_e: std::io::Error) -> (r: Exception) {
        Exception::Io
    }
}

impl vstd::std_specs::convert::FromSpecImpl<std::io::Error> for Exception {
    open spec fn obeys_from_spec() -> bool {
        true
    }

    open spec fn from_spec(e: std::io::Error) -> Exception {
        Exception::Io
    }
}

impl Exception {
    /// The message shown for the exception.
    pub fn message(&self) -> (s: String)
        ensures
            s@ == self@.text(),
    {
        match self {
            Exception::InvalidType(expected, actual) => {
                let mut s = String::from_str("Expected type `");
                s.append(expected.pretty().as_str());
                s.append("`, got type `");
                s.append(actual.pretty().as_str());
                s.append("`");
                assert(s@ =~= self@.text());
                s
            },
            Exception::InvalidOp(op, left, Some(right)) => {
                let mut s = String::from_str("Attempted to invoke operator ");
                s.append(op.pretty());
                s.append(" on invalid types. Left: `");
                s.append(left.pretty().as_str());
                s.append("`, Right: `");
                s.append(right.pretty().as_str());
                s.append("`");
                assert(s@ =~= self@.text());
                s
            },
            Exception::InvalidOp(op, left, None) => {
                let mut s = String::from_str("Attempted to invoke operator ");
                s.append(op.pretty());
                s.append(" on invalid type `");
                s.append(left.pretty().as_str());
                s.append("`");
                assert(s@ =~= self@.text());
                s
            },
            Exception::NameNotFound(name) => {
                let mut s = String::from_str("Attempted to access invalid identifier ");
                s.append(name.as_str());
                s
            },
            Exception::Io => String::from_str("IO operation failed"),
        }
    }
}

/// What stops an evaluation: an exception, a fatal condition, or the end of
/// the step budget that the caller granted.
#[derive(Debug)]
pub enum Abort {
    Raised(Exception),
    Fatal(Fatal),
    OutOfSteps,
}

impl View for Abort {
    type V = AbortView;

    open spec fn view(&self) -> AbortView {
        match self {
            Abort::Raised(e) => AbortView::Raised(e@),
            Abort::Fatal(f) => AbortView::Fatal(*f),
            Abort::OutOfSteps => AbortView::OutOfSteps,
        }
    }
}

/// Where written text goes.
#[derive(Debug)]
pub enum Sink {
    Console,
    Error,
    RawFile,
    Descriptor(i128),
    Named(String),
}

impl View for Sink {
    type V = SinkView;

    open spec fn view(&self) -> SinkView {
        match self {
            Sink::Console => SinkView::Console,
            Sink::Error => SinkView::Error,
            Sink::RawFile => SinkView::RawFile,
            Sink::Descriptor(fd) => SinkView::Descriptor(*fd as int),
            Sink::Named(path) => SinkView::Named(path@),
        }
    }
}

/// One write that a program asked for: the engine records it, and whoever
/// runs the engine performs it.
#[derive(Debug)]
pub struct Output {
    pub sink: Sink,
    pub text: String,
}

impl View for Output {
    type V = OutputView;

    open spec fn view(&self) -> OutputView {
        OutputView { sink: self.sink@, text: self.text@ }
    }
}

/// The concrete kinds that a value can hold.
#[derive(Debug)]
enum Item<'ip> {
    Null(Null),
    Int(Int),
    Float(Float),
    Char(Char),
    CharArray(CharArray),
    Bit(Bit),
    Array(Array<'ip>),
    Fn(Fn<'ip>),
    Type(ty::Type),
}

/// A runtime value: one item of one kind, reached only through its
/// capabilities (tag, text, field, operator) or a checked downcast.
#[derive(Debug)]
pub struct Value<'ip> {
    data: Item<'ip>,
}

/// The models of a list of values, in order.
pub open spec fn value_views<'ip>(vals: Seq<Value<'ip>>) -> Seq<ValueView> {
    Seq::new(vals.len(), |i: int| vals[i]@)
}

impl<'ip> Value<'ip> {
    pub closed spec fn model(self) -> ValueView
        decreases self,
    {
        match self.data {
            Item::Null(_) => ValueView::Null,
            Item::Int(i) => ValueView::Int(i.0 as int),
            Item::Float(f) => ValueView::Float(f.0),
            Item::Char(c) => ValueView::Char(c.0),
            Item::CharArray(s) => ValueView::CharArray(s.0@),
            Item::Bit(b) => ValueView::Bit(b.0),
            Item::Array(a) => ValueView::Array(
                Seq::new(
                    a.0.len() as nat,
                    |i: int|
                        if 0 <= i < a.0.len() {
                            a.0[i].model()
                        } else {
                            ValueView::Null
                        },
                ),
            ),
            Item::Fn(f) => ValueView::Fn(f@),
            Item::Type(t) => ValueView::Type(t.0@),
        }
    }
}

impl<'ip> View for Value<'ip> {
    type V = ValueView;

    open spec fn view(&self) -> ValueView {
        self.model()
    }
}

/// The model of a callable that may be absent.
pub open spec fn fn_option_view<'ip>(f: Option<Fn<'ip>>) -> Option<FnView> {
    match f {
        Some(f) => Some(f@),
        None => None,
    }
}

/// The model of a value that may be absent.
pub open spec fn value_option_view<'ip>(v: Option<Value<'ip>>) -> Option<ValueView> {
    match v {
        Some(v) => Some(v@),
        None => None,
    }
}

/// What every kind of value can do. A value reaches its item only through
/// these capabilities, and a consumer reaches the item only through
/// `Value::downcast`, which asks `allow_cast` first.
pub trait ValItem<'ip>: Sized {
    /// The value that holds this item.
    spec fn wrap(self) -> ValueView;

    /// Whether a value with the tag `ty` holds an item of this kind.
    spec fn casts_from(ty: TypeView) -> bool;

    /// The tag that is named when a value of another kind is refused.
    spec fn expected() -> TypeView;

    /// Accepts the tags of this kind and refuses every other tag.
    fn allow_cast(ty: Type) -> (r: Result<(), Exception>)
        ensures
            r is Ok <==> Self::casts_from(ty@),
            r is Err ==> r->Err_0@ == ExceptionView::InvalidType(Self::expected(), ty@),
    ;

    /// The tag of the item.
    fn ty(&self) -> (t: Type)
        ensures
            t@ == self.wrap().ty(),
    ;

    /// Appends the text of the item.
    fn write(&self, out: &mut String)
        ensures
            final(out)@ == old(out)@ + self.wrap().text(),
    ;

    /// The field of the item with the given name.
    fn get_field(&self, name: &str) -> (r: Option<Value<'ip>>)
        ensures
            value_option_view(r) == self.wrap().field(name@),
    ;

    /// The callable that implements `op` with this item as the left or sole
    /// operand.
    fn get_op(&self, op: Op) -> (r: Option<Fn<'ip>>)
        ensures
            fn_option_view(r) == self.wrap().operator(op),
    ;

    /// Puts the item into a value.
    fn lift(self) -> (v: Value<'ip>)
        ensures
            v@ == self.wrap(),
    ;

    /// The item of this kind that a value holds, if it holds one.
    fn pick<'a>(v: &'a Value<'ip>) -> (r: Option<&'a Self>)
        ensures
            match r {
                Some(item) => item.wrap() == v@,
                None => !Self::casts_from(v@.ty()),
            },
    ;
}

/// The model of a value that holds an array is the array of the models of
/// the elements.
proof fn lemma_array_view<'ip>(a: Array<'ip>)
    ensures
        (Value { data: Item::Array(a) })@ == a.wrap(),
{
    crate::interp::array::lemma_array_wrap(a);
    assert((Value { data: Item::Array(a) }).model()->Array_0 =~= value_views(a.0@));
}

impl<'ip> Value<'ip> {
    /// The value that holds the given item.
    pub fn new<T: ValItem<'ip>>(item: T) -> (v: Value<'ip>)
        ensures
            v@ == item.wrap(),
    {
        item.lift()
    }

    pub fn null() -> (v: Value<'ip>)
        ensures
            v@ == ValueView::Null,
    {
        Value { data: Item::Null(Null) }
    }

    /// The item of kind `T` that the value holds. The tag is checked first:
    /// a value whose tag does not belong to `T` is refused.
    pub fn downcast<T: ValItem<'ip>>(&self) -> (r: Result<&T, Exception>)
        ensures
            match r {
                Ok(item) => T::casts_from(self@.ty()) && item.wrap() == self@,
                Err(e) => !T::casts_from(self@.ty()) && e@ == ExceptionView::InvalidType(
                    T::expected(),
                    self@.ty(),
                ),
            },
    {
        match T::allow_cast(self.ty()) {
            Err(e) => Err(e),
            Ok(_) => match T::pick(self) {
                Some(item) => Ok(item),
                None => vstd::pervasive::unreached(),
            },
        }
    }

    /// The tag of the value.
    pub fn ty(&self) -> (t: Type)
        ensures
            t@ == self@.ty(),
        decreases self,
    {
        match &self.data {
            Item::Null(n) => n.ty(),
            Item::Int(i) => i.ty(),
            Item::Float(f) => f.ty(),
            Item::Char(c) => c.ty(),
            Item::CharArray(s) => s.ty(),
            Item::Bit(b) => b.ty(),
            Item::Array(a) => {
                proof {
                    lemma_array_view(*a);
                }
                a.tag()
            },
            Item::Fn(f) => f.ty(),
            Item::Type(t) => t.ty(),
        }
    }

    /// Appends the text of the value.
    pub fn write(&self, out: &mut String)
        ensures
            final(out)@ == old(out)@ + self@.text(),
        decreases self,
    {
        match &self.data {
            Item::Null(n) => n.write(out),
            Item::Int(i) => i.write(out),
            Item::Float(f) => f.write(out),
            Item::Char(c) => c.write(out),
            Item::CharArray(s) => s.write(out),
            Item::Bit(b) => b.write(out),
            Item::Array(a) => {
                proof {
                    lemma_array_view(*a);
                }
                a.write_items(out)
            },
            Item::Fn(f) => f.write(out),
            Item::Type(t) => t.write(out),
        }
    }

    /// The field of the value with the given name.
    pub fn get_field(&self, name: &str) -> (r: Option<Value<'ip>>)
        ensures
            value_option_view(r) == self@.field(name@),
    {
        match &self.data {
            Item::Null(n) => n.get_field(name),
            Item::Int(i) => i.get_field(name),
            Item::Float(f) => f.get_field(name),
            Item::Char(c) => c.get_field(name),
            Item::CharArray(s) => s.get_field(name),
            Item::Bit(b) => b.get_field(name),
            Item::Array(a) => a.get_field(name),
            Item::Fn(f) => f.get_field(name),
            Item::Type(t) => t.get_field(name),
        }
    }

    /// The callable that implements `op` with this value as the left or
    /// sole operand, if its kind has one.
    pub fn get_op(&self, op: Op) -> (r: Option<Fn<'ip>>)
        ensures
            fn_option_view(r) == self@.operator(op),
    {
        match &self.data {
            Item::Null(n) => n.get_op(op),
            Item::Int(i) => i.get_op(op),
            Item::Float(f) => f.get_op(op),
            Item::Char(c) => c.get_op(op),
            Item::CharArray(s) => s.get_op(op),
            Item::Bit(b) => b.get_op(op),
            Item::Array(a) => {
                proof {
                    lemma_array_view(*a);
                }
                a.get_op(op)
            },
            Item::Fn(f) => f.get_op(op),
            Item::Type(t) => t.get_op(op),
        }
    }

    /// A copy of the value: deep for an array, cheap for the rest.
    pub fn duplicate(&self) -> (r: Value<'ip>)
        ensures
            r@ == self@,
        decreases self,
    {
        match &self.data {
            Item::Null(n) => Value { data: Item::Null(Null) },
            Item::Int(i) => Value { data: Item::Int(Int(i.0)) },
            Item::Float(f) => Value { data: Item::Float(Float(f.0)) },
            Item::Char(c) => Value { data: Item::Char(Char(c.0)) },
            Item::CharArray(s) => Value { data: Item::CharArray(s.clone()) },
            Item::Bit(b) => Value { data: Item::Bit(Bit(b.0)) },
            Item::Array(a) => {
                let copy = a.duplicate();
                proof {
                    lemma_array_view(*a);
                    lemma_array_view(copy);
                    crate::interp::array::lemma_array_wrap(*a);
                    crate::interp::array::lemma_array_wrap(copy);
                }
                Value { data: Item::Array(copy) }
            },
            Item::Fn(f) => Value { data: Item::Fn(f.clone()) },
            Item::Type(t) => Value { data: Item::Type(t.clone()) },
        }
    }
}

impl<'ip> Clone for Value<'ip> {
    fn clone(&self) -> (r: Self)
        ensures
            r@ == self@,
    {
        self.duplicate()
    }
}

/// The model of the outcome of an evaluation.
pub open spec fn result_view<'ip>(r: Result<Value<'ip>, Abort>) -> Result<ValueView, AbortView> {
    match r {
        Ok(v) => Ok(v@),
        Err(a) => Err(a@),
    }
}

/// Checks the arguments of a call, which are as many as the declared
/// parameters, against the declared parameter types.
pub fn validate_args<'ip>(params: &Vec<Type>, args: &[Value<'ip>]) -> (r: Result<(), Abort>)
    requires
        params.len() == args.len(),
    ensures
        match r {
            Ok(_) => crate::interp::model::check_args(type_views(params@), value_views(args@))
                is None,
            Err(a) => crate::interp::model::check_args(type_views(params@), value_views(args@))
                == Some(a@),
        },
{
    let ghost ps = type_views(params@);
    let ghost vs = value_views(args@);
    let mut i: usize = 0;
    while i < args.len()
        invariant
            0 <= i <= args.len(),
            params.len() == args.len(),
            ps == type_views(params@),
            vs == value_views(args@),
            crate::interp::model::first_bad_arg(ps, vs, 0) == crate::interp::model::first_bad_arg(
                ps,
                vs,
                i as int,
            ),
        decreases args.len() - i,
    {
        let ty = args[i].ty();
        if !ty.same(&params[i]) {
            return Err(Abort::Raised(Exception::InvalidType(params[i].clone(), ty)));
        }
        i += 1;
    }
    Ok(())
}

} // verus!
