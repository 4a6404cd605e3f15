use vstd::prelude::*;
use crate::ast::{Type, TypeView};
use crate::interp::model::{lemma_tags_distinct, tag_int, Native, Op, ValueView};
use crate::interp::{Exception, Fn, Item, ValItem, Value};
use crate::text::write_decimal;

verus! {

/// An integer value.
#[derive(Clone, Copy, Debug)]
pub struct Int(pub i128);

impl Int {
    pub fn new(val: i128) -> (r: Int)
        ensures
            r.0 == val,
    {
        Int(val)
    }

    pub fn val(&self) -> (r: i128)
        ensures
            r == self.0,
    {
        self.0
    }
}

impl<'ip> ValItem<'ip> for Int {
    open spec fn wrap(self) -> ValueView {
        ValueView::Int(self.0 as int)
    }

    open spec fn casts_from(ty: TypeView) -> bool {
        ty == tag_int()
    }

    open spec fn expected() -> TypeView {
        tag_int()
    }

    fn allow_cast(ty: Type) -> (r: Result<(), Exception>) {
        let want = Type::named("int");
        if ty.same(&want) {
            Ok(())
        } else {
            Err(Exception::InvalidType(want, ty))
        }
    }

    fn ty(&self) -> (t: Type) {
        Type::named("int")
    }

    fn write(&self, out: &mut String) {
        write_decimal(self.0, out);
    }

    fn get_field(&self, _name: &str) -> (r: Option<Value<'ip>>) {
        None
    }

    fn get_op(&self, op: Op) -> (r: Option<Fn<'ip>>) {
        match op {
            Op::Eq => Some(Fn::Builtin(Native::IntEq.make())),
            Op::Neq => Some(Fn::Builtin(Native::IntNeq.make())),
            Op::Add => Some(Fn::Builtin(Native::IntAdd.make())),
            Op::Sub => Some(Fn::Builtin(Native::IntSub.make())),
            Op::Mul => Some(Fn::Builtin(Native::IntMul.make())),
            Op::Div => Some(Fn::Builtin(Native::IntDiv.make())),
            Op::Neg => Some(Fn::Builtin(Native::IntNeg.make())),
            Op::Not => None,
        }
    }

    fn lift(self) -> (v: Value<'ip>) {
        Value { data: Item::Int(self) }
    }

    fn pick<'a>(v: &'a Value<'ip>) -> (r: Option<&'a Self>) {
        proof {
            lemma_tags_distinct();
        }
        match &v.data {
            Item::Int(item) => Some(item),
            _ => None,
        }
    }
}

} // verus!
